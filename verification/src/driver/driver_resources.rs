//! The per-tick driver systems: advancing the registry on its key binding
//! and emitting the attach/detach actions for the host to execute.

use vstd::prelude::*;

verus! {

use crate::driver::driver_core::{apply_action, DriverAction, Drivers};

/// Advances the registry when its binding was just pressed.  A press on an
/// empty registry is ignored, as is a tick without a press.
pub fn change_driver_system(drivers: &mut Drivers, next_just_pressed: bool)
    requires
        old(drivers).wf(),
    ensures
        final(drivers).enabled_drivers == old(drivers).enabled_drivers,
        final(drivers).cameras == old(drivers).cameras,
        final(drivers).spec_camera_index() == old(drivers).spec_camera_index(),
        final(drivers).wf(),
        next_just_pressed && old(drivers).enabled_drivers.len() > 0
            ==> final(drivers).spec_driver_index() == crate::cycle::next_index(
            old(drivers).spec_driver_index() as nat,
            old(drivers).enabled_drivers.len() as nat,
        ),
        !(next_just_pressed && old(drivers).enabled_drivers.len() > 0)
            ==> final(drivers).spec_driver_index() == old(drivers).spec_driver_index(),
{
    if next_just_pressed {
        let _ = drivers.next();
    }
}

/// The attach/detach pass for one tick: when the registry changed since the
/// last tick, every registered driver is ordered attached to or detached
/// from every active camera; otherwise nothing is ordered.
pub fn update_driver_system(drivers: &Drivers, active_cameras: &Vec<u64>, changed: bool) -> (r:
    Vec<DriverAction>)
    requires
        drivers.wf(),
        drivers.enabled_drivers.len() * active_cameras.len() <= 1_000_000,
    ensures
        !changed ==> r@.len() == 0,
        changed ==> r@.len() == drivers.enabled_drivers@.len() * active_cameras@.len(),
        changed ==> forall|k: int| 0 <= k < r@.len() ==> #[trigger] r@[k] == apply_action(
            drivers.enabled_drivers@,
            active_cameras@,
            drivers.spec_driver_index() as int,
            k,
        ),
{
    if changed {
        drivers.apply(active_cameras)
    } else {
        Vec::new()
    }
}

} // verus!
