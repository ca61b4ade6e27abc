//! The first-person-view driver marker.

use vstd::prelude::*;

verus! {

use crate::driver::driver_core::DriverMarker;

/// Identity of the [`Fpv`] driver.
pub const FPV_ID: u64 = 3;

/// Marks a camera rig driven from the target's own point of view.
#[derive(Clone, Copy, PartialEq, Eq, Structural, Debug)]
pub struct Fpv;

impl DriverMarker for Fpv {
    open spec fn spec_id(&self) -> u64 {
        FPV_ID
    }

    fn get_id(&self) -> (r: u64) {
        FPV_ID
    }

    fn get_name(&self) -> (r: &'static str) {
        "Fpv"
    }
}

} // verus!
