//! View-style driver markers kept for hosts that select rigs by view kind.

use vstd::prelude::*;

verus! {

use crate::driver::driver_core::DriverMarker;

/// Identity of the [`FPV`] view marker.
pub const VIEW_FPV_ID: u64 = 5;

/// Identity of the [`Pinned`] view marker.
pub const VIEW_PINNED_ID: u64 = 6;

/// Marks a first-person view rig.
#[derive(Clone, Copy, PartialEq, Eq, Structural, Debug)]
pub struct FPV;

impl DriverMarker for FPV {
    open spec fn spec_id(&self) -> u64 {
        VIEW_FPV_ID
    }

    fn get_id(&self) -> (r: u64) {
        VIEW_FPV_ID
    }

    fn get_name(&self) -> (r: &'static str) {
        "FPV"
    }
}

/// Marks a rig pinned in place; rotation may still be locked or free.
#[derive(Clone, Copy, PartialEq, Eq, Structural, Debug)]
pub struct Pinned;

impl DriverMarker for Pinned {
    open spec fn spec_id(&self) -> u64 {
        VIEW_PINNED_ID
    }

    fn get_id(&self) -> (r: u64) {
        VIEW_PINNED_ID
    }

    fn get_name(&self) -> (r: &'static str) {
        "Pinned"
    }
}

} // verus!
