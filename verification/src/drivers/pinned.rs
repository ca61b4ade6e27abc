//! The pinned driver marker: a camera held at an externally set position.

use vstd::prelude::*;

verus! {

use crate::driver::driver_core::DriverMarker;

/// Identity of the [`Pinned`] driver.
pub const PINNED_ID: u64 = 4;

/// Marks a camera rig whose position is pinned to a point set from
/// outside rather than derived from input.
#[derive(Clone, Copy, PartialEq, Eq, Structural, Debug)]
pub struct Pinned;

impl DriverMarker for Pinned {
    open spec fn spec_id(&self) -> u64 {
        PINNED_ID
    }

    fn get_id(&self) -> (r: u64) {
        PINNED_ID
    }

    fn get_name(&self) -> (r: &'static str) {
        "Pinned"
    }
}

} // verus!
