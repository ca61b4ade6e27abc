//! The first-person/free flight driver: its marker, its movement-type
//! state, and the pure computation behind its per-tick update system.

use vstd::prelude::*;

verus! {

use crate::cam::{
    validate_key, accumulate_mouse_delta, mouse_events_wf, sum_dx, sum_dy, MAX_EVENTS,
    KEY_W, KEY_S, KEY_A, KEY_D, KEY_E, KEY_SPACE, KEY_Q, KEY_LSHIFT,
};
use crate::driver::driver_core::DriverMarker;
use crate::math::{Vec3Fx, SCALE};

/// Identity of the [`CCFpv`] driver.
pub const CCFPV_ID: u64 = 2;

/// The first-person/free flight driver.
#[derive(Clone, Copy, PartialEq, Eq, Structural, Debug)]
pub struct CCFpv;

impl DriverMarker for CCFpv {
    open spec fn spec_id(&self) -> u64 {
        CCFPV_ID
    }

    fn get_id(&self) -> (r: u64) {
        CCFPV_ID
    }

    fn get_name(&self) -> (r: &'static str) {
        "CCFpv"
    }
}

/// How the flight driver moves: anchored to the target's point of view, or
/// floating freely.
#[derive(Clone, Copy, PartialEq, Eq, Structural, Debug)]
pub enum MovementType {
    FirstPerson,
    Free,
}

impl Default for MovementType {
    fn default() -> (r: MovementType)
        ensures
            r == MovementType::FirstPerson,
    {
        MovementType::FirstPerson
    }
}

/// Everything one tick of the flight-driver system decides: the movement
/// direction summed from the pressed keys, the boost factor, the folded
/// mouse motion, and whether mouse look applies this tick.
#[derive(Clone, Copy, Debug)]
pub struct FpvUpdate {
    /// Unit contributions of the pressed keys, one [`SCALE`] per axis.
    pub move_vec: Vec3Fx,
    /// `SCALE` while the boost key is held, 0 otherwise.
    pub boost: i64,
    /// The tick's mouse motion, component-wise summed.
    pub mouse_delta: (i64, i64),
    /// Mouse look applies only while the cursor is captured.
    pub apply_rotation: bool,
}

/// The movement direction the flight keys request: one whole unit per axis
/// and direction whose key is held, opposite keys cancelling.
pub open spec fn spec_fpv_move_vec(pressed: Seq<u32>) -> Vec3Fx {
    Vec3Fx {
        x: ((if pressed.contains(KEY_D) {
            SCALE as int
        } else {
            0
        }) - (if pressed.contains(KEY_A) {
            SCALE as int
        } else {
            0
        })) as i64,
        y: ((if pressed.contains(KEY_E) || pressed.contains(KEY_SPACE) {
            SCALE as int
        } else {
            0
        }) - (if pressed.contains(KEY_Q) {
            SCALE as int
        } else {
            0
        })) as i64,
        z: ((if pressed.contains(KEY_S) {
            SCALE as int
        } else {
            0
        }) - (if pressed.contains(KEY_W) {
            SCALE as int
        } else {
            0
        })) as i64,
    }
}

/// One tick of the flight-driver update: folds the pressed keys into a
/// movement direction (forward is negative `z`), reads the boost key, sums
/// the mouse motion, and applies mouse look only while the cursor is
/// captured.  The host performs the resulting rig motion.
pub fn update_fpv_camera(
    pressed: &Vec<u32>,
    mouse_events: &Vec<(i64, i64)>,
    cursor_visible: bool,
) -> (r: FpvUpdate)
    requires
        mouse_events@.len() <= MAX_EVENTS,
        mouse_events_wf(mouse_events@),
    ensures
        r.move_vec == spec_fpv_move_vec(pressed@),
        r.boost == if pressed@.contains(KEY_LSHIFT) {
            SCALE as int
        } else {
            0
        },
        r.mouse_delta.0 == sum_dx(mouse_events@),
        r.mouse_delta.1 == sum_dy(mouse_events@),
        r.apply_rotation == !cursor_visible,
{
    let mut move_vec = Vec3Fx::zero();
    if validate_key(pressed, KEY_W) {
        move_vec.z = move_vec.z - SCALE;
    }
    if validate_key(pressed, KEY_S) {
        move_vec.z = move_vec.z + SCALE;
    }
    if validate_key(pressed, KEY_A) {
        move_vec.x = move_vec.x - SCALE;
    }
    if validate_key(pressed, KEY_D) {
        move_vec.x = move_vec.x + SCALE;
    }
    if validate_key(pressed, KEY_E) || validate_key(pressed, KEY_SPACE) {
        move_vec.y = move_vec.y + SCALE;
    }
    if validate_key(pressed, KEY_Q) {
        move_vec.y = move_vec.y - SCALE;
    }
    let boost: i64 = if validate_key(pressed, KEY_LSHIFT) {
        SCALE
    } else {
        0
    };
    let mouse_delta = accumulate_mouse_delta(mouse_events);
    FpvUpdate { move_vec, boost, mouse_delta, apply_rotation: !cursor_visible }
}

} // verus!
