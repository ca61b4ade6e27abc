//! The orbit driver: its marker, the pan-input state, and the pure
//! computations behind its per-tick update and mouse-wheel systems.

use vstd::prelude::*;

verus! {

use crate::cam::{accumulate_mouse_delta, mouse_events_wf, sum_dx, sum_dy, MAX_EVENTS, MOUSE_LIMIT};
use crate::driver::driver_core::DriverMarker;
use crate::math::{abs_i, abs_fx, div_i64, div_trunc, mul_frac, spec_mul_frac};

/// Identity of the [`CCOrbit`] driver.
pub const CCORBIT_ID: u64 = 1;

/// Yaw turned per quarter-turn key press, in micro-degrees.
pub const ORBIT_KEY_STEP: i64 = 90_000_000;

/// Fraction of a mouse-motion pixel turned per pixel: 0.1 of the motion
/// times the orbit sensitivity of 2, as a fraction of [`crate::math::SCALE`].
pub const ORBIT_MOUSE_FACTOR: i64 = 200_000;

/// Largest projection value (field of view or orthographic scale) the
/// wheel handler accepts.
pub const PROJECTION_LIMIT: i64 = 1_000_000_000_000;

/// How far one wheel event can move the projection: a tenth of the largest
/// accepted event.
pub const WHEEL_EVENT_BOUND: i64 = 100_000_000;

/// The orbit driver.
#[derive(Clone, Copy, PartialEq, Eq, Structural, Debug)]
pub struct CCOrbit;

impl DriverMarker for CCOrbit {
    open spec fn spec_id(&self) -> u64 {
        CCORBIT_ID
    }

    fn get_id(&self) -> (r: u64) {
        CCORBIT_ID
    }

    fn get_name(&self) -> (r: &'static str) {
        "CCOrbit"
    }
}

/// What pans the orbit camera: mouse motion, or the quarter-turn keys.
#[derive(Clone, Copy, PartialEq, Eq, Structural, Debug)]
pub enum Pan {
    Mouse,
    Keys,
}

impl Default for Pan {
    fn default() -> (r: Pan)
        ensures
            r == Pan::Mouse,
    {
        Pan::Mouse
    }
}

/// Everything one tick of the orbit system decides: how far to turn the
/// rig, the next pan state, whether the rig is pinned, and the yaw the
/// position controller is given (the tick's horizontal mouse motion).
#[derive(Clone, Copy, PartialEq, Eq, Structural, Debug)]
pub struct OrbitUpdate {
    /// Yaw to turn by, micro-degrees.
    pub yaw_delta: i64,
    /// Pitch to turn by, micro-degrees.
    pub pitch_delta: i64,
    /// The pan state after this tick.
    pub pan: Pan,
    /// Whether the rig position is pinned to the controlled entity.
    pub pin: bool,
    /// Yaw handed to the position controller, micro-radians.
    pub control_yaw: i64,
}

/// One tick of the orbit update: under key pan, the Z and X keys each turn
/// a quarter turn; under mouse pan with the cursor captured, the rig turns
/// by 0.1 of the mouse motion at sensitivity 2 (sign reversed).  The E key
/// toggles the pan state, the P key toggles pinning, and the horizontal
/// mouse motion always reaches the position controller.
pub fn update_orbit_camera(
    pan: Pan,
    z_just_pressed: bool,
    x_just_pressed: bool,
    e_just_pressed: bool,
    p_just_pressed: bool,
    cursor_visible: bool,
    mouse_events: &Vec<(i64, i64)>,
    pin: bool,
) -> (r: OrbitUpdate)
    requires
        mouse_events@.len() <= MAX_EVENTS,
        mouse_events_wf(mouse_events@),
    ensures
        r.control_yaw == sum_dx(mouse_events@),
        pan == Pan::Keys ==> r.yaw_delta == (if z_just_pressed {
            -ORBIT_KEY_STEP as int
        } else {
            0
        }) + (if x_just_pressed {
            ORBIT_KEY_STEP as int
        } else {
            0
        }) && r.pitch_delta == 0,
        pan == Pan::Mouse && !cursor_visible ==> r.yaw_delta == -spec_mul_frac(
            sum_dx(mouse_events@),
            ORBIT_MOUSE_FACTOR as int,
        ) && r.pitch_delta == -spec_mul_frac(sum_dy(mouse_events@), ORBIT_MOUSE_FACTOR as int),
        pan == Pan::Mouse && cursor_visible ==> r.yaw_delta == 0 && r.pitch_delta == 0,
        r.pan == if e_just_pressed {
            (if pan == Pan::Keys {
                Pan::Mouse
            } else {
                Pan::Keys
            })
        } else {
            pan
        },
        r.pin == if p_just_pressed {
            !pin
        } else {
            pin
        },
{
    let delta = accumulate_mouse_delta(mouse_events);
    let mut yaw_delta: i64 = 0;
    let mut pitch_delta: i64 = 0;
    if matches!(pan, Pan::Keys) {
        if z_just_pressed {
            yaw_delta = yaw_delta - ORBIT_KEY_STEP;
        }
        if x_just_pressed {
            yaw_delta = yaw_delta + ORBIT_KEY_STEP;
        }
    } else if !cursor_visible {
        yaw_delta = -mul_frac(delta.0, ORBIT_MOUSE_FACTOR);
        pitch_delta = -mul_frac(delta.1, ORBIT_MOUSE_FACTOR);
    }
    let new_pan = if e_just_pressed {
        if matches!(pan, Pan::Keys) {
            Pan::Mouse
        } else {
            Pan::Keys
        }
    } else {
        pan
    };
    let new_pin = if p_just_pressed {
        !pin
    } else {
        pin
    };
    OrbitUpdate { yaw_delta, pitch_delta, pan: new_pan, pin: new_pin, control_yaw: delta.0 }
}

/// The projection value after folding one tick's wheel events: each event
/// moves the value down by its fraction of the wheel step, and the result
/// is reflected back positive, as the host's projection requires.
pub open spec fn spec_scroll_fold(v: int, s: Seq<i64>, divisor: int) -> int
    decreases s.len(),
{
    if s.len() == 0 {
        v
    } else {
        abs_i(spec_scroll_fold(v, s.drop_last(), divisor) - div_trunc(s.last() as int, divisor))
    }
}

/// Folds one tick's mouse-wheel events into the camera projection: a
/// perspective field of view moves by a hundredth of each wheel step, an
/// orthographic scale by a tenth, and either stays non-negative by
/// reflection.
pub fn handle_mouse_scroll(value: i64, wheel_events: &Vec<i64>, perspective: bool) -> (r: i64)
    requires
        0 <= value <= PROJECTION_LIMIT,
        wheel_events@.len() <= MAX_EVENTS,
        forall|i: int| 0 <= i < wheel_events@.len() ==> -MOUSE_LIMIT <= #[trigger] wheel_events@[i]
            <= MOUSE_LIMIT,
    ensures
        r == spec_scroll_fold(
            value as int,
            wheel_events@,
            if perspective {
                100
            } else {
                10
            },
        ),
        r >= 0,
{
    let divisor: i64 = if perspective {
        100
    } else {
        10
    };
    let mut v: i64 = value;
    let mut i: usize = 0;
    while i < wheel_events.len()
        invariant
            0 <= i <= wheel_events@.len(),
            wheel_events@.len() <= MAX_EVENTS,
            divisor == if perspective { 100int } else { 10int },
            forall|k: int| 0 <= k < wheel_events@.len() ==> -MOUSE_LIMIT <= #[trigger] wheel_events@[k]
                <= MOUSE_LIMIT,
            v == spec_scroll_fold(value as int, wheel_events@.take(i as int), divisor as int),
            0 <= v <= PROJECTION_LIMIT + (i as int) * WHEEL_EVENT_BOUND,
        decreases wheel_events@.len() - i,
    {
        let y = wheel_events[i];
        proof {
            assert(wheel_events@.take(i + 1).drop_last() =~= wheel_events@.take(i as int));
            assert(wheel_events@.take(i + 1).last() == wheel_events@[i as int]);
            crate::math::lemma_div_trunc_magnitude(y as int, divisor as int);
            vstd::arithmetic::div_mod::lemma_div_is_ordered(
                abs_i(y as int),
                MOUSE_LIMIT as int,
                divisor as int,
            );
            vstd::arithmetic::div_mod::lemma_div_is_ordered_by_denominator(
                MOUSE_LIMIT as int,
                10,
                divisor as int,
            );
            assert(MOUSE_LIMIT as int / 10 == WHEEL_EVENT_BOUND);
            assert(abs_i(div_trunc(y as int, divisor as int)) <= WHEEL_EVENT_BOUND);
        }
        let q = div_i64(y, divisor);
        v = abs_fx(v - q);
        i = i + 1;
    }
    proof {
        assert(wheel_events@.take(wheel_events@.len() as int) =~= wheel_events@);
    }
    v
}

} // verus!
