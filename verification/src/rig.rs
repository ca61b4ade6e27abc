//! The camera rig: a stack of composable drivers resolved into one
//! transform per tick.
//!
//! The composition order is fixed and canonical: the yaw/pitch driver sets
//! the rotation, the position driver sets the base translation, the arm
//! offset is applied after the rotation (so it hangs in the camera's local
//! frame), and the smoothing pass runs last over the combined result.
//! Swapping smoothing before the arm would smooth the raw position instead
//! of the offset one, a different camera feel; this order is the one the
//! stock rigs use.

use vstd::prelude::*;

verus! {

use crate::angle::{sin_fx, cos_fx, spec_sin_fx, spec_cos_fx, TAU_FX};
use crate::cam::DEG_TO_RAD_FX;
use crate::math::{
    mul_frac_signed, spec_mul_frac, spec_clamp, div_i64, div_trunc, clamp_fx,
    RotFx, Vec3Fx, TransformFx, SCALE,
};

/// Largest coordinate magnitude a rig driver may hold (100 units): keeps
/// every resolved translation a valid world position.
pub const RIG_COORD_LIMIT: i64 = 100_000_000;

/// A full turn of yaw, micro-degrees.
pub const FULL_TURN_DEG_FX: i64 = 360_000_000;

/// Furthest the rig pitch may turn from level, micro-degrees: just short
/// of straight up or down, so the rotation cannot flip over the pole.
pub const PITCH_CLAMP_DEG_FX: i64 = 88_000_000;

/// Longest tick the smoothing pass accepts, one minute in micro-seconds.
pub const RIG_MAX_TICK: i64 = 60_000_000;

/// A point is within the rig driver coordinate range.
pub open spec fn rig_vec_wf(v: Vec3Fx) -> bool {
    &&& -RIG_COORD_LIMIT <= v.x <= RIG_COORD_LIMIT
    &&& -RIG_COORD_LIMIT <= v.y <= RIG_COORD_LIMIT
    &&& -RIG_COORD_LIMIT <= v.z <= RIG_COORD_LIMIT
}

/// Runtime check of [`rig_vec_wf`].
pub fn in_rig_range(v: Vec3Fx) -> (r: bool)
    ensures
        r == rig_vec_wf(v),
{
    -RIG_COORD_LIMIT <= v.x && v.x <= RIG_COORD_LIMIT && -RIG_COORD_LIMIT <= v.y && v.y
        <= RIG_COORD_LIMIT && -RIG_COORD_LIMIT <= v.z && v.z <= RIG_COORD_LIMIT
}

/// Runtime check of [`Vec3Fx::wf`].
pub fn in_coord_range(v: Vec3Fx) -> (r: bool)
    ensures
        r == v.wf(),
{
    let c = crate::math::COORD_LIMIT;
    -c <= v.x && v.x <= c && -c <= v.y && v.y <= c && -c <= v.z && v.z <= c
}

/// Absolute world position pass-through, settable from outside (the
/// pinned-camera pattern).
#[derive(Clone, Copy, PartialEq, Eq, Structural, Debug)]
pub struct Position {
    pub position: Vec3Fx,
}

/// Yaw and pitch angles, micro-degrees, integrated from rotation inputs.
/// The yaw wraps around the full turn; the pitch is clamped short of the
/// poles so the view cannot roll over.
#[derive(Clone, Copy, PartialEq, Eq, Structural, Debug)]
pub struct YawPitch {
    pub yaw_deg: i64,
    pub pitch_deg: i64,
}

/// Exponential smoothing of the resolved position toward its target: each
/// tick covers `speed * dt` of the remaining distance, never more than the
/// whole of it, so a delta-time spike cannot overshoot.
#[derive(Clone, Copy, PartialEq, Eq, Structural, Debug)]
pub struct Smooth {
    /// Fraction of the remaining distance covered per second, scaled by
    /// [`SCALE`].
    pub speed: i64,
    /// Where the smoothed position was last tick, once one tick has run.
    pub last: Option<Vec3Fx>,
}

/// A fixed offset hung in the camera's local frame, applied after the
/// rotation: the third-person boom.
#[derive(Clone, Copy, PartialEq, Eq, Structural, Debug)]
pub struct Arm {
    pub offset: Vec3Fx,
}

/// A target point the camera should orient toward; the point itself is
/// supplied from outside each tick, the driver only carries it to the
/// host's orientation step.
#[derive(Clone, Copy, PartialEq, Eq, Structural, Debug)]
pub struct LookAtDriver {
    pub target: Vec3Fx,
}

impl YawPitch {
    /// Level view.
    pub fn new() -> (r: YawPitch)
        ensures
            r == (YawPitch { yaw_deg: 0, pitch_deg: 0 }),
    {
        YawPitch { yaw_deg: 0, pitch_deg: 0 }
    }

    /// The angles are wrapped and clamped into their ranges.
    pub open spec fn wf(self) -> bool {
        &&& 0 <= self.yaw_deg < FULL_TURN_DEG_FX
        &&& -PITCH_CLAMP_DEG_FX <= self.pitch_deg <= PITCH_CLAMP_DEG_FX
    }

    /// Turns by the given yaw and pitch deltas (micro-degrees): the yaw
    /// wraps around the full turn, the pitch stops at the clamp.
    pub fn rotate_yaw_pitch(&mut self, yaw_delta: i64, pitch_delta: i64)
        requires
            old(self).wf(),
            -FULL_TURN_DEG_FX <= yaw_delta <= FULL_TURN_DEG_FX,
            -FULL_TURN_DEG_FX <= pitch_delta <= FULL_TURN_DEG_FX,
        ensures
            final(self).yaw_deg == (old(self).yaw_deg + yaw_delta) % (FULL_TURN_DEG_FX as int),
            final(self).pitch_deg == spec_clamp(
                old(self).pitch_deg + pitch_delta,
                -PITCH_CLAMP_DEG_FX as int,
                PITCH_CLAMP_DEG_FX as int,
            ),
            final(self).wf(),
    {
        let mut y: i64 = self.yaw_deg + yaw_delta;
        if y < 0 {
            y = y + FULL_TURN_DEG_FX;
        } else if y >= FULL_TURN_DEG_FX {
            y = y - FULL_TURN_DEG_FX;
        }
        proof {
            lemma_wrap_is_mod(old(self).yaw_deg + yaw_delta, y as int);
        }
        self.yaw_deg = y;
        self.pitch_deg = clamp_fx(
            self.pitch_deg + pitch_delta,
            -PITCH_CLAMP_DEG_FX,
            PITCH_CLAMP_DEG_FX,
        );
    }
}

/// Adding or subtracting one full turn to land in `[0, FULL_TURN)` is the
/// remainder.
proof fn lemma_wrap_is_mod(a: int, y: int)
    requires
        -FULL_TURN_DEG_FX <= a < 2 * FULL_TURN_DEG_FX,
        y == a || y == a + FULL_TURN_DEG_FX || y == a - FULL_TURN_DEG_FX,
        0 <= y < FULL_TURN_DEG_FX,
    ensures
        y == a % (FULL_TURN_DEG_FX as int),
{
    let t = FULL_TURN_DEG_FX as int;
    if y == a {
        vstd::arithmetic::div_mod::lemma_small_mod(y as nat, t as nat);
    } else if y == a + t {
        vstd::arithmetic::div_mod::lemma_fundamental_div_mod_converse_mod(a, t, -1, y);
    } else {
        vstd::arithmetic::div_mod::lemma_fundamental_div_mod_converse_mod(a, t, 1, y);
    }
}

/// Micro-degrees converted to micro-radians.
pub open spec fn spec_deg_to_rad(d: int) -> int {
    div_trunc(d * DEG_TO_RAD_FX, SCALE as int)
}

/// Micro-degrees converted to micro-radians; a wrapped yaw or clamped
/// pitch always lands within one turn of radians.
pub fn deg_to_rad(d: i64) -> (r: i64)
    requires
        -FULL_TURN_DEG_FX <= d <= FULL_TURN_DEG_FX,
    ensures
        r == spec_deg_to_rad(d as int),
        -TAU_FX <= r <= TAU_FX,
{
    proof {
        assert(-6_283_080_000_000 <= d as int * DEG_TO_RAD_FX <= 6_283_080_000_000)
            by (nonlinear_arith)
            requires -360_000_000 <= d <= 360_000_000 && DEG_TO_RAD_FX == 17_453;
    }
    let p: i64 = d * DEG_TO_RAD_FX;
    let r = div_i64(p, SCALE);
    proof {
        crate::math::lemma_div_trunc_magnitude(p as int, SCALE as int);
        vstd::arithmetic::div_mod::lemma_div_is_ordered(
            crate::math::abs_i(p as int),
            SCALE as int * 6_283_080,
            SCALE as int,
        );
        vstd::arithmetic::div_mod::lemma_div_multiples_vanish(6_283_080, SCALE as int);
    }
    r
}

/// A vector rotated by pitch about the right axis, then yaw about the up
/// axis (the order that cannot introduce roll), with angles in
/// micro-radians.
pub open spec fn spec_rotate_yp(yaw: int, pitch: int, v: Vec3Fx) -> (int, int, int) {
    let sp = spec_sin_fx(pitch);
    let cp = spec_cos_fx(pitch);
    let sy = spec_sin_fx(yaw);
    let cy = spec_cos_fx(yaw);
    let y1 = spec_mul_frac(v.y as int, cp) - spec_mul_frac(v.z as int, sp);
    let z1 = spec_mul_frac(v.y as int, sp) + spec_mul_frac(v.z as int, cp);
    let x2 = spec_mul_frac(v.x as int, cy) + spec_mul_frac(z1, sy);
    let z2 = spec_mul_frac(z1, cy) - spec_mul_frac(v.x as int, sy);
    (x2, y1, z2)
}

/// Rotates a rig-local vector into the world frame by the rig's yaw and
/// pitch.  The result never grows past three times the rig coordinate
/// range.
#[verifier::rlimit(100)]
pub fn rotate_yp(yaw: i64, pitch: i64, v: Vec3Fx) -> (r: Vec3Fx)
    requires
        -TAU_FX <= yaw <= TAU_FX,
        -TAU_FX <= pitch <= TAU_FX,
        rig_vec_wf(v),
    ensures
        (r.x as int, r.y as int, r.z as int) == spec_rotate_yp(yaw as int, pitch as int, v),
        -3 * RIG_COORD_LIMIT <= r.x <= 3 * RIG_COORD_LIMIT,
        -3 * RIG_COORD_LIMIT <= r.y <= 3 * RIG_COORD_LIMIT,
        -3 * RIG_COORD_LIMIT <= r.z <= 3 * RIG_COORD_LIMIT,
{
    let sp = sin_fx(pitch);
    let cp = cos_fx(pitch);
    let sy = sin_fx(yaw);
    let cy = cos_fx(yaw);
    let y1: i64 = mul_frac_signed(v.y, cp) - mul_frac_signed(v.z, sp);
    let z1: i64 = mul_frac_signed(v.y, sp) + mul_frac_signed(v.z, cp);
    let x2: i64 = mul_frac_signed(v.x, cy) + mul_frac_signed(z1, sy);
    let z2: i64 = mul_frac_signed(z1, cy) - mul_frac_signed(v.x, sy);
    Vec3Fx { x: x2, y: y1, z: z2 }
}

/// The fraction of remaining distance one smoothing tick covers, capped at
/// the whole of it.
pub open spec fn spec_smooth_step_factor(speed: int, dt: int) -> int {
    let f = div_trunc(speed * dt, SCALE as int);
    if f > SCALE {
        SCALE as int
    } else {
        f
    }
}

/// What a rig resolves each tick: the camera transform, and the look-at
/// point for the host's orientation step if a look-at driver is mounted.
#[derive(Clone, Copy, PartialEq, Eq, Structural, Debug)]
pub struct RigOutput {
    pub transform: TransformFx,
    pub look_at: Option<Vec3Fx>,
}

/// A camera rig: the drivers it carries, in the fixed canonical
/// composition order.  Every slot is optional; an absent driver
/// contributes nothing.
#[derive(Clone, Copy, PartialEq, Eq, Structural, Debug)]
pub struct Rig {
    pub position: Option<Position>,
    pub yaw_pitch: Option<YawPitch>,
    pub arm: Option<Arm>,
    pub smooth: Option<Smooth>,
    pub look_at: Option<LookAtDriver>,
}

impl Rig {
    /// Every mounted driver's state is within its range.
    pub open spec fn wf(self) -> bool {
        &&& self.position is Some ==> rig_vec_wf(self.position.unwrap().position)
        &&& self.yaw_pitch is Some ==> self.yaw_pitch.unwrap().wf()
        &&& self.arm is Some ==> rig_vec_wf(self.arm.unwrap().offset)
        &&& self.smooth is Some ==> 0 <= self.smooth.unwrap().speed <= SCALE * 100
            && (self.smooth.unwrap().last is Some ==> self.smooth.unwrap().last.unwrap().wf())
        &&& self.look_at is Some ==> rig_vec_wf(self.look_at.unwrap().target)
    }

    /// Runtime check of [`Rig::wf`], for callers outside verified code.
    pub fn is_wf(&self) -> (r: bool)
        ensures
            r == self.wf(),
    {
        let pos_ok = match self.position {
            Some(p) => in_rig_range(p.position),
            None => true,
        };
        let yp_ok = match self.yaw_pitch {
            Some(yp) => 0 <= yp.yaw_deg && yp.yaw_deg < FULL_TURN_DEG_FX && -PITCH_CLAMP_DEG_FX
                <= yp.pitch_deg && yp.pitch_deg <= PITCH_CLAMP_DEG_FX,
            None => true,
        };
        let arm_ok = match self.arm {
            Some(a) => in_rig_range(a.offset),
            None => true,
        };
        let smooth_ok = match self.smooth {
            Some(s) => 0 <= s.speed && s.speed <= SCALE * 100 && (match s.last {
                Some(prev) => in_coord_range(prev),
                None => true,
            }),
            None => true,
        };
        let look_ok = match self.look_at {
            Some(la) => in_rig_range(la.target),
            None => true,
        };
        pos_ok && yp_ok && arm_ok && smooth_ok && look_ok
    }

    /// An empty rig: no drivers mounted.
    pub fn new() -> (r: Rig)
        ensures
            r == (Rig {
                position: None::<Position>,
                yaw_pitch: None::<YawPitch>,
                arm: None::<Arm>,
                smooth: None::<Smooth>,
                look_at: None::<LookAtDriver>,
            }),
            r.wf(),
    {
        Rig { position: None, yaw_pitch: None, arm: None, smooth: None, look_at: None }
    }

    /// The stock orbit rig: a settable position, a yaw/pitch rotation
    /// starting at 45 degrees of yaw and 30 degrees of downward pitch,
    /// a four-unit boom along local z, and position smoothing with a
    /// 0.3-second feel.
    pub fn stock_orbit() -> (r: Rig)
        ensures
            r.position == Some(Position { position: Vec3Fx::spec_zero() }),
            r.yaw_pitch == Some(YawPitch { yaw_deg: 45_000_000, pitch_deg: ((-30_000_000) as i64) }),
            r.arm == Some(Arm { offset: Vec3Fx { x: 0, y: 0, z: 4_000_000 } }),
            r.smooth == Some(Smooth { speed: 3_333_333, last: None::<Vec3Fx> }),
            r.look_at is None,
            r.wf(),
    {
        Rig {
            position: Some(Position { position: Vec3Fx { x: 0, y: 0, z: 0 } }),
            yaw_pitch: Some(YawPitch { yaw_deg: 45_000_000, pitch_deg: -30_000_000 }),
            arm: Some(Arm { offset: Vec3Fx { x: 0, y: 0, z: 4_000_000 } }),
            smooth: Some(Smooth { speed: 3_333_333, last: None }),
            look_at: None,
        }
    }

    /// The rotation the rig resolves, micro-radians.
    pub open spec fn spec_rotation(self) -> RotFx {
        match self.yaw_pitch {
            Some(yp) => RotFx {
                yaw: spec_deg_to_rad(yp.yaw_deg as int) as i64,
                pitch: spec_deg_to_rad(yp.pitch_deg as int) as i64,
            },
            None => RotFx::spec_identity(),
        }
    }

    /// The translation before smoothing: the position driver's point, with
    /// the arm offset rotated into the world frame on top.
    pub open spec fn spec_raw_translation(self) -> Vec3Fx {
        let base = match self.position {
            Some(p) => p.position,
            None => Vec3Fx::spec_zero(),
        };
        match self.arm {
            Some(a) => {
                let rot = self.spec_rotation();
                let w = spec_rotate_yp(rot.yaw as int, rot.pitch as int, a.offset);
                Vec3Fx {
                    x: (base.x + w.0) as i64,
                    y: (base.y + w.1) as i64,
                    z: (base.z + w.2) as i64,
                }
            },
            None => base,
        }
    }

    /// One tick: resolves rotation, base position and arm in the canonical
    /// order, then lets the smoothing driver chase the result, never
    /// overshooting it; the smoothing driver's memory is updated in place.
    /// The look-at target, if mounted, rides along unchanged.
    pub fn update(&mut self, dt: i64) -> (r: RigOutput)
        requires
            old(self).wf(),
            0 <= dt <= RIG_MAX_TICK,
        ensures
            final(self).position == old(self).position,
            final(self).yaw_pitch == old(self).yaw_pitch,
            final(self).arm == old(self).arm,
            final(self).look_at == old(self).look_at,
            final(self).wf(),
            r.transform.rotation == old(self).spec_rotation(),
            r.look_at == match old(self).look_at {
                Some(la) => Some(la.target),
                None => None::<Vec3Fx>,
            },
            ({
                let raw = old(self).spec_raw_translation();
                match old(self).smooth {
                    Some(s) => match s.last {
                        Some(prev) => {
                            let f = spec_smooth_step_factor(s.speed as int, dt as int);
                            &&& r.transform.translation == prev.spec_lerp_v(raw, f)
                            &&& final(self).smooth == Some(
                                Smooth { speed: s.speed, last: Some(r.transform.translation) },
                            )
                        },
                        None => {
                            &&& r.transform.translation == raw
                            &&& final(self).smooth == Some(
                                Smooth { speed: s.speed, last: Some(raw) },
                            )
                        },
                    },
                    None => {
                        &&& r.transform.translation == raw
                        &&& final(self).smooth == old(self).smooth
                    },
                }
            }),
            r.transform.translation.wf(),
    {
        let rotation = match self.yaw_pitch {
            Some(yp) => RotFx {
                yaw: deg_to_rad(yp.yaw_deg),
                pitch: deg_to_rad(yp.pitch_deg),
            },
            None => RotFx::identity(),
        };
        let base = match self.position {
            Some(p) => p.position,
            None => Vec3Fx::zero(),
        };
        let raw = match self.arm {
            Some(a) => {
                let w = rotate_yp(rotation.yaw, rotation.pitch, a.offset);
                Vec3Fx { x: base.x + w.x, y: base.y + w.y, z: base.z + w.z }
            },
            None => base,
        };
        let translation = match self.smooth {
            Some(s) => match s.last {
                Some(prev) => {
                    let f = smooth_factor(s.speed, dt);
                    let out = prev.lerp(raw, f);
                    self.smooth = Some(Smooth { speed: s.speed, last: Some(out) });
                    out
                },
                None => {
                    self.smooth = Some(Smooth { speed: s.speed, last: Some(raw) });
                    raw
                },
            },
            None => raw,
        };
        let look_at = match self.look_at {
            Some(la) => Some(la.target),
            None => None,
        };
        RigOutput { transform: TransformFx { translation, rotation }, look_at }
    }
}

/// The capped smoothing fraction for one tick.
fn smooth_factor(speed: i64, dt: i64) -> (r: i64)
    requires
        0 <= speed <= SCALE * 100,
        0 <= dt <= RIG_MAX_TICK,
    ensures
        r == spec_smooth_step_factor(speed as int, dt as int),
        0 <= r <= SCALE,
{
    proof {
        assert(0 <= speed as int * dt <= 6_000_000_000_000_000) by (nonlinear_arith)
            requires 0 <= speed <= 100_000_000 && 0 <= dt <= 60_000_000;
    }
    let p: i64 = speed * dt;
    let f = crate::math::div_pos(p, SCALE);
    if f > SCALE {
        SCALE
    } else {
        proof {
            vstd::arithmetic::div_mod::lemma_div_pos_is_pos(p as int, SCALE as int);
        }
        f
    }
}

} // verus!
