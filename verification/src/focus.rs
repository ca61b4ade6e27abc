//! Focus resolution: turning the configured target entities into the point
//! the camera should look at, and smoothing the point it does look at
//! toward it.

use vstd::prelude::*;

verus! {

use crate::Config;
use crate::math::{
    Vec3Fx, SCALE, COORD_LIMIT, abs_i, div_trunc, spec_lerp, spec_mul_frac, in_coord,
    lemma_mul_frac_bounds,
};

/// Fixed speed, in units per second, at which the smoothed focus point
/// approaches the requested one.
pub const FOCUS_SPEED: i64 = 2_000_000;

/// Dead-zone radius: the smoothed focus point does not move while it is
/// within this distance (0.2 units) of the requested one, so jitter at rest
/// never drifts the camera.
pub const FOCUS_DEADZONE: i64 = 200_000;

/// The squared dead-zone radius, compared against squared distances.
pub const FOCUS_DEADZONE_SQ: i64 = 40_000_000_000;

/// Longest tick accepted by the smoothing step, one minute in micro-seconds.
pub const MAX_TICK: i64 = 60_000_000;

/// Most targets a centroid may be taken over.
pub const MAX_TARGETS: usize = 100_000;

/// Where the camera should look, given the configured targets and the
/// transforms the host resolved for them this tick.
///
/// With both a primary and an external target whose positions resolved, the
/// focus is the blend of the two by `t / SCALE`; with only the primary
/// resolved, its position; with no target configured at all, the world
/// origin.  A configured target whose position did not resolve leaves the
/// previous focus point in place for this tick.
pub open spec fn spec_resolve_focus(
    prev: Vec3Fx,
    target_set: bool,
    ext_set: bool,
    target_tf: Option<Vec3Fx>,
    ext_tf: Option<Vec3Fx>,
    t: int,
) -> Vec3Fx {
    if target_set && ext_set {
        if target_tf is Some && ext_tf is Some {
            target_tf.unwrap().spec_lerp_v(ext_tf.unwrap(), t)
        } else {
            prev
        }
    } else if target_set {
        if target_tf is Some {
            target_tf.unwrap()
        } else {
            prev
        }
    } else {
        Vec3Fx::spec_zero()
    }
}

/// Recomputes `camera_should_focus` from the configured targets.
///
/// `target_tf` and `ext_tf` are the positions the host resolved for
/// `config.target` and `config.external_target`; `None` stands both for an
/// unset target and for an entity whose transform no longer exists.
pub fn resolve_focus(
    config: &mut Config,
    target_tf: Option<Vec3Fx>,
    ext_tf: Option<Vec3Fx>,
    t: i64,
)
    requires
        old(config).wf(),
        0 <= t <= SCALE,
        target_tf is Some ==> old(config).target is Some,
        ext_tf is Some ==> old(config).external_target is Some,
        target_tf is Some ==> target_tf.unwrap().wf(),
        ext_tf is Some ==> ext_tf.unwrap().wf(),
    ensures
        final(config).camera_should_focus == spec_resolve_focus(
            old(config).camera_should_focus,
            old(config).target is Some,
            old(config).external_target is Some,
            target_tf,
            ext_tf,
            t as int,
        ),
        final(config).camera_should_focus.wf(),
        final(config).target == old(config).target,
        final(config).external_target == old(config).external_target,
        final(config).camera_is_focus == old(config).camera_is_focus,
{
    if config.target.is_some() && config.external_target.is_some() {
        if let (Some(tp), Some(ep)) = (target_tf, ext_tf) {
            config.camera_should_focus = tp.lerp(ep, t);
        }
    } else if config.target.is_some() {
        if let Some(tp) = target_tf {
            config.camera_should_focus = tp;
        }
    } else {
        config.camera_should_focus = Vec3Fx::zero();
    }
}

/// Sum of the `x` coordinates of a sequence of points.
pub open spec fn sum_x(s: Seq<Vec3Fx>) -> int
    decreases s.len(),
{
    if s.len() == 0 {
        0
    } else {
        sum_x(s.drop_last()) + s.last().x
    }
}

/// Sum of the `y` coordinates of a sequence of points.
pub open spec fn sum_y(s: Seq<Vec3Fx>) -> int
    decreases s.len(),
{
    if s.len() == 0 {
        0
    } else {
        sum_y(s.drop_last()) + s.last().y
    }
}

/// Sum of the `z` coordinates of a sequence of points.
pub open spec fn sum_z(s: Seq<Vec3Fx>) -> int
    decreases s.len(),
{
    if s.len() == 0 {
        0
    } else {
        sum_z(s.drop_last()) + s.last().z
    }
}

/// The centroid of a non-empty set of points: the arithmetic mean of the
/// coordinates, each sum divided (toward zero) by the number of points.
/// For a single point the centroid is that point exactly.
pub fn get_center_point(targets: &Vec<Vec3Fx>) -> (r: Vec3Fx)
    requires
        1 <= targets@.len() <= MAX_TARGETS,
        forall|i: int| 0 <= i < targets@.len() ==> (#[trigger] targets@[i]).wf(),
    ensures
        r.x == div_trunc(sum_x(targets@), targets@.len() as int),
        r.y == div_trunc(sum_y(targets@), targets@.len() as int),
        r.z == div_trunc(sum_z(targets@), targets@.len() as int),
        targets@.len() == 1 ==> r == targets@[0],
        r.wf(),
{
    let n = targets.len();
    let mut sx: i64 = 0;
    let mut sy: i64 = 0;
    let mut sz: i64 = 0;
    let mut i: usize = 0;
    while i < n
        invariant
            0 < n <= MAX_TARGETS,
            n == targets@.len(),
            0 <= i <= n,
            forall|k: int| 0 <= k < targets@.len() ==> (#[trigger] targets@[k]).wf(),
            sx == sum_x(targets@.take(i as int)),
            sy == sum_y(targets@.take(i as int)),
            sz == sum_z(targets@.take(i as int)),
            -(i as int) * COORD_LIMIT <= sx <= (i as int) * COORD_LIMIT,
            -(i as int) * COORD_LIMIT <= sy <= (i as int) * COORD_LIMIT,
            -(i as int) * COORD_LIMIT <= sz <= (i as int) * COORD_LIMIT,
        decreases n - i,
    {
        let p = targets[i];
        proof {
            assert(targets@.take(i + 1).drop_last() =~= targets@.take(i as int));
            assert(targets@.take(i + 1).last() == targets@[i as int]);
        }
        sx = sx + p.x;
        sy = sy + p.y;
        sz = sz + p.z;
        i = i + 1;
    }
    proof {
        assert(targets@.take(n as int) =~= targets@);
    }
    let d: i64 = n as i64;
    let r = Vec3Fx {
        x: crate::math::div_i64(sx, d),
        y: crate::math::div_i64(sy, d),
        z: crate::math::div_i64(sz, d),
    };
    proof {
        lemma_div_trunc_in_coord(sum_x(targets@), n as int);
        lemma_div_trunc_in_coord(sum_y(targets@), n as int);
        lemma_div_trunc_in_coord(sum_z(targets@), n as int);
        if n == 1 {
            lemma_sum_singleton(targets@);
            lemma_div_trunc_by_one(sum_x(targets@));
            lemma_div_trunc_by_one(sum_y(targets@));
            lemma_div_trunc_by_one(sum_z(targets@));
        }
    }
    r
}

/// Dividing a coordinate sum over `n` points by `n` lands back inside the
/// coordinate range.
proof fn lemma_div_trunc_in_coord(s: int, n: int)
    requires
        0 < n,
        -n * COORD_LIMIT <= s <= n * COORD_LIMIT,
    ensures
        in_coord(div_trunc(s, n)),
{
    if s >= 0 {
        vstd::arithmetic::div_mod::lemma_div_is_ordered(s, n * COORD_LIMIT, n);
        assert(n * COORD_LIMIT == COORD_LIMIT * n) by (nonlinear_arith);
        vstd::arithmetic::div_mod::lemma_div_multiples_vanish(COORD_LIMIT as int, n);
        vstd::arithmetic::div_mod::lemma_div_pos_is_pos(s, n);
    } else {
        let m = -s;
        vstd::arithmetic::div_mod::lemma_div_is_ordered(m, n * COORD_LIMIT, n);
        assert(n * COORD_LIMIT == COORD_LIMIT * n) by (nonlinear_arith);
        vstd::arithmetic::div_mod::lemma_div_multiples_vanish(COORD_LIMIT as int, n);
        vstd::arithmetic::div_mod::lemma_div_pos_is_pos(m, n);
    }
}

/// The coordinate sums over a single point are that point's coordinates.
proof fn lemma_sum_singleton(s: Seq<Vec3Fx>)
    requires
        s.len() == 1,
    ensures
        sum_x(s) == s[0].x,
        sum_y(s) == s[0].y,
        sum_z(s) == s[0].z,
{
    assert(s.drop_last().len() == 0);
    assert(sum_x(s.drop_last()) == 0);
    assert(sum_y(s.drop_last()) == 0);
    assert(sum_z(s.drop_last()) == 0);
    assert(s.last() == s[0]);
}

/// Truncating division by one returns the dividend.
proof fn lemma_div_trunc_by_one(s: int)
    ensures
        div_trunc(s, 1) == s,
{
    if s >= 0 {
        vstd::arithmetic::div_mod::lemma_div_basics(s);
    } else {
        vstd::arithmetic::div_mod::lemma_div_basics(-s);
    }
}

/// The look-at point for the multi-target case: one target is followed
/// directly, several are followed at their centroid, and when the target
/// set has become empty the previous point is deliberately kept (the camera
/// holds still rather than snapping elsewhere).
pub fn update_look_at(current: Vec3Fx, targets: &Vec<Vec3Fx>) -> (r: Vec3Fx)
    requires
        targets@.len() <= MAX_TARGETS,
        forall|i: int| 0 <= i < targets@.len() ==> (#[trigger] targets@[i]).wf(),
    ensures
        targets@.len() == 0 ==> r == current,
        targets@.len() == 1 ==> r == targets@[0],
        targets@.len() >= 2 ==> r.x == div_trunc(sum_x(targets@), targets@.len() as int)
            && r.y == div_trunc(sum_y(targets@), targets@.len() as int)
            && r.z == div_trunc(sum_z(targets@), targets@.len() as int),
        targets@.len() >= 1 ==> r.wf(),
{
    if targets.len() == 0 {
        current
    } else {
        get_center_point(targets)
    }
}

/// The fraction of the remaining distance covered in one smoothing step of
/// `dt` micro-seconds: `FOCUS_SPEED * dt`, capped at a full step.
pub open spec fn spec_smooth_factor(dt: int) -> int {
    let f = div_trunc(FOCUS_SPEED * dt, SCALE as int);
    if f > SCALE {
        SCALE as int
    } else {
        f
    }
}

/// One smoothing tick: `camera_is_focus` moves toward `camera_should_focus`
/// by the fraction [`spec_smooth_factor`] of the remaining distance — but
/// only when the two points are strictly more than the dead-zone radius
/// apart.  At or inside the dead zone, the smoothed point does not move at
/// all this tick.
pub fn smooth_focus(config: &mut Config, dt: i64)
    requires
        old(config).wf(),
        0 <= dt <= MAX_TICK,
    ensures
        final(config).target == old(config).target,
        final(config).external_target == old(config).external_target,
        final(config).camera_should_focus == old(config).camera_should_focus,
        final(config).camera_is_focus.wf(),
        ({
            let d = old(config).camera_should_focus.spec_sub_v(old(config).camera_is_focus);
            let dist_sq = d.x * d.x + d.y * d.y + d.z * d.z;
            if dist_sq <= FOCUS_DEADZONE_SQ {
                final(config).camera_is_focus == old(config).camera_is_focus
            } else {
                final(config).camera_is_focus == old(config).camera_is_focus.spec_lerp_v(
                    old(config).camera_should_focus,
                    spec_smooth_factor(dt as int),
                )
            }
        }),
{
    let dist_sq: u64 = config.camera_should_focus.dist_sq(config.camera_is_focus);
    if dist_sq > FOCUS_DEADZONE_SQ as u64 {
        let raw: i64 = div_i64_scaled(dt);
        let f: i64 = if raw > SCALE {
            SCALE
        } else {
            raw
        };
        config.camera_is_focus = config.camera_is_focus.lerp(config.camera_should_focus, f);
    }
}

/// `FOCUS_SPEED * dt / SCALE`, the uncapped smoothing fraction.
fn div_i64_scaled(dt: i64) -> (r: i64)
    requires
        0 <= dt <= MAX_TICK,
    ensures
        r == div_trunc(FOCUS_SPEED * dt, SCALE as int),
        r >= 0,
{
    let p: i64 = FOCUS_SPEED * dt;
    let r = crate::math::div_i64(p, SCALE);
    proof {
        vstd::arithmetic::div_mod::lemma_div_pos_is_pos(p as int, SCALE as int);
    }
    r
}

/// Smoothing never overshoots: after one step toward the goal, the
/// remaining distance (per coordinate) is no larger than before, and the
/// goal is never passed, however large `dt` was.
pub proof fn lemma_smooth_never_overshoots(cur: int, goal: int, f: int)
    requires
        0 <= f <= SCALE,
    ensures
        abs_i(goal - spec_lerp(cur, goal, f)) <= abs_i(goal - cur),
        (goal - spec_lerp(cur, goal, f)) * (goal - cur) >= 0,
{
    let d = goal - cur;
    lemma_mul_frac_bounds(d, f);
    let q = spec_mul_frac(d, f);
    assert(goal - spec_lerp(cur, goal, f) == d - q);
    if d >= 0 {
        assert((d - q) * d >= 0) by (nonlinear_arith)
            requires 0 <= q <= d;
    } else {
        assert((d - q) * d >= 0) by (nonlinear_arith)
            requires d <= q <= 0;
    }
}

} // verus!
