//! The camera-side input layer: key bindings, movement settings, and the
//! pure computations behind the per-tick camera-movement system.
//!
//! Keys are plain codes the host translates its own key events into;
//! [`CamKeyMap`] and its player-side counterpart bind lists of codes to
//! each action, so several physical keys may drive one action.

use vstd::prelude::*;

verus! {

use crate::math::{
    Vec3Fx, SCALE, COORD_LIMIT, abs_i, clamp_fx, div_i64, div_trunc, spec_clamp,
};

/// Key codes, one per physical key the stock bindings use.
pub const KEY_W: u32 = 1;

pub const KEY_S: u32 = 2;

pub const KEY_A: u32 = 3;

pub const KEY_D: u32 = 4;

pub const KEY_SPACE: u32 = 5;

pub const KEY_LSHIFT: u32 = 6;

pub const KEY_C: u32 = 7;

pub const KEY_E: u32 = 8;

pub const KEY_UP: u32 = 9;

pub const KEY_DOWN: u32 = 10;

pub const KEY_COMMA: u32 = 11;

pub const KEY_PERIOD: u32 = 12;

pub const KEY_RSHIFT: u32 = 13;

pub const KEY_MINUS: u32 = 14;

pub const KEY_LEFT: u32 = 15;

pub const KEY_RIGHT: u32 = 16;

pub const KEY_T: u32 = 17;

pub const KEY_Z: u32 = 18;

pub const KEY_X: u32 = 19;

pub const KEY_P: u32 = 20;

pub const KEY_Q: u32 = 21;

pub const KEY_ESCAPE: u32 = 22;

/// Most pressed keys, and most mouse events, one tick is asked to digest.
pub const MAX_EVENTS: usize = 1000;

/// Largest magnitude accepted for one mouse-motion coordinate.
pub const MOUSE_LIMIT: i64 = 1_000_000_000;

/// Whether `key` is one of the codes bound to an action.
pub fn validate_key(codes: &Vec<u32>, key: u32) -> (r: bool)
    ensures
        r == codes@.contains(key),
{
    let mut i: usize = 0;
    while i < codes.len()
        invariant
            0 <= i <= codes@.len(),
            forall|k: int| 0 <= k < i ==> codes@[k] != key,
        decreases codes@.len() - i,
    {
        if codes[i] == key {
            return true;
        }
        i = i + 1;
    }
    false
}

/// The key bindings of the free camera.
#[derive(Clone, Debug)]
pub struct CamKeyMap {
    pub forward: Vec<u32>,
    pub backward: Vec<u32>,
    pub left: Vec<u32>,
    pub right: Vec<u32>,
    pub up: Vec<u32>,
    pub down: Vec<u32>,
    pub next_cam: Vec<u32>,
    pub next_setting: Vec<u32>,
}

impl Default for CamKeyMap {
    /// The stock bindings: WASD to move, space and left shift for up and
    /// down, C for the next camera and E for the next wheel setting.
    fn default() -> (r: CamKeyMap)
        ensures
            r.forward@ == seq![KEY_W],
            r.backward@ == seq![KEY_S],
            r.left@ == seq![KEY_A],
            r.right@ == seq![KEY_D],
            r.up@ == seq![KEY_SPACE],
            r.down@ == seq![KEY_LSHIFT],
            r.next_cam@ == seq![KEY_C],
            r.next_setting@ == seq![KEY_E],
    {
        let r = CamKeyMap {
            forward: one_key(KEY_W),
            backward: one_key(KEY_S),
            left: one_key(KEY_A),
            right: one_key(KEY_D),
            up: one_key(KEY_SPACE),
            down: one_key(KEY_LSHIFT),
            next_cam: one_key(KEY_C),
            next_setting: one_key(KEY_E),
        };
        r
    }
}

/// A binding list holding a single key.
pub fn one_key(key: u32) -> (r: Vec<u32>)
    ensures
        r@ == seq![key],
{
    let mut v: Vec<u32> = Vec::new();
    v.push(key);
    proof {
        assert(v@ =~= seq![key]);
    }
    v
}

/// Mouse sensitivity and movement speed of the free camera, with the flags
/// the camera modes drive.
#[derive(Clone, Debug)]
pub struct MovementSettings {
    /// Mouse-look sensitivity, per pixel of motion.
    pub sensitivity: i64,
    /// Movement speed, units per second.
    pub speed: i64,
    /// Follow distance for the top-down modes.
    pub dist: i64,
    /// The key bindings.
    pub map: CamKeyMap,
    /// Set while the current mode forbids free movement.
    pub disable_move: bool,
    /// Set while the current mode forbids mouse look.
    pub disable_look: bool,
    /// Set while the camera is locked to the player's frame.
    pub locked_to_player: bool,
    /// Blend factor between the target and the external target.
    pub lerp: i64,
    /// Lock-to-player as of the previous tick, for edge detection.
    pub ltp: bool,
}

impl MovementSettings {
    /// The scalar settings stay in ranges every formula in this crate can
    /// take them from.
    pub open spec fn wf(self) -> bool {
        &&& 0 <= self.sensitivity <= SCALE
        &&& 0 <= self.speed <= COORD_LIMIT
        &&& 0 <= self.dist <= COORD_LIMIT
        &&& 0 <= self.lerp <= SCALE
    }

    /// Runtime check of [`MovementSettings::wf`], for callers outside
    /// verified code.
    pub fn is_wf(&self) -> (r: bool)
        ensures
            r == self.wf(),
    {
        0 <= self.sensitivity && self.sensitivity <= SCALE && 0 <= self.speed && self.speed
            <= COORD_LIMIT && 0 <= self.dist && self.dist <= COORD_LIMIT && 0 <= self.lerp
            && self.lerp <= SCALE
    }
}

impl Default for MovementSettings {
    /// The stock settings: sensitivity 0.00012, speed 12, follow distance
    /// 10, blend factor one half, nothing disabled.
    fn default() -> (r: MovementSettings)
        ensures
            r.sensitivity == 120,
            r.speed == 12 * SCALE,
            r.dist == 10 * SCALE,
            r.map.forward@ == seq![KEY_W],
            !r.disable_move,
            !r.disable_look,
            !r.locked_to_player,
            r.lerp == SCALE / 2,
            !r.ltp,
            r.wf(),
    {
        MovementSettings {
            sensitivity: 120,
            speed: 12_000_000,
            dist: 10_000_000,
            map: CamKeyMap::default(),
            disable_move: false,
            disable_look: false,
            locked_to_player: false,
            lerp: 500_000,
            ltp: false,
        }
    }
}

/// Sum of the first coordinates of a list of mouse-motion events.
pub open spec fn sum_dx(s: Seq<(i64, i64)>) -> int
    decreases s.len(),
{
    if s.len() == 0 {
        0
    } else {
        sum_dx(s.drop_last()) + s.last().0
    }
}

/// Sum of the second coordinates of a list of mouse-motion events.
pub open spec fn sum_dy(s: Seq<(i64, i64)>) -> int
    decreases s.len(),
{
    if s.len() == 0 {
        0
    } else {
        sum_dy(s.drop_last()) + s.last().1
    }
}

/// All events of a list are within the accepted magnitude.
pub open spec fn mouse_events_wf(s: Seq<(i64, i64)>) -> bool {
    forall|i: int| 0 <= i < s.len() ==> -MOUSE_LIMIT <= (#[trigger] s[i]).0 <= MOUSE_LIMIT
        && -MOUSE_LIMIT <= s[i].1 <= MOUSE_LIMIT
}

/// Folds one tick's mouse-motion events into a single motion: the
/// component-wise sum.
pub fn accumulate_mouse_delta(events: &Vec<(i64, i64)>) -> (r: (i64, i64))
    requires
        events@.len() <= MAX_EVENTS,
        mouse_events_wf(events@),
    ensures
        r.0 == sum_dx(events@),
        r.1 == sum_dy(events@),
        -(MAX_EVENTS as int) * MOUSE_LIMIT <= r.0 <= MAX_EVENTS as int * MOUSE_LIMIT,
        -(MAX_EVENTS as int) * MOUSE_LIMIT <= r.1 <= MAX_EVENTS as int * MOUSE_LIMIT,
{
    let mut dx: i64 = 0;
    let mut dy: i64 = 0;
    let mut i: usize = 0;
    while i < events.len()
        invariant
            0 <= i <= events@.len(),
            events@.len() <= MAX_EVENTS,
            mouse_events_wf(events@),
            dx == sum_dx(events@.take(i as int)),
            dy == sum_dy(events@.take(i as int)),
            -(i as int) * MOUSE_LIMIT <= dx <= i as int * MOUSE_LIMIT,
            -(i as int) * MOUSE_LIMIT <= dy <= i as int * MOUSE_LIMIT,
        decreases events@.len() - i,
    {
        let e = events[i];
        proof {
            assert(events@.take(i + 1).drop_last() =~= events@.take(i as int));
            assert(events@.take(i + 1).last() == events@[i as int]);
        }
        dx = dx + e.0;
        dy = dy + e.1;
        i = i + 1;
    }
    proof {
        assert(events@.take(events@.len() as int) =~= events@);
    }
    (dx, dy)
}

/// What one pressed key adds to the free camera's velocity sum, when the
/// cursor is captured.
pub open spec fn cam_key_delta(
    map: CamKeyMap,
    key: u32,
    fwd: Vec3Fx,
    right: Vec3Fx,
) -> (int, int, int) {
    let fx = (if map.forward@.contains(key) {
        fwd.x as int
    } else {
        0
    }) - (if map.backward@.contains(key) {
        fwd.x as int
    } else {
        0
    }) - (if map.left@.contains(key) {
        right.x as int
    } else {
        0
    }) + (if map.right@.contains(key) {
        right.x as int
    } else {
        0
    });
    let fy = (if map.up@.contains(key) {
        SCALE as int
    } else {
        0
    }) - (if map.down@.contains(key) {
        SCALE as int
    } else {
        0
    });
    let fz = (if map.forward@.contains(key) {
        fwd.z as int
    } else {
        0
    }) - (if map.backward@.contains(key) {
        fwd.z as int
    } else {
        0
    }) - (if map.left@.contains(key) {
        right.z as int
    } else {
        0
    }) + (if map.right@.contains(key) {
        right.z as int
    } else {
        0
    });
    (fx, fy, fz)
}

/// The free camera's velocity sum over a tick's pressed keys.
pub open spec fn cam_vel_after(
    map: CamKeyMap,
    pressed: Seq<u32>,
    fwd: Vec3Fx,
    right: Vec3Fx,
) -> (int, int, int)
    decreases pressed.len(),
{
    if pressed.len() == 0 {
        (0, 0, 0)
    } else {
        let prev = cam_vel_after(map, pressed.drop_last(), fwd, right);
        let d = cam_key_delta(map, pressed.last(), fwd, right);
        (prev.0 + d.0, prev.1 + d.1, prev.2 + d.2)
    }
}

/// One tick of free-camera movement: a unit of the horizontal facing's
/// reverse, of the rightward direction or of the vertical axis is summed
/// for every direction key held — but only while the cursor is captured.
/// While movement is disabled, or the cursor is free, the camera does not
/// move.
#[verifier::rlimit(60)]
pub fn player_move(
    settings: &MovementSettings,
    pressed: &Vec<u32>,
    local_z: Vec3Fx,
    cursor_locked: bool,
) -> (r: Vec3Fx)
    requires
        local_z.wf(),
        pressed@.len() <= MAX_EVENTS,
    ensures
        settings.disable_move || !cursor_locked ==> r == Vec3Fx::spec_zero(),
        !settings.disable_move && cursor_locked ==> {
            let fwd = crate::player::spec_forward(false, local_z);
            let right = crate::player::spec_right(local_z);
            let v = cam_vel_after(settings.map, pressed@, fwd, right);
            &&& r.x == v.0
            &&& r.y == v.1
            &&& r.z == v.2
        },
{
    if settings.disable_move || !cursor_locked {
        return Vec3Fx::zero();
    }
    let fwd = Vec3Fx { x: -local_z.x, y: 0, z: -local_z.z };
    let right = Vec3Fx { x: local_z.z, y: 0, z: -local_z.x };
    let ghost fwd_s = crate::player::spec_forward(false, local_z);
    let ghost right_s = crate::player::spec_right(local_z);
    let mut vx: i64 = 0;
    let mut vy: i64 = 0;
    let mut vz: i64 = 0;
    let mut i: usize = 0;
    while i < pressed.len()
        invariant
            0 <= i <= pressed@.len(),
            pressed@.len() <= MAX_EVENTS,
            local_z.wf(),
            fwd == fwd_s,
            right == right_s,
            fwd_s == crate::player::spec_forward(false, local_z),
            right_s == crate::player::spec_right(local_z),
            (vx as int, vy as int, vz as int) == cam_vel_after(
                settings.map,
                pressed@.take(i as int),
                fwd_s,
                right_s,
            ),
            -(i as int) * 4 * COORD_LIMIT <= vx <= (i as int) * 4 * COORD_LIMIT,
            -(i as int) * 4 * COORD_LIMIT <= vy <= (i as int) * 4 * COORD_LIMIT,
            -(i as int) * 4 * COORD_LIMIT <= vz <= (i as int) * 4 * COORD_LIMIT,
        decreases pressed@.len() - i,
    {
        let key = pressed[i];
        proof {
            assert(pressed@.take(i + 1).drop_last() =~= pressed@.take(i as int));
            assert(pressed@.take(i + 1).last() == pressed@[i as int]);
        }
        if validate_key(&settings.map.forward, key) {
            vx = vx + fwd.x;
            vz = vz + fwd.z;
        }
        if validate_key(&settings.map.backward, key) {
            vx = vx - fwd.x;
            vz = vz - fwd.z;
        }
        if validate_key(&settings.map.left, key) {
            vx = vx - right.x;
            vz = vz - right.z;
        }
        if validate_key(&settings.map.right, key) {
            vx = vx + right.x;
            vz = vz + right.z;
        }
        if validate_key(&settings.map.up, key) {
            vy = vy + SCALE;
        }
        if validate_key(&settings.map.down, key) {
            vy = vy - SCALE;
        }
        i = i + 1;
    }
    proof {
        assert(pressed@.take(pressed@.len() as int) =~= pressed@);
    }
    Vec3Fx { x: vx, y: vy, z: vz }
}

/// Micro-radians per degree, truncated.
pub const DEG_TO_RAD_FX: i64 = 17_453;

/// Furthest the pitch may turn from level, just short of straight up or
/// down, so the view cannot flip over.
pub const LOOK_PITCH_CLAMP: i64 = 1_540_000;

/// Largest sensitivity the look handler accepts.
pub const LOOK_SENS_LIMIT: i64 = 10_000;

/// Largest window dimension, in pixels, the look handler accepts.
pub const LOOK_DIM_LIMIT: i64 = 100_000;

/// Largest yaw magnitude the look handler accepts on entry.
pub const LOOK_YAW_LIMIT: i64 = 1_000_000_000_000;

/// How far one mouse event can turn the view, in micro-radians.
pub const LOOK_DELTA_BOUND: i64 = 17_453_000_000;

/// How far one mouse event turns the view about one axis: the motion times
/// the sensitivity times the window dimension, taken as degrees and
/// converted to micro-radians.
pub open spec fn spec_look_delta(sens: int, d: int, dim: int) -> int {
    div_trunc(div_trunc(sens * d, SCALE as int) * dim * DEG_TO_RAD_FX, SCALE as int)
}

/// The view angle delta of one mouse event, bounded by
/// [`LOOK_DELTA_BOUND`].
fn look_delta(sens: i64, d: i64, dim: i64) -> (r: i64)
    requires
        0 <= sens <= LOOK_SENS_LIMIT,
        -MOUSE_LIMIT <= d <= MOUSE_LIMIT,
        0 <= dim <= LOOK_DIM_LIMIT,
    ensures
        r == spec_look_delta(sens as int, d as int, dim as int),
        -LOOK_DELTA_BOUND <= r <= LOOK_DELTA_BOUND,
{
    proof {
        assert(-10_000_000_000_000 <= sens * d <= 10_000_000_000_000) by (nonlinear_arith)
            requires 0 <= sens <= 10_000 && -1_000_000_000 <= d <= 1_000_000_000;
    }
    let p1: i64 = sens * d;
    let t1: i64 = div_i64(p1, SCALE);
    proof {
        crate::math::lemma_div_trunc_magnitude(p1 as int, SCALE as int);
        assert(SCALE as int * 10_000_000 == 10_000_000_000_000);
        vstd::arithmetic::div_mod::lemma_div_is_ordered(
            abs_i(p1 as int),
            SCALE as int * 10_000_000,
            SCALE as int,
        );
        vstd::arithmetic::div_mod::lemma_div_multiples_vanish(10_000_000, SCALE as int);
        assert(-10_000_000 <= t1 <= 10_000_000);
        assert(-1_000_000_000_000 <= t1 * dim <= 1_000_000_000_000) by (nonlinear_arith)
            requires -10_000_000 <= t1 <= 10_000_000 && 0 <= dim <= 100_000;
    }
    let t2: i64 = t1 * dim;
    proof {
        assert(-17_453_000_000_000_000 <= t2 * DEG_TO_RAD_FX <= 17_453_000_000_000_000)
            by (nonlinear_arith)
            requires -1_000_000_000_000 <= t2 <= 1_000_000_000_000 && DEG_TO_RAD_FX == 17_453;
    }
    let p2: i64 = t2 * DEG_TO_RAD_FX;
    let r = div_i64(p2, SCALE);
    proof {
        crate::math::lemma_div_trunc_magnitude(p2 as int, SCALE as int);
        assert(SCALE as int * 17_453_000_000 == 17_453_000_000_000_000);
        vstd::arithmetic::div_mod::lemma_div_is_ordered(
            abs_i(p2 as int),
            SCALE as int * 17_453_000_000,
            SCALE as int,
        );
        vstd::arithmetic::div_mod::lemma_div_multiples_vanish(17_453_000_000, SCALE as int);
    }
    r
}

/// The view after one mouse event: while the cursor is captured the
/// motion turns the view, and in every case the pitch is clamped to
/// [`LOOK_PITCH_CLAMP`].
pub open spec fn look_step(
    sens: int,
    w: int,
    h: int,
    locked: bool,
    ev: (i64, i64),
    pitch: int,
    yaw: int,
) -> (int, int) {
    let p = if locked {
        pitch - spec_look_delta(sens, ev.1 as int, h)
    } else {
        pitch
    };
    let y = if locked {
        yaw - spec_look_delta(sens, ev.0 as int, w)
    } else {
        yaw
    };
    (spec_clamp(p, -LOOK_PITCH_CLAMP as int, LOOK_PITCH_CLAMP as int), y)
}

/// The view after a tick's mouse events, in order.
pub open spec fn look_after(
    sens: int,
    w: int,
    h: int,
    locked: bool,
    events: Seq<(i64, i64)>,
    pitch: int,
    yaw: int,
) -> (int, int)
    decreases events.len(),
{
    if events.len() == 0 {
        (pitch, yaw)
    } else {
        let prev = look_after(sens, w, h, locked, events.drop_last(), pitch, yaw);
        look_step(sens, w, h, locked, events.last(), prev.0, prev.1)
    }
}

/// The view after one tick of mouse look.
#[derive(Clone, Copy, PartialEq, Eq, Structural, Debug)]
pub struct LookUpdate {
    /// Pitch, micro-radians, clamped short of straight up or down.
    pub pitch: i64,
    /// Yaw, micro-radians.
    pub yaw: i64,
}

/// One tick of mouse look: every mouse event turns the view by its motion
/// times the sensitivity scaled by the window size, while the cursor is
/// captured; the pitch can never pass [`LOOK_PITCH_CLAMP`], so the view
/// cannot roll over the top.  While look is disabled the view does not
/// change.
pub fn player_look(
    settings: &MovementSettings,
    window_w: i64,
    window_h: i64,
    cursor_locked: bool,
    mouse_events: &Vec<(i64, i64)>,
    pitch: i64,
    yaw: i64,
) -> (r: LookUpdate)
    requires
        0 <= settings.sensitivity <= LOOK_SENS_LIMIT,
        0 <= window_w <= LOOK_DIM_LIMIT,
        0 <= window_h <= LOOK_DIM_LIMIT,
        mouse_events@.len() <= MAX_EVENTS,
        mouse_events_wf(mouse_events@),
        -LOOK_PITCH_CLAMP <= pitch <= LOOK_PITCH_CLAMP,
        -LOOK_YAW_LIMIT <= yaw <= LOOK_YAW_LIMIT,
    ensures
        settings.disable_look ==> r == (LookUpdate { pitch, yaw }),
        !settings.disable_look ==> {
            let v = look_after(
                settings.sensitivity as int,
                window_w as int,
                window_h as int,
                cursor_locked,
                mouse_events@,
                pitch as int,
                yaw as int,
            );
            r.pitch == v.0 && r.yaw == v.1
        },
        mouse_events@.len() > 0 && !settings.disable_look ==> -LOOK_PITCH_CLAMP <= r.pitch
            <= LOOK_PITCH_CLAMP,
{
    if settings.disable_look {
        return LookUpdate { pitch, yaw };
    }
    let mut p: i64 = pitch;
    let mut y: i64 = yaw;
    let mut i: usize = 0;
    while i < mouse_events.len()
        invariant
            0 <= i <= mouse_events@.len(),
            mouse_events@.len() <= MAX_EVENTS,
            mouse_events_wf(mouse_events@),
            0 <= settings.sensitivity <= LOOK_SENS_LIMIT,
            0 <= window_w <= LOOK_DIM_LIMIT,
            0 <= window_h <= LOOK_DIM_LIMIT,
            (p as int, y as int) == look_after(
                settings.sensitivity as int,
                window_w as int,
                window_h as int,
                cursor_locked,
                mouse_events@.take(i as int),
                pitch as int,
                yaw as int,
            ),
            -LOOK_PITCH_CLAMP - LOOK_DELTA_BOUND <= p <= LOOK_PITCH_CLAMP + LOOK_DELTA_BOUND,
            i > 0 ==> -LOOK_PITCH_CLAMP <= p <= LOOK_PITCH_CLAMP,
            i == 0 ==> p == pitch,
            -LOOK_YAW_LIMIT - (i as int) * LOOK_DELTA_BOUND <= y <= LOOK_YAW_LIMIT + (
            i as int) * LOOK_DELTA_BOUND,
        decreases mouse_events@.len() - i,
    {
        let ev = mouse_events[i];
        proof {
            assert(mouse_events@.take(i + 1).drop_last() =~= mouse_events@.take(i as int));
            assert(mouse_events@.take(i + 1).last() == mouse_events@[i as int]);
        }
        if cursor_locked {
            let dp = look_delta(settings.sensitivity, ev.1, window_h);
            let dy = look_delta(settings.sensitivity, ev.0, window_w);
            p = p - dp;
            y = y - dy;
        }
        p = clamp_fx(p, -LOOK_PITCH_CLAMP, LOOK_PITCH_CLAMP);
        i = i + 1;
    }
    proof {
        assert(mouse_events@.take(mouse_events@.len() as int) =~= mouse_events@);
    }
    LookUpdate { pitch: p, yaw: y }
}

/// Which scalar setting the mouse wheel currently adjusts.
#[derive(Clone, Copy, PartialEq, Eq, Structural, Debug)]
pub enum ScrollType {
    MovementSpeed,
    Sensitivity,
    Zoom,
    Lerp,
    CamFwd,
}

impl Default for ScrollType {
    fn default() -> (r: ScrollType)
        ensures
            r == ScrollType::MovementSpeed,
    {
        ScrollType::MovementSpeed
    }
}

/// The wheel target after one cycle step, in declaration order, wrapping
/// after the last.
pub open spec fn spec_next_scroll_type(s: ScrollType) -> ScrollType {
    match s {
        ScrollType::MovementSpeed => ScrollType::Sensitivity,
        ScrollType::Sensitivity => ScrollType::Zoom,
        ScrollType::Zoom => ScrollType::Lerp,
        ScrollType::Lerp => ScrollType::CamFwd,
        ScrollType::CamFwd => ScrollType::MovementSpeed,
    }
}

/// Cycles which setting the wheel adjusts.
pub fn next_scroll_type(s: ScrollType) -> (r: ScrollType)
    ensures
        r == spec_next_scroll_type(s),
{
    match s {
        ScrollType::MovementSpeed => ScrollType::Sensitivity,
        ScrollType::Sensitivity => ScrollType::Zoom,
        ScrollType::Zoom => ScrollType::Lerp,
        ScrollType::Lerp => ScrollType::CamFwd,
        ScrollType::CamFwd => ScrollType::MovementSpeed,
    }
}

/// One tick of wheel adjustment: the selected scalar moves by the wheel
/// motion and is held inside its valid range; the camera-forward target
/// toggles on any motion instead.  `cam_fwd` is the player's
/// forward-follows-camera flag.
pub fn scroll_adjust(settings: &mut MovementSettings, cam_fwd: &mut bool, target: ScrollType,
    y: i64)
    requires
        old(settings).wf(),
        -MOUSE_LIMIT <= y <= MOUSE_LIMIT,
    ensures
        final(settings).map == old(settings).map,
        final(settings).disable_move == old(settings).disable_move,
        final(settings).disable_look == old(settings).disable_look,
        final(settings).locked_to_player == old(settings).locked_to_player,
        final(settings).ltp == old(settings).ltp,
        final(settings).wf(),
        target == ScrollType::MovementSpeed ==> final(settings).speed == spec_clamp(
            old(settings).speed + y,
            0,
            COORD_LIMIT as int,
        ) && final(settings).sensitivity == old(settings).sensitivity && final(settings).dist
            == old(settings).dist && final(settings).lerp == old(settings).lerp && *final(cam_fwd)
            == *old(cam_fwd),
        target == ScrollType::Sensitivity ==> final(settings).sensitivity == spec_clamp(
            old(settings).sensitivity + y,
            0,
            SCALE as int,
        ) && final(settings).speed == old(settings).speed && final(settings).dist == old(
            settings,
        ).dist && final(settings).lerp == old(settings).lerp && *final(cam_fwd) == *old(cam_fwd),
        target == ScrollType::Zoom ==> final(settings).dist == spec_clamp(
            old(settings).dist + y,
            0,
            COORD_LIMIT as int,
        ) && final(settings).speed == old(settings).speed && final(settings).sensitivity == old(
            settings,
        ).sensitivity && final(settings).lerp == old(settings).lerp && *final(cam_fwd) == *old(
            cam_fwd,
        ),
        target == ScrollType::Lerp ==> final(settings).lerp == spec_clamp(
            old(settings).lerp + y,
            0,
            SCALE as int,
        ) && final(settings).speed == old(settings).speed && final(settings).sensitivity == old(
            settings,
        ).sensitivity && final(settings).dist == old(settings).dist && *final(cam_fwd) == *old(
            cam_fwd,
        ),
        target == ScrollType::CamFwd ==> *final(cam_fwd) == (if y != 0 {
            !*old(cam_fwd)
        } else {
            *old(cam_fwd)
        }) && final(settings).speed == old(settings).speed && final(settings).sensitivity == old(
            settings,
        ).sensitivity && final(settings).dist == old(settings).dist && final(settings).lerp == old(
            settings,
        ).lerp,
{
    match target {
        ScrollType::MovementSpeed => {
            settings.speed = clamp_fx(settings.speed + y, 0, COORD_LIMIT);
        },
        ScrollType::Sensitivity => {
            settings.sensitivity = clamp_fx(settings.sensitivity + y, 0, SCALE);
        },
        ScrollType::Zoom => {
            settings.dist = clamp_fx(settings.dist + y, 0, COORD_LIMIT);
        },
        ScrollType::Lerp => {
            settings.lerp = clamp_fx(settings.lerp + y, 0, SCALE);
        },
        ScrollType::CamFwd => {
            if y != 0 {
                *cam_fwd = !*cam_fwd;
            }
        },
    }
}

} // verus!
