//! The player-side input layer: the controlled entity's settings, key
//! bindings, and the pure computation behind the per-tick movement system,
//! including the wrap-around yaw rotation.

use vstd::prelude::*;

verus! {

use crate::cam::{
    KEY_UP, KEY_DOWN, KEY_COMMA, KEY_PERIOD, KEY_RSHIFT, KEY_MINUS, KEY_LEFT, KEY_RIGHT,
    one_key,
};
use crate::math::{Vec3Fx, SCALE, COORD_LIMIT};

/// A full turn of yaw, four quarter turns in micro-radians.
pub const ROT_FULL_TURN: i64 = 6_283_184;

/// How much one rotate-key press turns, 0.1 radians.
pub const ROT_STEP: i64 = 100_000;

/// How close to the turn boundary the angle wraps, 0.05 radians.
pub const ROT_WRAP_EPS: i64 = 50_000;

/// Most pressed keys one tick is asked to digest.
pub const MAX_KEYS: usize = 1000;

/// The controlled player entity, if one was spawned.
#[derive(Clone, Copy, PartialEq, Eq, Structural, Debug, Default)]
pub struct Player {
    pub entity: Option<u64>,
}

/// The player's key bindings.
#[derive(Clone, Debug)]
pub struct PlayerKeyMap {
    pub forward: Vec<u32>,
    pub backward: Vec<u32>,
    pub left: Vec<u32>,
    pub right: Vec<u32>,
    pub up: Vec<u32>,
    pub down: Vec<u32>,
    pub rot_left: Vec<u32>,
    pub rot_right: Vec<u32>,
}

impl Default for PlayerKeyMap {
    /// The stock bindings: arrows to move and turn, comma and period to
    /// strafe, right shift and minus for up and down.
    fn default() -> (r: PlayerKeyMap)
        ensures
            r.forward@ == seq![KEY_UP],
            r.backward@ == seq![KEY_DOWN],
            r.left@ == seq![KEY_COMMA],
            r.right@ == seq![KEY_PERIOD],
            r.up@ == seq![KEY_RSHIFT],
            r.down@ == seq![KEY_MINUS],
            r.rot_left@ == seq![KEY_LEFT],
            r.rot_right@ == seq![KEY_RIGHT],
    {
        PlayerKeyMap {
            forward: one_key(KEY_UP),
            backward: one_key(KEY_DOWN),
            left: one_key(KEY_COMMA),
            right: one_key(KEY_PERIOD),
            up: one_key(KEY_RSHIFT),
            down: one_key(KEY_MINUS),
            rot_left: one_key(KEY_LEFT),
            rot_right: one_key(KEY_RIGHT),
        }
    }
}

/// The player's movement settings.
#[derive(Clone, Debug)]
pub struct PlayerSettings {
    /// Movement speed, units per second.
    pub speed: i64,
    /// The key bindings.
    pub map: PlayerKeyMap,
    /// Where the player is spawned.
    pub pos: Vec3Fx,
    /// Whether forward follows the camera's facing instead of its reverse.
    pub cam_fwd: bool,
    /// Set while player movement is forbidden.
    pub disable_move: bool,
}

impl PlayerSettings {
    pub open spec fn wf(self) -> bool {
        &&& 0 <= self.speed <= COORD_LIMIT
        &&& self.pos.wf()
    }

    /// Runtime check of [`PlayerSettings::wf`], for callers outside
    /// verified code.
    pub fn is_wf(&self) -> (r: bool)
        ensures
            r == self.wf(),
    {
        0 <= self.speed && self.speed <= COORD_LIMIT && -COORD_LIMIT <= self.pos.x && self.pos.x
            <= COORD_LIMIT && -COORD_LIMIT <= self.pos.y && self.pos.y <= COORD_LIMIT
            && -COORD_LIMIT <= self.pos.z && self.pos.z <= COORD_LIMIT
    }
}

impl Default for PlayerSettings {
    /// The stock settings: speed 4, spawned at the origin, forward away
    /// from the camera, movement allowed.
    fn default() -> (r: PlayerSettings)
        ensures
            r.speed == 4 * SCALE,
            r.pos == Vec3Fx::spec_zero(),
            !r.cam_fwd,
            !r.disable_move,
            r.wf(),
    {
        PlayerSettings {
            speed: 4_000_000,
            map: PlayerKeyMap::default(),
            pos: Vec3Fx { x: 0, y: 0, z: 0 },
            cam_fwd: false,
            disable_move: false,
        }
    }
}

/// The yaw angle stays within one step of a full turn.
pub open spec fn rot_in_range(r: int) -> bool {
    -ROT_STEP <= r <= ROT_FULL_TURN + ROT_STEP
}

/// One left-rotation step: wrap to 0 just past the full turn, then turn by
/// [`ROT_STEP`].
pub open spec fn spec_rot_left(rot: int) -> int {
    (if rot > ROT_FULL_TURN - ROT_WRAP_EPS {
        0
    } else {
        rot
    }) + ROT_STEP
}

/// One right-rotation step: wrap to the full turn just before 0, then turn
/// back by [`ROT_STEP`].
pub open spec fn spec_rot_right(rot: int) -> int {
    (if rot < ROT_WRAP_EPS {
        ROT_FULL_TURN as int
    } else {
        rot
    }) - ROT_STEP
}

/// The forward direction: the camera's horizontal facing, or its reverse.
pub open spec fn spec_forward(cam_fwd: bool, local_z: Vec3Fx) -> Vec3Fx {
    if cam_fwd {
        Vec3Fx { x: local_z.x, y: 0, z: local_z.z }
    } else {
        Vec3Fx { x: (-local_z.x) as i64, y: 0, z: (-local_z.z) as i64 }
    }
}

/// The rightward direction, perpendicular to the horizontal facing.
pub open spec fn spec_right(local_z: Vec3Fx) -> Vec3Fx {
    Vec3Fx { x: local_z.z, y: 0, z: (-local_z.x) as i64 }
}

/// What one pressed key adds to the velocity sum: a forward, rightward or
/// vertical unit for each of its bound directions.
pub open spec fn key_delta(
    map: PlayerKeyMap,
    key: u32,
    fwd: Vec3Fx,
    right: Vec3Fx,
) -> (int, int, int) {
    let fx = (if map.forward@.contains(key) {
        fwd.x as int
    } else {
        0
    }) - (if map.backward@.contains(key) {
        fwd.x as int
    } else {
        0
    }) - (if map.left@.contains(key) {
        right.x as int
    } else {
        0
    }) + (if map.right@.contains(key) {
        right.x as int
    } else {
        0
    });
    let fy = (if map.up@.contains(key) {
        SCALE as int
    } else {
        0
    }) - (if map.down@.contains(key) {
        SCALE as int
    } else {
        0
    });
    let fz = (if map.forward@.contains(key) {
        fwd.z as int
    } else {
        0
    }) - (if map.backward@.contains(key) {
        fwd.z as int
    } else {
        0
    }) - (if map.left@.contains(key) {
        right.z as int
    } else {
        0
    }) + (if map.right@.contains(key) {
        right.z as int
    } else {
        0
    });
    (fx, fy, fz)
}

/// The velocity sum over a tick's pressed keys.
pub open spec fn vel_after(
    map: PlayerKeyMap,
    pressed: Seq<u32>,
    fwd: Vec3Fx,
    right: Vec3Fx,
) -> (int, int, int)
    decreases pressed.len(),
{
    if pressed.len() == 0 {
        (0, 0, 0)
    } else {
        let prev = vel_after(map, pressed.drop_last(), fwd, right);
        let d = key_delta(map, pressed.last(), fwd, right);
        (prev.0 + d.0, prev.1 + d.1, prev.2 + d.2)
    }
}

/// What one pressed key does to the yaw: a left step if it is bound to
/// rotate-left, then a right step if bound to rotate-right.
pub open spec fn rot_key_step(map: PlayerKeyMap, key: u32, rot: int) -> int {
    let after_left = if map.rot_left@.contains(key) {
        spec_rot_left(rot)
    } else {
        rot
    };
    if map.rot_right@.contains(key) {
        spec_rot_right(after_left)
    } else {
        after_left
    }
}

/// The yaw after a tick's pressed keys.
pub open spec fn rot_after(map: PlayerKeyMap, pressed: Seq<u32>, rot: int) -> int
    decreases pressed.len(),
{
    if pressed.len() == 0 {
        rot
    } else {
        rot_key_step(map, pressed.last(), rot_after(map, pressed.drop_last(), rot))
    }
}

/// Both rotation steps keep the yaw within one step of a full turn.
pub proof fn lemma_rot_steps_in_range(rot: int)
    requires
        rot_in_range(rot),
    ensures
        rot_in_range(spec_rot_left(rot)),
        rot_in_range(spec_rot_right(rot)),
{
}

/// A whole tick keeps the yaw in range.
pub proof fn lemma_rot_after_in_range(map: PlayerKeyMap, pressed: Seq<u32>, rot: int)
    requires
        rot_in_range(rot),
    ensures
        rot_in_range(rot_after(map, pressed, rot)),
    decreases pressed.len(),
{
    if pressed.len() > 0 {
        lemma_rot_after_in_range(map, pressed.drop_last(), rot);
        lemma_rot_steps_in_range(rot_after(map, pressed.drop_last(), rot));
    }
}

/// Turning left keeps the yaw on the step grid, never negative, and wraps
/// exactly at the one grid point past the full turn: from there — and only
/// from there or from rest — the next angle is a single step, so each full
/// cycle resets once, drifts nowhere and never goes below zero.
pub proof fn lemma_rot_left_wrap(rot: int)
    requires
        0 <= rot <= ROT_FULL_TURN + ROT_STEP,
        rot % (ROT_STEP as int) == 0,
    ensures
        spec_rot_left(rot) % (ROT_STEP as int) == 0,
        0 < spec_rot_left(rot) <= ROT_FULL_TURN + ROT_STEP,
        rot <= ROT_FULL_TURN - ROT_WRAP_EPS ==> spec_rot_left(rot) == rot + ROT_STEP,
        rot > ROT_FULL_TURN - ROT_WRAP_EPS ==> spec_rot_left(rot) == ROT_STEP,
{
    let step = ROT_STEP as int;
    vstd::arithmetic::div_mod::lemma_mod_self_0(step);
    vstd::arithmetic::div_mod::lemma_small_mod(0nat, step as nat);
    if rot > ROT_FULL_TURN - ROT_WRAP_EPS {
        assert(spec_rot_left(rot) == ROT_STEP);
        vstd::arithmetic::div_mod::lemma_add_mod_noop(0, step, step);
    } else {
        vstd::arithmetic::div_mod::lemma_add_mod_noop(rot, step, step);
        assert((rot + step) % step == 0);
    }
}

/// What one tick of the player-movement system decides: the summed (not
/// yet normalised) velocity of the pressed keys and the new yaw angle.
#[derive(Clone, Copy, PartialEq, Eq, Structural, Debug)]
pub struct PlayerMoveUpdate {
    pub velocity: Vec3Fx,
    pub rotation: i64,
}

/// One tick of player movement: sums a unit of the camera-relative
/// forward, rightward or vertical direction for every direction key held,
/// and steps the yaw for every rotation key held, wrapping at the full
/// turn.  While movement is disabled the tick decides nothing.
#[verifier::rlimit(60)]
pub fn move_player(
    settings: &PlayerSettings,
    pressed: &Vec<u32>,
    local_z: Vec3Fx,
    rotation: i64,
) -> (r: PlayerMoveUpdate)
    requires
        settings.wf(),
        local_z.wf(),
        pressed@.len() <= MAX_KEYS,
        rot_in_range(rotation as int),
    ensures
        settings.disable_move ==> r == (PlayerMoveUpdate {
            velocity: Vec3Fx::spec_zero(),
            rotation,
        }),
        !settings.disable_move ==> {
            let fwd = spec_forward(settings.cam_fwd, local_z);
            let right = spec_right(local_z);
            let v = vel_after(settings.map, pressed@, fwd, right);
            &&& r.velocity.x == v.0
            &&& r.velocity.y == v.1
            &&& r.velocity.z == v.2
            &&& r.rotation == rot_after(settings.map, pressed@, rotation as int)
        },
        rot_in_range(r.rotation as int),
{
    if settings.disable_move {
        return PlayerMoveUpdate { velocity: Vec3Fx::zero(), rotation };
    }
    let fwd = if settings.cam_fwd {
        Vec3Fx { x: local_z.x, y: 0, z: local_z.z }
    } else {
        Vec3Fx { x: -local_z.x, y: 0, z: -local_z.z }
    };
    let right = Vec3Fx { x: local_z.z, y: 0, z: -local_z.x };
    let ghost fwd_s = spec_forward(settings.cam_fwd, local_z);
    let ghost right_s = spec_right(local_z);
    let mut vx: i64 = 0;
    let mut vy: i64 = 0;
    let mut vz: i64 = 0;
    let mut rot: i64 = rotation;
    let mut i: usize = 0;
    while i < pressed.len()
        invariant
            0 <= i <= pressed@.len(),
            pressed@.len() <= MAX_KEYS,
            local_z.wf(),
            fwd == fwd_s,
            right == right_s,
            fwd_s == spec_forward(settings.cam_fwd, local_z),
            right_s == spec_right(local_z),
            (vx as int, vy as int, vz as int) == vel_after(
                settings.map,
                pressed@.take(i as int),
                fwd_s,
                right_s,
            ),
            -(i as int) * 4 * COORD_LIMIT <= vx <= (i as int) * 4 * COORD_LIMIT,
            -(i as int) * 4 * COORD_LIMIT <= vy <= (i as int) * 4 * COORD_LIMIT,
            -(i as int) * 4 * COORD_LIMIT <= vz <= (i as int) * 4 * COORD_LIMIT,
            rot == rot_after(settings.map, pressed@.take(i as int), rotation as int),
            rot_in_range(rot as int),
        decreases pressed@.len() - i,
    {
        let key = pressed[i];
        proof {
            assert(pressed@.take(i + 1).drop_last() =~= pressed@.take(i as int));
            assert(pressed@.take(i + 1).last() == pressed@[i as int]);
        }
        if crate::cam::validate_key(&settings.map.forward, key) {
            vx = vx + fwd.x;
            vz = vz + fwd.z;
        }
        if crate::cam::validate_key(&settings.map.backward, key) {
            vx = vx - fwd.x;
            vz = vz - fwd.z;
        }
        if crate::cam::validate_key(&settings.map.left, key) {
            vx = vx - right.x;
            vz = vz - right.z;
        }
        if crate::cam::validate_key(&settings.map.right, key) {
            vx = vx + right.x;
            vz = vz + right.z;
        }
        if crate::cam::validate_key(&settings.map.up, key) {
            vy = vy + SCALE;
        }
        if crate::cam::validate_key(&settings.map.down, key) {
            vy = vy - SCALE;
        }
        if crate::cam::validate_key(&settings.map.rot_left, key) {
            if rot > ROT_FULL_TURN - ROT_WRAP_EPS {
                rot = 0;
            }
            rot = rot + ROT_STEP;
        }
        if crate::cam::validate_key(&settings.map.rot_right, key) {
            if rot < ROT_WRAP_EPS {
                rot = ROT_FULL_TURN;
            }
            rot = rot - ROT_STEP;
        }
        i = i + 1;
    }
    proof {
        assert(pressed@.take(pressed@.len() as int) =~= pressed@);
    }
    PlayerMoveUpdate { velocity: Vec3Fx { x: vx, y: vy, z: vz }, rotation: rot }
}

} // verus!
