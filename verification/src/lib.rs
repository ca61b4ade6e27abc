//! Camera-control core: a driver registry, composable rig drivers, camera
//! modes, focus resolution and input mapping for a tick-based 3D scene.
//!
//! Everything here is pure, deterministic fixed-point logic (see [`math`]):
//! the host engine reads input and owns the entities, hands plain values in
//! once per tick, and applies the transforms and attach/detach actions that
//! come back.

use vstd::prelude::*;

pub mod angle;
pub mod cam;
pub mod cycle;
pub mod default_cam_modes;
pub mod drive;
pub mod driver;
pub mod drivers;
pub mod focus;
pub mod math;
pub mod player;
pub mod rig;
pub mod switcher;

verus! {

use crate::math::Vec3Fx;

/// Identity of the main perspective camera entity kind.
pub const MAIN_CAMERA_ID: u64 = 101;

/// Identity of the orthographic camera entity kind.
pub const ORTHOGRAPHIC_CAMERA_ID: u64 = 102;

/// Identity of the two-dimensional camera entity kind.
pub const TWO_DIMENSIONAL_CAMERA_ID: u64 = 103;

/// Tags an entity as a camera-focus candidate.  Several may coexist; the
/// core only reads them, game logic attaches and detaches them.
#[derive(Clone, Copy, PartialEq, Eq, Structural, Debug)]
pub struct Target;

/// Plugin-level configuration: whether the stock cameras are spawned, and
/// which optional features the host asked for.
#[derive(Clone, Debug)]
pub struct CCConfig {
    pub init_cameras: bool,
    pub features: Vec<String>,
}

impl Default for CCConfig {
    /// Spawn the stock cameras; no extra features.
    fn default() -> (r: CCConfig)
        ensures
            r.init_cameras,
            r.features@.len() == 0,
    {
        CCConfig { init_cameras: true, features: Vec::new() }
    }
}

/// One camera the bootstrap asks the host to spawn: its kind and whether
/// it starts as the rendering camera.
#[derive(Clone, Copy, PartialEq, Eq, Structural, Debug)]
pub struct CameraInit {
    pub kind: u64,
    pub active: bool,
}

/// The cameras spawned at startup when the configuration asks for them:
/// the main perspective camera active, the orthographic and
/// two-dimensional cameras present but inactive, so exactly one camera
/// renders from the first frame.
pub fn initial_cameras(config: &CCConfig) -> (r: Vec<CameraInit>)
    ensures
        !config.init_cameras ==> r@.len() == 0,
        config.init_cameras ==> r@ == seq![
            CameraInit { kind: MAIN_CAMERA_ID, active: true },
            CameraInit { kind: ORTHOGRAPHIC_CAMERA_ID, active: false },
            CameraInit { kind: TWO_DIMENSIONAL_CAMERA_ID, active: false },
        ],
        forall|i: int| 0 <= i < r@.len() ==> ((#[trigger] r@[i]).active <==> i == 0),
{
    let mut v: Vec<CameraInit> = Vec::new();
    if !config.init_cameras {
        return v;
    }
    v.push(CameraInit { kind: MAIN_CAMERA_ID, active: true });
    v.push(CameraInit { kind: ORTHOGRAPHIC_CAMERA_ID, active: false });
    v.push(CameraInit { kind: TWO_DIMENSIONAL_CAMERA_ID, active: false });
    proof {
        assert(v@ =~= seq![
            CameraInit { kind: MAIN_CAMERA_ID, active: true },
            CameraInit { kind: ORTHOGRAPHIC_CAMERA_ID, active: false },
            CameraInit { kind: TWO_DIMENSIONAL_CAMERA_ID, active: false },
        ]);
    }
    v
}

/// One whole camera tick: the current mode recomputes the movement flags,
/// transform delta and requested focus from scratch, then the smoothed
/// focus point chases the requested one (standing still inside the
/// dead zone).  With no mode allowed the tick is refused and nothing
/// changes.  This is the order a frame must keep: mode update before
/// focus smoothing, so a mode switch and its visual effect land in the
/// same tick.
pub fn update_camera(
    cameras: &crate::default_cam_modes::Cameras,
    config: &mut Config,
    settings: &mut crate::cam::MovementSettings,
    target_tf: Option<crate::math::TransformFx>,
    ext_tf: Option<crate::math::TransformFx>,
    dt: i64,
) -> (r: Result<crate::math::TransformFx, Error>)
    requires
        cameras.wf(),
        old(config).wf(),
        old(settings).wf(),
        target_tf is Some ==> old(config).target is Some,
        ext_tf is Some ==> old(config).external_target is Some,
        target_tf is Some ==> target_tf.unwrap().wf(),
        ext_tf is Some ==> ext_tf.unwrap().wf(),
        0 <= dt <= crate::focus::MAX_TICK,
    ensures
        cameras.camera_modes.len() == 0 ==> r == Err::<crate::math::TransformFx, Error>(
            Error::InvalidState,
        ) && *final(config) == *old(config) && *final(settings) == *old(settings),
        cameras.camera_modes.len() > 0 ==> ({
            let mode = cameras.camera_modes@[cameras.spec_index() as int];
            let should = crate::default_cam_modes::spec_mode_focus(
                mode,
                old(config).camera_should_focus,
                old(config).target is Some,
                old(config).external_target is Some,
                target_tf,
                ext_tf,
                old(settings).lerp as int,
            );
            &&& r == Ok::<crate::math::TransformFx, Error>(
                crate::default_cam_modes::spec_mode_delta(
                    mode,
                    target_tf,
                    old(settings).dist as int,
                ),
            )
            &&& final(settings).disable_move == crate::default_cam_modes::spec_mode_disable_move(
                mode,
            )
            &&& !final(settings).disable_look
            &&& final(settings).locked_to_player == crate::default_cam_modes::spec_mode_locked(
                mode,
            )
            &&& final(config).camera_should_focus == should
            &&& final(config).target == old(config).target
            &&& final(config).external_target == old(config).external_target
            &&& ({
                let d = should.spec_sub_v(old(config).camera_is_focus);
                let dist_sq = d.x * d.x + d.y * d.y + d.z * d.z;
                if dist_sq <= crate::focus::FOCUS_DEADZONE_SQ {
                    final(config).camera_is_focus == old(config).camera_is_focus
                } else {
                    final(config).camera_is_focus == old(config).camera_is_focus.spec_lerp_v(
                        should,
                        crate::focus::spec_smooth_factor(dt as int),
                    )
                }
            })
        }),
        final(config).wf(),
        final(settings).wf(),
{
    let delta = crate::default_cam_modes::update_current(
        cameras,
        config,
        settings,
        target_tf,
        ext_tf,
    );
    match delta {
        Ok(d) => {
            crate::focus::smooth_focus(config, dt);
            Ok(d)
        },
        Err(e) => Err(e),
    }
}

/// How a request can fail.  No operation panics: every failure is reported
/// to the caller and leaves the state unchanged.
#[derive(Clone, Copy, PartialEq, Eq, Structural, Debug)]
pub enum Error {
    /// An operation needed a non-empty collection (advancing an empty
    /// driver registry or mode list).
    InvalidState,
    /// A camera mode outside the allowed subset was selected.
    DisallowedMode,
    /// A configured target entity no longer exists.
    MissingEntity,
}

/// The shared camera configuration: which entities are followed and where
/// the camera's focus point is, both as requested and as smoothed.
///
/// Entities are identified by the plain ids the host engine assigns; the
/// core never creates or destroys them, it only reads the transforms the
/// host resolves for them each tick.
#[derive(Clone, Copy, PartialEq, Eq, Structural, Debug)]
pub struct Config {
    /// The primary followed entity, if one is set.
    pub target: Option<u64>,
    /// A secondary focus entity blended with the primary one, if set.
    pub external_target: Option<u64>,
    /// Where the camera should look, recomputed every tick.
    pub camera_should_focus: Vec3Fx,
    /// Where the camera actually looks, smoothed toward the point above.
    pub camera_is_focus: Vec3Fx,
}

impl Config {
    /// Both focus points are valid world positions.
    pub open spec fn wf(self) -> bool {
        self.camera_should_focus.wf() && self.camera_is_focus.wf()
    }

    /// Runtime check of [`Config::wf`], for callers outside verified code.
    pub fn is_wf(&self) -> (r: bool)
        ensures
            r == self.wf(),
    {
        let a = self.camera_should_focus;
        let b = self.camera_is_focus;
        -crate::math::COORD_LIMIT <= a.x && a.x <= crate::math::COORD_LIMIT
            && -crate::math::COORD_LIMIT <= a.y && a.y <= crate::math::COORD_LIMIT
            && -crate::math::COORD_LIMIT <= a.z && a.z <= crate::math::COORD_LIMIT
            && -crate::math::COORD_LIMIT <= b.x && b.x <= crate::math::COORD_LIMIT
            && -crate::math::COORD_LIMIT <= b.y && b.y <= crate::math::COORD_LIMIT
            && -crate::math::COORD_LIMIT <= b.z && b.z <= crate::math::COORD_LIMIT
    }

    /// No targets, focus at the world origin.
    pub fn new() -> (r: Config)
        ensures
            r.target.is_none(),
            r.external_target.is_none(),
            r.camera_should_focus == Vec3Fx::spec_zero(),
            r.camera_is_focus == Vec3Fx::spec_zero(),
            r.wf(),
    {
        Config {
            target: None,
            external_target: None,
            camera_should_focus: Vec3Fx::zero(),
            camera_is_focus: Vec3Fx::zero(),
        }
    }
}

impl Default for Config {
    fn default() -> (r: Config)
        ensures
            r.target.is_none(),
            r.external_target.is_none(),
            r.camera_should_focus == Vec3Fx::spec_zero(),
            r.camera_is_focus == Vec3Fx::spec_zero(),
    {
        Config::new()
    }
}

} // verus!
