//! The built-in camera modes and the mode state machine.
//!
//! Each mode turns the tick's target data into a transform delta and a set
//! of movement flags.  The machine holds the caller-configured list of
//! allowed modes, cycles through it in declaration order, and recomputes
//! every flag from scratch each tick, so no mode's side effects outlive it.

use vstd::prelude::*;

verus! {

use crate::{Config, Error};
use crate::cam::MovementSettings;
use crate::focus::spec_resolve_focus;
use crate::math::{RotFx, TransformFx, Vec3Fx, SCALE};

/// A quarter turn in micro-radians: the downward pitch of the top-down
/// modes.
pub const FRAC_PI_2_FX: i64 = 1_570_796;

/// The height offset the first-person and follow modes place the camera
/// at, one unit above the target.
pub const UP_OFFSET_FX: i64 = 1_000_000;

/// How far behind the target the follow-behind mode hangs, in units.
pub const BEHIND_OFFSET_FX: i64 = 4_000_000;

/// The translation of a resolved target transform, if one resolved.
pub open spec fn tf_translation(o: Option<TransformFx>) -> Option<Vec3Fx> {
    match o {
        Some(t) => Some(t.translation),
        None => None,
    }
}

/// Use the mouse to look and move the camera freely.
#[derive(Clone, Copy, PartialEq, Eq, Structural, Debug)]
pub struct Free;

impl Free {
    /// Frees mouse look and moves nothing: the camera takes raw input
    /// directly.
    pub fn update(
        &self,
        config: &mut Config,
        settings: &mut MovementSettings,
        target_tf: Option<TransformFx>,
        ext_tf: Option<TransformFx>,
    ) -> (delta: TransformFx)
        ensures
            delta == TransformFx::spec_identity(),
            *final(config) == *old(config),
            *final(settings) == (MovementSettings { disable_look: false, ..*old(settings) }),
    {
        settings.disable_look = false;
        TransformFx::identity()
    }

    pub fn name(&self) -> (r: &'static str) {
        "Free"
    }
}

/// Look at the player, blended toward the other targets if set.
#[derive(Clone, Copy, PartialEq, Eq, Structural, Debug)]
pub struct LookAt;

impl LookAt {
    /// Moves the camera nothing, but points the focus resolver at the
    /// configured targets: both targets blend by the lerp factor, a single
    /// target is followed directly, no target resets the focus to the
    /// origin, and an unresolved target keeps the previous point.
    pub fn update(
        &self,
        config: &mut Config,
        settings: &mut MovementSettings,
        target_tf: Option<TransformFx>,
        ext_tf: Option<TransformFx>,
    ) -> (delta: TransformFx)
        requires
            old(config).wf(),
            settings.wf(),
            target_tf is Some ==> old(config).target is Some,
            ext_tf is Some ==> old(config).external_target is Some,
            target_tf is Some ==> target_tf.unwrap().wf(),
            ext_tf is Some ==> ext_tf.unwrap().wf(),
        ensures
            delta == TransformFx::spec_identity(),
            *final(settings) == *old(settings),
            final(config).camera_should_focus == spec_resolve_focus(
                old(config).camera_should_focus,
                old(config).target is Some,
                old(config).external_target is Some,
                tf_translation(target_tf),
                tf_translation(ext_tf),
                old(settings).lerp as int,
            ),
            final(config).camera_should_focus.wf(),
            final(config).target == old(config).target,
            final(config).external_target == old(config).external_target,
            final(config).camera_is_focus == old(config).camera_is_focus,
    {
        let t = match target_tf {
            Some(tf) => Some(tf.translation),
            None => None,
        };
        let e = match ext_tf {
            Some(tf) => Some(tf.translation),
            None => None,
        };
        crate::focus::resolve_focus(config, t, e, settings.lerp);
        TransformFx::identity()
    }

    pub fn name(&self) -> (r: &'static str) {
        "LookAt"
    }
}

/// Camera at the target's own position, looking with the target's eyes.
#[derive(Clone, Copy, PartialEq, Eq, Structural, Debug)]
pub struct Fps;

impl Fps {
    /// Places the camera one unit above the target's position with the
    /// target's own rotation, and forbids free movement while mouse look
    /// stays enabled.  An unresolved target leaves only the unit offset.
    pub fn update(
        &self,
        config: &mut Config,
        settings: &mut MovementSettings,
        target_tf: Option<TransformFx>,
        ext_tf: Option<TransformFx>,
    ) -> (delta: TransformFx)
        requires
            target_tf is Some ==> target_tf.unwrap().wf(),
        ensures
            *final(config) == *old(config),
            *final(settings) == (MovementSettings {
                disable_move: true,
                disable_look: false,
                ..*old(settings)
            }),
            target_tf is Some ==> delta.translation == target_tf.unwrap().translation.spec_add_v(
                Vec3Fx { x: 0, y: UP_OFFSET_FX, z: 0 },
            ) && delta.rotation == target_tf.unwrap().rotation,
            target_tf is None ==> delta == (TransformFx {
                translation: Vec3Fx { x: 0, y: UP_OFFSET_FX, z: 0 },
                rotation: RotFx::spec_identity(),
            }),
    {
        let mut delta_trans = TransformFx::identity();
        if let Some(tf) = target_tf {
            delta_trans.translation = tf.translation;
            delta_trans.rotation = tf.rotation;
        }
        settings.disable_move = true;
        settings.disable_look = false;
        delta_trans.translation = delta_trans.translation.add(
            Vec3Fx { x: 0, y: UP_OFFSET_FX, z: 0 },
        );
        delta_trans
    }

    pub fn name(&self) -> (r: &'static str) {
        "Fps"
    }
}

/// Camera moved above the target and pointed straight down.
#[derive(Clone, Copy, PartialEq, Eq, Structural, Debug)]
pub struct TopDown;

impl TopDown {
    /// Hangs the camera the follow distance above the target, pitched a
    /// quarter turn down, and forbids free movement.  An unresolved target
    /// moves nothing.
    pub fn update(
        &self,
        config: &mut Config,
        settings: &mut MovementSettings,
        target_tf: Option<TransformFx>,
        ext_tf: Option<TransformFx>,
    ) -> (delta: TransformFx)
        requires
            settings.wf(),
            target_tf is Some ==> target_tf.unwrap().wf(),
        ensures
            *final(config) == *old(config),
            *final(settings) == (MovementSettings {
                disable_move: true,
                disable_look: false,
                ..*old(settings)
            }),
            target_tf is Some ==> delta.translation == target_tf.unwrap().translation.spec_add_v(
                Vec3Fx { x: 0, y: old(settings).dist, z: 0 },
            ) && delta.rotation == (RotFx { yaw: 0, pitch: ((-FRAC_PI_2_FX) as i64) }),
            target_tf is None ==> delta == TransformFx::spec_identity(),
    {
        let mut delta_trans = TransformFx::identity();
        if let Some(tf) = target_tf {
            delta_trans.translation = tf.translation.add(Vec3Fx { x: 0, y: settings.dist, z: 0 });
            delta_trans.rotation = RotFx { yaw: 0, pitch: -FRAC_PI_2_FX };
        }
        settings.disable_move = true;
        settings.disable_look = false;
        delta_trans
    }

    pub fn name(&self) -> (r: &'static str) {
        "TopDown"
    }
}

/// Top-down view that follows the player's own facing.
#[derive(Clone, Copy, PartialEq, Eq, Structural, Debug)]
pub struct TopDownDirection;

impl TopDownDirection {
    /// Hangs the camera the follow distance up, pitched a quarter turn
    /// down, locked to the player's frame, with free movement forbidden.
    pub fn update(
        &self,
        config: &mut Config,
        settings: &mut MovementSettings,
        target_tf: Option<TransformFx>,
        ext_tf: Option<TransformFx>,
    ) -> (delta: TransformFx)
        requires
            settings.wf(),
        ensures
            *final(config) == *old(config),
            *final(settings) == (MovementSettings {
                disable_move: true,
                disable_look: false,
                locked_to_player: true,
                ..*old(settings)
            }),
            delta == (TransformFx {
                translation: Vec3Fx { x: 0, y: old(settings).dist, z: 0 },
                rotation: RotFx { yaw: 0, pitch: ((-FRAC_PI_2_FX) as i64) },
            }),
    {
        let delta_trans = TransformFx {
            translation: Vec3Fx { x: 0, y: settings.dist, z: 0 },
            rotation: RotFx { yaw: 0, pitch: -FRAC_PI_2_FX },
        };
        settings.disable_move = true;
        settings.disable_look = false;
        settings.locked_to_player = true;
        delta_trans
    }

    pub fn name(&self) -> (r: &'static str) {
        "TopDownDirection"
    }
}

/// Follows a fixed distance behind and above the player.
#[derive(Clone, Copy, PartialEq, Eq, Structural, Debug)]
pub struct FollowBehind;

impl FollowBehind {
    /// Hangs the camera one unit up and four units behind in the target's
    /// frame, locked to the player, with free movement forbidden.
    pub fn update(
        &self,
        config: &mut Config,
        settings: &mut MovementSettings,
        target_tf: Option<TransformFx>,
        ext_tf: Option<TransformFx>,
    ) -> (delta: TransformFx)
        ensures
            *final(config) == *old(config),
            *final(settings) == (MovementSettings {
                disable_move: true,
                locked_to_player: true,
                ..*old(settings)
            }),
            delta == (TransformFx {
                translation: Vec3Fx { x: 0, y: UP_OFFSET_FX, z: BEHIND_OFFSET_FX },
                rotation: RotFx::spec_identity(),
            }),
    {
        settings.disable_move = true;
        settings.locked_to_player = true;
        TransformFx {
            translation: Vec3Fx { x: 0, y: UP_OFFSET_FX, z: BEHIND_OFFSET_FX },
            rotation: RotFx::identity(),
        }
    }

    pub fn name(&self) -> (r: &'static str) {
        "FollowBehind"
    }
}

/// Follow the player's position only, from a standing camera.
#[derive(Clone, Copy, PartialEq, Eq, Structural, Debug)]
pub struct FollowStatic;

impl FollowStatic {
    /// Moves the camera nothing and points the focus at the target's
    /// position; an unresolved target keeps the previous focus point.
    pub fn update(
        &self,
        config: &mut Config,
        settings: &mut MovementSettings,
        target_tf: Option<TransformFx>,
        ext_tf: Option<TransformFx>,
    ) -> (delta: TransformFx)
        requires
            target_tf is Some ==> target_tf.unwrap().wf(),
        ensures
            delta == TransformFx::spec_identity(),
            *final(settings) == *old(settings),
            target_tf is Some ==> final(config).camera_should_focus == target_tf.unwrap().translation,
            target_tf is None ==> final(config).camera_should_focus
                == old(config).camera_should_focus,
            final(config).target == old(config).target,
            final(config).external_target == old(config).external_target,
            final(config).camera_is_focus == old(config).camera_is_focus,
    {
        if let Some(tf) = target_tf {
            config.camera_should_focus = tf.translation;
        }
        TransformFx::identity()
    }

    pub fn name(&self) -> (r: &'static str) {
        "FollowStatic"
    }
}

/// The name of a camera mode, for the machine's dispatch and the allowed
/// list.
#[derive(Clone, Copy, PartialEq, Eq, Structural, Debug)]
pub enum ModeId {
    Free,
    LookAt,
    Fps,
    TopDown,
    TopDownDirection,
    FollowBehind,
    FollowStatic,
}

/// Whether a mode forbids free camera movement.
pub open spec fn spec_mode_disable_move(mode: ModeId) -> bool {
    match mode {
        ModeId::Fps => true,
        ModeId::TopDown => true,
        ModeId::TopDownDirection => true,
        ModeId::FollowBehind => true,
        _ => false,
    }
}

/// Whether a mode locks the camera to the player's frame.
pub open spec fn spec_mode_locked(mode: ModeId) -> bool {
    match mode {
        ModeId::TopDownDirection => true,
        ModeId::FollowBehind => true,
        _ => false,
    }
}

/// The transform delta a mode produces from the tick's target data.
pub open spec fn spec_mode_delta(
    mode: ModeId,
    target_tf: Option<TransformFx>,
    dist: int,
) -> TransformFx {
    match mode {
        ModeId::Free => TransformFx::spec_identity(),
        ModeId::LookAt => TransformFx::spec_identity(),
        ModeId::FollowStatic => TransformFx::spec_identity(),
        ModeId::Fps => match target_tf {
            Some(tf) => TransformFx {
                translation: tf.translation.spec_add_v(Vec3Fx { x: 0, y: UP_OFFSET_FX, z: 0 }),
                rotation: tf.rotation,
            },
            None => TransformFx {
                translation: Vec3Fx { x: 0, y: UP_OFFSET_FX, z: 0 },
                rotation: RotFx::spec_identity(),
            },
        },
        ModeId::TopDown => match target_tf {
            Some(tf) => TransformFx {
                translation: tf.translation.spec_add_v(Vec3Fx { x: 0, y: dist as i64, z: 0 }),
                rotation: RotFx { yaw: 0, pitch: ((-FRAC_PI_2_FX) as i64) },
            },
            None => TransformFx::spec_identity(),
        },
        ModeId::TopDownDirection => TransformFx {
            translation: Vec3Fx { x: 0, y: dist as i64, z: 0 },
            rotation: RotFx { yaw: 0, pitch: ((-FRAC_PI_2_FX) as i64) },
        },
        ModeId::FollowBehind => TransformFx {
            translation: Vec3Fx { x: 0, y: UP_OFFSET_FX, z: BEHIND_OFFSET_FX },
            rotation: RotFx::spec_identity(),
        },
    }
}

/// The focus point a mode leaves in the configuration.
pub open spec fn spec_mode_focus(
    mode: ModeId,
    prev: Vec3Fx,
    target_set: bool,
    ext_set: bool,
    target_tf: Option<TransformFx>,
    ext_tf: Option<TransformFx>,
    lerp: int,
) -> Vec3Fx {
    match mode {
        ModeId::LookAt => spec_resolve_focus(
            prev,
            target_set,
            ext_set,
            tf_translation(target_tf),
            tf_translation(ext_tf),
            lerp,
        ),
        ModeId::FollowStatic => match target_tf {
            Some(tf) => tf.translation,
            None => prev,
        },
        _ => prev,
    }
}

/// The mode state machine: the caller-configured list of allowed modes and
/// the index of the current one.
pub struct Cameras {
    /// The allowed modes, in cycling order.
    pub camera_modes: Vec<ModeId>,
    pub index: usize,
}

impl Cameras {
    /// The index points into the list (an empty list pins it at 0).
    pub open spec fn wf(self) -> bool {
        if self.camera_modes.len() == 0 {
            self.index == 0
        } else {
            self.index < self.camera_modes.len()
        }
    }

    /// Runtime check of [`Cameras::wf`], for callers outside verified
    /// code.
    pub fn is_wf(&self) -> (r: bool)
        ensures
            r == self.wf(),
    {
        if self.camera_modes.len() == 0 {
            self.index == 0
        } else {
            self.index < self.camera_modes.len()
        }
    }

    pub open spec fn spec_index(self) -> usize {
        self.index
    }

    /// A machine allowing the given modes; the first is current.
    pub fn new(camera_modes: Vec<ModeId>) -> (r: Cameras)
        ensures
            r.camera_modes == camera_modes,
            r.spec_index() == 0,
            r.wf(),
    {
        Cameras { camera_modes, index: 0 }
    }

    /// The index of the current mode.
    pub fn index(&self) -> (r: usize)
        ensures
            r == self.spec_index(),
    {
        self.index
    }

    /// The current mode, or `None` while no mode is allowed.
    pub fn current(&self) -> (r: Option<ModeId>)
        requires
            self.wf(),
        ensures
            self.camera_modes.len() == 0 ==> r is None,
            self.camera_modes.len() > 0 ==> r == Some(
                self.camera_modes@[self.spec_index() as int],
            ),
    {
        if self.camera_modes.len() == 0 {
            None
        } else {
            Some(self.camera_modes[self.index])
        }
    }

    /// Cycles to the next allowed mode in declaration order, wrapping to
    /// the first after the last.  Cycling an empty list is refused and
    /// changes nothing.
    pub fn advance(&mut self) -> (r: Result<(), Error>)
        requires
            old(self).wf(),
        ensures
            final(self).camera_modes == old(self).camera_modes,
            final(self).wf(),
            old(self).camera_modes.len() == 0 ==> r == Err::<(), Error>(Error::InvalidState)
                && final(self).spec_index() == old(self).spec_index(),
            old(self).camera_modes.len() > 0 ==> r == Ok::<(), Error>(())
                && final(self).spec_index() == crate::cycle::next_index(
                old(self).spec_index() as nat,
                old(self).camera_modes.len() as nat,
            ),
    {
        if self.camera_modes.len() == 0 {
            return Err(Error::InvalidState);
        }
        if self.index >= self.camera_modes.len() - 1 {
            self.index = 0;
        } else {
            self.index = self.index + 1;
        }
        Ok(())
    }

    /// Selects a mode directly.  A mode outside the allowed list is
    /// refused with [`Error::DisallowedMode`] and changes nothing; an
    /// allowed one becomes current at its first occurrence.
    pub fn select(&mut self, mode: ModeId) -> (r: Result<(), Error>)
        requires
            old(self).wf(),
        ensures
            final(self).camera_modes == old(self).camera_modes,
            final(self).wf(),
            !old(self).camera_modes@.contains(mode) ==> r == Err::<(), Error>(
                Error::DisallowedMode,
            ) && final(self).spec_index() == old(self).spec_index(),
            old(self).camera_modes@.contains(mode) ==> r == Ok::<(), Error>(())
                && final(self).spec_index() < final(self).camera_modes@.len()
                && final(self).camera_modes@[final(self).spec_index() as int] == mode
                && (forall|j: int|
                    0 <= j < final(self).spec_index() ==> final(self).camera_modes@[j] != mode),
    {
        let n = self.camera_modes.len();
        let mut j: usize = 0;
        while j < n
            invariant
                0 <= j <= n,
                *self == *old(self),
                old(self).wf(),
                n == self.camera_modes@.len(),
                forall|k: int| 0 <= k < j ==> self.camera_modes@[k] != mode,
            decreases n - j,
        {
            if self.camera_modes[j] == mode {
                self.index = j;
                proof {
                    assert(old(self).camera_modes@[j as int] == mode);
                    assert(old(self).camera_modes@.contains(mode));
                }
                return Ok(());
            }
            j = j + 1;
        }
        proof {
            assert forall|k: int| 0 <= k < self.camera_modes@.len()
                implies self.camera_modes@[k] != mode by {}
            assert(!self.camera_modes@.contains(mode));
        }
        Err(Error::DisallowedMode)
    }
}

/// Mode cycling is a total cyclic order: from any current mode, exactly as
/// many calls of [`Cameras::advance`] as there are allowed modes — each of
/// which steps the index by [`crate::cycle::next_index`] — return the
/// machine to the mode it started at.
pub proof fn lemma_advance_periodic(c: Cameras)
    requires
        c.wf(),
        c.camera_modes.len() > 0,
    ensures
        crate::cycle::iter_next(
            c.spec_index() as nat,
            c.camera_modes.len() as nat,
            c.camera_modes.len() as nat,
        ) == c.spec_index(),
{
    crate::cycle::lemma_cycle_period(c.spec_index() as nat, c.camera_modes.len() as nat);
}

impl Default for Cameras {
    /// All seven modes allowed, in the stock order, starting at `LookAt`.
    fn default() -> (r: Cameras)
        ensures
            r.camera_modes@ == seq![
                ModeId::LookAt,
                ModeId::FollowStatic,
                ModeId::TopDown,
                ModeId::TopDownDirection,
                ModeId::FollowBehind,
                ModeId::Fps,
                ModeId::Free,
            ],
            r.spec_index() == 0,
            r.wf(),
    {
        let mut camera_modes: Vec<ModeId> = Vec::new();
        camera_modes.push(ModeId::LookAt);
        camera_modes.push(ModeId::FollowStatic);
        camera_modes.push(ModeId::TopDown);
        camera_modes.push(ModeId::TopDownDirection);
        camera_modes.push(ModeId::FollowBehind);
        camera_modes.push(ModeId::Fps);
        camera_modes.push(ModeId::Free);
        proof {
            assert(camera_modes@ =~= seq![
                ModeId::LookAt,
                ModeId::FollowStatic,
                ModeId::TopDown,
                ModeId::TopDownDirection,
                ModeId::FollowBehind,
                ModeId::Fps,
                ModeId::Free,
            ]);
        }
        Cameras { camera_modes, index: 0 }
    }
}

/// One tick of the mode machine: every movement flag is reset to its
/// default and the current mode recomputes its delta transform, flags and
/// focus from scratch, so nothing of the previous mode's effects survives
/// the tick.  With no mode allowed the tick is refused and nothing
/// changes.
pub fn update_current(
    cameras: &Cameras,
    config: &mut Config,
    settings: &mut MovementSettings,
    target_tf: Option<TransformFx>,
    ext_tf: Option<TransformFx>,
) -> (r: Result<TransformFx, Error>)
    requires
        cameras.wf(),
        old(config).wf(),
        old(settings).wf(),
        target_tf is Some ==> old(config).target is Some,
        ext_tf is Some ==> old(config).external_target is Some,
        target_tf is Some ==> target_tf.unwrap().wf(),
        ext_tf is Some ==> ext_tf.unwrap().wf(),
    ensures
        cameras.camera_modes.len() == 0 ==> r == Err::<TransformFx, Error>(Error::InvalidState)
            && *final(config) == *old(config) && *final(settings) == *old(settings),
        cameras.camera_modes.len() > 0 ==> ({
            let mode = cameras.camera_modes@[cameras.spec_index() as int];
            &&& r == Ok::<TransformFx, Error>(
                spec_mode_delta(mode, target_tf, old(settings).dist as int),
            )
            &&& final(settings).disable_move == spec_mode_disable_move(mode)
            &&& !final(settings).disable_look
            &&& final(settings).locked_to_player == spec_mode_locked(mode)
            &&& final(settings).sensitivity == old(settings).sensitivity
            &&& final(settings).speed == old(settings).speed
            &&& final(settings).dist == old(settings).dist
            &&& final(settings).lerp == old(settings).lerp
            &&& final(settings).ltp == old(settings).ltp
            &&& final(config).camera_should_focus == spec_mode_focus(
                mode,
                old(config).camera_should_focus,
                old(config).target is Some,
                old(config).external_target is Some,
                target_tf,
                ext_tf,
                old(settings).lerp as int,
            )
            &&& final(config).camera_should_focus.wf()
            &&& final(config).target == old(config).target
            &&& final(config).external_target == old(config).external_target
            &&& final(config).camera_is_focus == old(config).camera_is_focus
        }),
        final(config).wf(),
        final(settings).wf(),
{
    let mode = match cameras.current() {
        Some(m) => m,
        None => {
            return Err(Error::InvalidState);
        },
    };
    settings.disable_move = false;
    settings.disable_look = false;
    settings.locked_to_player = false;
    let delta = match mode {
        ModeId::Free => Free.update(config, settings, target_tf, ext_tf),
        ModeId::LookAt => LookAt.update(config, settings, target_tf, ext_tf),
        ModeId::Fps => Fps.update(config, settings, target_tf, ext_tf),
        ModeId::TopDown => TopDown.update(config, settings, target_tf, ext_tf),
        ModeId::TopDownDirection => TopDownDirection.update(config, settings, target_tf, ext_tf),
        ModeId::FollowBehind => FollowBehind.update(config, settings, target_tf, ext_tf),
        ModeId::FollowStatic => FollowStatic.update(config, settings, target_tf, ext_tf),
    };
    Ok(delta)
}

} // verus!
