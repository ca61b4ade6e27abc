//! The camera modes and the mode state machine.

use config_cam::cam::MovementSettings;
use config_cam::default_cam_modes::{
    update_current, Cameras, FollowBehind, FollowStatic, Fps, Free, LookAt, ModeId, TopDown,
    TopDownDirection, BEHIND_OFFSET_FX, FRAC_PI_2_FX, UP_OFFSET_FX,
};
use config_cam::math::{RotFx, TransformFx, Vec3Fx, SCALE};
use config_cam::{update_camera, Config, Error};

fn v(x: i64, y: i64, z: i64) -> Vec3Fx {
    Vec3Fx { x, y, z }
}

fn tf(x: i64, y: i64, z: i64) -> TransformFx {
    TransformFx { translation: v(x, y, z), rotation: RotFx { yaw: 0, pitch: 0 } }
}

fn identity() -> TransformFx {
    tf(0, 0, 0)
}

#[test]
fn free_enables_look_and_moves_nothing() {
    let mut c = Config::new();
    let mut s = MovementSettings::default();
    s.disable_look = true;
    let delta = Free.update(&mut c, &mut s, None, None);
    assert_eq!(delta, identity());
    assert!(!s.disable_look);
    assert!(!s.disable_move);
}

#[test]
fn look_at_blends_both_targets() {
    let mut c = Config::new();
    c.target = Some(1);
    c.external_target = Some(2);
    let mut s = MovementSettings::default();
    let delta = LookAt.update(&mut c, &mut s, Some(tf(0, 0, 0)), Some(tf(10 * SCALE, 0, 0)));
    assert_eq!(delta, identity());
    assert_eq!(c.camera_should_focus, v(5 * SCALE, 0, 0));
}

#[test]
fn fps_rides_one_unit_above_the_target_with_its_rotation() {
    let mut c = Config::new();
    c.target = Some(1);
    let mut s = MovementSettings::default();
    let mut target = tf(3 * SCALE, 0, SCALE);
    target.rotation = RotFx { yaw: 123, pitch: -45 };
    let delta = Fps.update(&mut c, &mut s, Some(target), None);
    assert_eq!(delta.translation, v(3 * SCALE, UP_OFFSET_FX, SCALE));
    assert_eq!(delta.rotation, RotFx { yaw: 123, pitch: -45 });
    assert!(s.disable_move);
    assert!(!s.disable_look);
}

#[test]
fn top_down_hangs_the_follow_distance_above_pitched_down() {
    let mut c = Config::new();
    c.target = Some(1);
    let mut s = MovementSettings::default();
    let delta = TopDown.update(&mut c, &mut s, Some(tf(SCALE, 0, 0)), None);
    assert_eq!(delta.translation, v(SCALE, 10 * SCALE, 0));
    assert_eq!(delta.rotation, RotFx { yaw: 0, pitch: -FRAC_PI_2_FX });
    assert!(s.disable_move);
    // Without a resolved target nothing moves.
    let delta = TopDown.update(&mut c, &mut s, None, None);
    assert_eq!(delta, identity());
}

#[test]
fn top_down_direction_locks_to_the_player() {
    let mut c = Config::new();
    let mut s = MovementSettings::default();
    let delta = TopDownDirection.update(&mut c, &mut s, None, None);
    assert_eq!(delta.translation, v(0, 10 * SCALE, 0));
    assert_eq!(delta.rotation, RotFx { yaw: 0, pitch: -FRAC_PI_2_FX });
    assert!(s.disable_move);
    assert!(s.locked_to_player);
}

#[test]
fn follow_behind_hangs_behind_and_above() {
    let mut c = Config::new();
    let mut s = MovementSettings::default();
    let delta = FollowBehind.update(&mut c, &mut s, None, None);
    assert_eq!(delta.translation, v(0, UP_OFFSET_FX, BEHIND_OFFSET_FX));
    assert!(s.disable_move);
    assert!(s.locked_to_player);
}

#[test]
fn follow_static_points_the_focus_at_the_target() {
    let mut c = Config::new();
    c.target = Some(1);
    let mut s = MovementSettings::default();
    let delta = FollowStatic.update(&mut c, &mut s, Some(tf(7, 8, 9)), None);
    assert_eq!(delta, identity());
    assert_eq!(c.camera_should_focus, v(7, 8, 9));
}

#[test]
fn mode_names_match_their_structs() {
    assert_eq!(Free.name(), "Free");
    assert_eq!(LookAt.name(), "LookAt");
    assert_eq!(Fps.name(), "Fps");
    assert_eq!(TopDown.name(), "TopDown");
    assert_eq!(TopDownDirection.name(), "TopDownDirection");
    assert_eq!(FollowBehind.name(), "FollowBehind");
    assert_eq!(FollowStatic.name(), "FollowStatic");
}

#[test]
fn the_stock_machine_allows_all_seven_modes() {
    let cams = Cameras::default();
    assert_eq!(
        cams.camera_modes,
        vec![
            ModeId::LookAt,
            ModeId::FollowStatic,
            ModeId::TopDown,
            ModeId::TopDownDirection,
            ModeId::FollowBehind,
            ModeId::Fps,
            ModeId::Free,
        ]
    );
}

#[test]
fn cycling_through_all_allowed_modes_returns_to_the_start() {
    let mut cams = Cameras::default();
    let n = cams.camera_modes.len();
    assert_eq!(cams.current(), Some(ModeId::LookAt));
    for _ in 0..n {
        assert!(cams.advance().is_ok());
    }
    assert_eq!(cams.current(), Some(ModeId::LookAt));
    assert_eq!(cams.index(), 0);
}

#[test]
fn cycling_a_two_mode_subset_alternates() {
    let mut cams = Cameras::new(vec![ModeId::Free, ModeId::Fps]);
    assert_eq!(cams.current(), Some(ModeId::Free));
    assert!(cams.advance().is_ok());
    assert_eq!(cams.current(), Some(ModeId::Fps));
    assert!(cams.advance().is_ok());
    assert_eq!(cams.current(), Some(ModeId::Free));
}

#[test]
fn advancing_no_modes_is_refused() {
    let mut cams = Cameras::new(Vec::new());
    assert_eq!(cams.advance(), Err(Error::InvalidState));
}

#[test]
fn selecting_a_disallowed_mode_changes_nothing() {
    let mut cams = Cameras::new(vec![ModeId::Free, ModeId::Fps]);
    assert!(cams.advance().is_ok());
    assert_eq!(cams.select(ModeId::TopDown), Err(Error::DisallowedMode));
    assert_eq!(cams.current(), Some(ModeId::Fps));
    assert_eq!(cams.select(ModeId::Free), Ok(()));
    assert_eq!(cams.current(), Some(ModeId::Free));
}

#[test]
fn update_resets_the_previous_modes_flags() {
    // FollowBehind leaves its lock and move-disable set; one Free tick
    // clears both: no residue crosses a tick.
    let cams = Cameras::new(vec![ModeId::FollowBehind]);
    let mut c = Config::new();
    let mut s = MovementSettings::default();
    assert!(update_current(&cams, &mut c, &mut s, None, None).is_ok());
    assert!(s.disable_move && s.locked_to_player);
    let cams = Cameras::new(vec![ModeId::Free]);
    assert!(update_current(&cams, &mut c, &mut s, None, None).is_ok());
    assert!(!s.disable_move && !s.locked_to_player && !s.disable_look);
}

#[test]
fn update_with_no_modes_is_refused() {
    let cams = Cameras::new(Vec::new());
    let mut c = Config::new();
    let mut s = MovementSettings::default();
    assert_eq!(update_current(&cams, &mut c, &mut s, None, None), Err(Error::InvalidState));
}

#[test]
fn full_tick_blends_then_follows_behind() {
    // A target at the origin and an external target ten units along x,
    // blended halfway, focus the camera five units out; switching to
    // follow-behind then hangs the camera one up and four back, movement
    // disabled and locked to the player.
    let mut cams = Cameras::new(vec![ModeId::LookAt, ModeId::FollowBehind]);
    let mut c = Config::new();
    c.target = Some(1);
    c.external_target = Some(2);
    let mut s = MovementSettings::default();
    let target = tf(0, 0, 0);
    let external = tf(10 * SCALE, 0, 0);
    let r = update_camera(&cams, &mut c, &mut s, Some(target), Some(external), SCALE);
    assert_eq!(r, Ok(identity()));
    assert_eq!(c.camera_should_focus, v(5 * SCALE, 0, 0));
    assert!(cams.select(ModeId::FollowBehind).is_ok());
    let r = update_camera(&cams, &mut c, &mut s, Some(target), Some(external), SCALE);
    assert_eq!(
        r,
        Ok(TransformFx {
            translation: v(0, UP_OFFSET_FX, BEHIND_OFFSET_FX),
            rotation: RotFx { yaw: 0, pitch: 0 },
        })
    );
    assert!(s.disable_move);
    assert!(s.locked_to_player);
}

#[test]
fn full_tick_smooths_the_focus_point() {
    let cams = Cameras::new(vec![ModeId::LookAt]);
    let mut c = Config::new();
    c.target = Some(1);
    let mut s = MovementSettings::default();
    // One second at speed 2 covers the whole distance to the target.
    let r = update_camera(&cams, &mut c, &mut s, Some(tf(2 * SCALE, 0, 0)), None, SCALE);
    assert!(r.is_ok());
    assert_eq!(c.camera_should_focus, v(2 * SCALE, 0, 0));
    assert_eq!(c.camera_is_focus, v(2 * SCALE, 0, 0));
}
