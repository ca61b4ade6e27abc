//! The rig drivers, their composition order, and the fixed-point circular
//! functions they rotate by.

use config_cam::angle::{cos_fx, sin_fx, HALF_PI_FX, PI_FX};
use config_cam::math::{RotFx, Vec3Fx, SCALE};
use config_cam::rig::{
    deg_to_rad, rotate_yp, Arm, LookAtDriver, Position, Rig, Smooth, YawPitch,
    PITCH_CLAMP_DEG_FX,
};

fn v(x: i64, y: i64, z: i64) -> Vec3Fx {
    Vec3Fx { x, y, z }
}

#[test]
fn the_circle_hits_its_cardinal_points() {
    assert_eq!(sin_fx(0), 0);
    assert_eq!(sin_fx(HALF_PI_FX), SCALE);
    assert_eq!(sin_fx(PI_FX), 0);
    assert_eq!(sin_fx(PI_FX + HALF_PI_FX), -SCALE);
    assert_eq!(cos_fx(0), SCALE);
    assert_eq!(sin_fx(-HALF_PI_FX), -SCALE);
    // Straight up is one micro-step short of a perfect zero: the price of
    // exact integer arithmetic, and the same on every machine.
    assert_eq!(cos_fx(HALF_PI_FX), 1);
}

#[test]
fn degrees_scale_to_radians() {
    assert_eq!(deg_to_rad(0), 0);
    assert_eq!(deg_to_rad(90_000_000), 1_570_770);
    assert_eq!(deg_to_rad(-90_000_000), -1_570_770);
}

#[test]
fn yaw_pitch_wraps_yaw_and_clamps_pitch() {
    let mut yp = YawPitch::new();
    yp.rotate_yaw_pitch(45_000_000, -30_000_000);
    assert_eq!((yp.yaw_deg, yp.pitch_deg), (45_000_000, -30_000_000));
    yp.rotate_yaw_pitch(340_000_000, 0);
    assert_eq!(yp.yaw_deg, 25_000_000, "the yaw wraps around the full turn");
    yp.rotate_yaw_pitch(-45_000_000, -70_000_000);
    assert_eq!(yp.yaw_deg, 340_000_000, "a negative yaw wraps up");
    assert_eq!(yp.pitch_deg, -PITCH_CLAMP_DEG_FX, "the pitch stops at the clamp");
    yp.rotate_yaw_pitch(0, 360_000_000);
    assert_eq!(yp.pitch_deg, PITCH_CLAMP_DEG_FX);
}

#[test]
fn a_quarter_turn_of_yaw_swings_the_boom_sideways() {
    // The canonical third-person boom, four units along local z, yawed a
    // quarter turn: it lands on the x axis (up to the fixed-point
    // residue of four millionths on z).
    let r = rotate_yp(HALF_PI_FX, 0, v(0, 0, 4 * SCALE));
    assert_eq!(r, v(4 * SCALE, 0, 4));
}

#[test]
fn identity_rotation_leaves_a_vector_alone() {
    let r = rotate_yp(0, 0, v(1_000, -2_000, 3_000));
    assert_eq!(r, v(1_000, -2_000, 3_000));
}

#[test]
fn an_empty_rig_resolves_the_identity() {
    let mut rig = Rig::new();
    let out = rig.update(16_000);
    assert_eq!(out.transform.translation, v(0, 0, 0));
    assert_eq!(out.transform.rotation, RotFx { yaw: 0, pitch: 0 });
    assert_eq!(out.look_at, None);
}

#[test]
fn position_and_arm_compose_before_smoothing() {
    let mut rig = Rig::new();
    rig.position = Some(Position { position: v(SCALE, 0, 0) });
    rig.arm = Some(Arm { offset: v(0, 0, 4 * SCALE) });
    // No rotation mounted: the arm passes straight through.
    let out = rig.update(16_000);
    assert_eq!(out.transform.translation, v(SCALE, 0, 4 * SCALE));
}

#[test]
fn the_rotation_reaches_the_resolved_transform() {
    let mut rig = Rig::new();
    rig.yaw_pitch = Some(YawPitch { yaw_deg: 90_000_000, pitch_deg: -30_000_000 });
    let out = rig.update(16_000);
    assert_eq!(out.transform.rotation, RotFx { yaw: 1_570_770, pitch: -523_590 });
}

#[test]
fn smoothing_chases_the_target_and_never_overshoots() {
    let mut rig = Rig::new();
    rig.position = Some(Position { position: v(2 * SCALE, 0, 0) });
    rig.smooth = Some(Smooth { speed: SCALE, last: None });
    // The first tick snaps to the target.
    let out = rig.update(16_000);
    assert_eq!(out.transform.translation, v(2 * SCALE, 0, 0));
    // The target moves; a half-second tick at speed one covers half the
    // distance.
    rig.position = Some(Position { position: v(4 * SCALE, 0, 0) });
    let out = rig.update(500_000);
    assert_eq!(out.transform.translation, v(3 * SCALE, 0, 0));
    // A delta-time spike lands exactly on the target, never past it.
    rig.position = Some(Position { position: v(0, 0, 0) });
    let out = rig.update(60_000_000);
    assert_eq!(out.transform.translation, v(0, 0, 0));
}

#[test]
fn the_look_at_target_rides_along() {
    let mut rig = Rig::new();
    rig.look_at = Some(LookAtDriver { target: v(7, 8, 9) });
    let out = rig.update(16_000);
    assert_eq!(out.look_at, Some(v(7, 8, 9)));
}
