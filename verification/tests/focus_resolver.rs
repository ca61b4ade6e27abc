//! Focus resolution: blending, centroids, and dead-zone smoothing.

use config_cam::focus::{
    get_center_point, resolve_focus, smooth_focus, update_look_at,
};
use config_cam::math::{Vec3Fx, SCALE};
use config_cam::Config;

fn v(x: i64, y: i64, z: i64) -> Vec3Fx {
    Vec3Fx { x, y, z }
}

fn config_with(target: Option<u64>, external: Option<u64>) -> Config {
    let mut c = Config::new();
    c.target = target;
    c.external_target = external;
    c
}

#[test]
fn both_targets_blend_by_the_lerp_factor() {
    let mut c = config_with(Some(1), Some(2));
    resolve_focus(&mut c, Some(v(0, 0, 0)), Some(v(10 * SCALE, 0, 0)), SCALE / 2);
    assert_eq!(c.camera_should_focus, v(5 * SCALE, 0, 0));
}

#[test]
fn lerp_zero_gives_the_target_and_one_gives_the_external() {
    let t = v(SCALE, 2 * SCALE, 3 * SCALE);
    let e = v(7 * SCALE, 8 * SCALE, 9 * SCALE);
    let mut c = config_with(Some(1), Some(2));
    resolve_focus(&mut c, Some(t), Some(e), 0);
    assert_eq!(c.camera_should_focus, t);
    resolve_focus(&mut c, Some(t), Some(e), SCALE);
    assert_eq!(c.camera_should_focus, e);
}

#[test]
fn only_the_target_present_focuses_on_it() {
    let mut c = config_with(Some(1), None);
    resolve_focus(&mut c, Some(v(3, 4, 5)), None, SCALE / 2);
    assert_eq!(c.camera_should_focus, v(3, 4, 5));
}

#[test]
fn no_target_resets_to_the_origin() {
    let mut c = config_with(None, None);
    c.camera_should_focus = v(9, 9, 9);
    resolve_focus(&mut c, None, None, SCALE / 2);
    assert_eq!(c.camera_should_focus, v(0, 0, 0));
}

#[test]
fn an_unresolved_target_keeps_the_previous_focus() {
    let mut c = config_with(Some(1), None);
    c.camera_should_focus = v(9, 9, 9);
    resolve_focus(&mut c, None, None, SCALE / 2);
    assert_eq!(c.camera_should_focus, v(9, 9, 9));
    // Both configured, only one resolved: also unchanged.
    let mut c = config_with(Some(1), Some(2));
    c.camera_should_focus = v(8, 8, 8);
    resolve_focus(&mut c, Some(v(1, 1, 1)), None, SCALE / 2);
    assert_eq!(c.camera_should_focus, v(8, 8, 8));
}

#[test]
fn centroid_of_two_points_is_their_mean() {
    let pts = vec![v(SCALE, 2 * SCALE, 3 * SCALE), v(3 * SCALE, 4 * SCALE, 5 * SCALE)];
    assert_eq!(get_center_point(&pts), v(2 * SCALE, 3 * SCALE, 4 * SCALE));
}

#[test]
fn centroid_of_one_point_is_that_point() {
    let pts = vec![v(11, 22, 33)];
    assert_eq!(get_center_point(&pts), v(11, 22, 33));
}

#[test]
fn centroid_divides_toward_zero() {
    let pts = vec![v(1, 0, 0), v(2, 0, 0), v(4, 0, 0)];
    assert_eq!(get_center_point(&pts), v(2, 0, 0));
    // A negative sum also truncates toward zero, not downward.
    let pts = vec![v(-1, 0, 0), v(-2, 0, 0), v(-4, 0, 0)];
    assert_eq!(get_center_point(&pts), v(-2, 0, 0));
}

#[test]
fn look_at_point_follows_the_target_count() {
    let current = v(5, 5, 5);
    assert_eq!(update_look_at(current, &Vec::new()), current);
    assert_eq!(update_look_at(current, &vec![v(1, 2, 3)]), v(1, 2, 3));
    let two = vec![v(0, 0, 0), v(2 * SCALE, 0, 0)];
    assert_eq!(update_look_at(current, &two), v(SCALE, 0, 0));
}

#[test]
fn smoothing_holds_still_at_the_dead_zone_boundary() {
    let mut c = Config::new();
    c.camera_should_focus = v(200_000, 0, 0);
    c.camera_is_focus = v(0, 0, 0);
    // The distance is exactly the dead-zone radius: no move this tick.
    smooth_focus(&mut c, SCALE);
    assert_eq!(c.camera_is_focus, v(0, 0, 0));
}

#[test]
fn smoothing_moves_outside_the_dead_zone() {
    let mut c = Config::new();
    c.camera_should_focus = v(2 * SCALE, 0, 0);
    c.camera_is_focus = v(0, 0, 0);
    // A quarter-second tick at speed 2 covers half the distance.
    smooth_focus(&mut c, 250_000);
    assert_eq!(c.camera_is_focus, v(SCALE, 0, 0));
    // A long tick caps at the whole distance and never overshoots.
    let mut c = Config::new();
    c.camera_should_focus = v(2 * SCALE, 0, 0);
    c.camera_is_focus = v(0, 0, 0);
    smooth_focus(&mut c, 30 * SCALE);
    assert_eq!(c.camera_is_focus, v(2 * SCALE, 0, 0));
}

#[test]
fn smoothing_never_changes_the_requested_point() {
    let mut c = Config::new();
    c.camera_should_focus = v(3 * SCALE, 0, 0);
    c.camera_is_focus = v(0, 0, 0);
    smooth_focus(&mut c, 100_000);
    assert_eq!(c.camera_should_focus, v(3 * SCALE, 0, 0));
}
