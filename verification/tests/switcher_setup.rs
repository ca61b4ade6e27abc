//! Camera activity switching and the startup camera set.

use config_cam::switcher::CameraActivity;
use config_cam::{
    initial_cameras, CCConfig, CameraInit, MAIN_CAMERA_ID, ORTHOGRAPHIC_CAMERA_ID,
    TWO_DIMENSIONAL_CAMERA_ID,
};

fn active_count(c: &CameraActivity, n: usize) -> usize {
    let mut k = 0;
    let mut i = 0;
    while i < n {
        if c.is_active(i) {
            k += 1;
        }
        i += 1;
    }
    k
}

#[test]
fn a_fresh_set_renders_exactly_its_first_camera() {
    let c = CameraActivity::new(3);
    assert_eq!(c.active(), 0);
    assert!(c.is_active(0));
    assert!(!c.is_active(1));
    assert!(!c.is_active(2));
    assert_eq!(active_count(&c, 3), 1);
}

#[test]
fn activating_a_camera_deactivates_the_rest_in_one_step() {
    let mut c = CameraActivity::new(3);
    c.set_active(2);
    assert_eq!(c.active(), 2);
    assert_eq!(active_count(&c, 3), 1);
    c.set_active(1);
    assert_eq!(c.active(), 1);
    assert_eq!(active_count(&c, 3), 1);
}

#[test]
fn the_lock_edge_swaps_the_rendering_camera() {
    let mut c = CameraActivity::new(2);
    // Locking on: the follow camera takes over.
    c.switch_on_lock_edge(false, true, 0, 1);
    assert_eq!(c.active(), 1);
    // No edge: nothing changes.
    c.switch_on_lock_edge(true, true, 0, 1);
    assert_eq!(c.active(), 1);
    // Locking off: the free camera returns.
    c.switch_on_lock_edge(true, false, 0, 1);
    assert_eq!(c.active(), 0);
    assert_eq!(active_count(&c, 2), 1);
}

#[test]
fn startup_spawns_three_cameras_with_one_active() {
    let cams = initial_cameras(&CCConfig::default());
    assert_eq!(
        cams,
        vec![
            CameraInit { kind: MAIN_CAMERA_ID, active: true },
            CameraInit { kind: ORTHOGRAPHIC_CAMERA_ID, active: false },
            CameraInit { kind: TWO_DIMENSIONAL_CAMERA_ID, active: false },
        ]
    );
    assert_eq!(cams.iter().filter(|c| c.active).count(), 1);
}

#[test]
fn startup_can_be_declined() {
    let config = CCConfig { init_cameras: false, features: Vec::new() };
    assert!(initial_cameras(&config).is_empty());
}
