//! The driver registry: cycling, camera switching, and the attach/detach
//! pass.

use config_cam::driver::driver_core::{DriverAction, DriverMarker, Drivers};
use config_cam::driver::driver_resources::{change_driver_system, update_driver_system};
use config_cam::drivers::fpv::{CCFpv, CCFPV_ID};
use config_cam::drivers::orbit::{CCOrbit, CCORBIT_ID};
use config_cam::Error;
use config_cam::MAIN_CAMERA_ID;

#[test]
fn default_registry_holds_orbit_then_fpv() {
    let d = Drivers::default();
    assert_eq!(d.enabled_drivers, vec![CCORBIT_ID, CCFPV_ID]);
    assert_eq!(d.cameras, vec![MAIN_CAMERA_ID]);
    assert_eq!(d.index(), 0);
    assert_eq!(d.current(), Some(CCORBIT_ID));
}

#[test]
fn marker_identities_are_distinct() {
    assert_eq!(CCOrbit.get_id(), CCORBIT_ID);
    assert_eq!(CCFpv.get_id(), CCFPV_ID);
    assert_ne!(CCOrbit.get_id(), CCFpv.get_id());
    assert_eq!(CCOrbit.get_name(), "CCOrbit");
    assert_eq!(CCFpv.get_name(), "CCFpv");
}

#[test]
fn next_wraps_after_the_last_driver() {
    let mut d = Drivers::new(vec![10, 20, 30], vec![MAIN_CAMERA_ID]);
    assert_eq!(d.index(), 0);
    assert!(d.next().is_ok());
    assert_eq!(d.index(), 1);
    assert!(d.next().is_ok());
    assert_eq!(d.index(), 2);
    assert!(d.next().is_ok());
    assert_eq!(d.index(), 0);
}

#[test]
fn advancing_is_periodic_with_the_registry_length() {
    for n in 1..6usize {
        let drivers: Vec<u64> = (0..n as u64).collect();
        let mut d = Drivers::new(drivers, vec![MAIN_CAMERA_ID]);
        for _ in 0..n {
            assert!(d.next().is_ok());
        }
        assert_eq!(d.index(), 0, "after {} advances the index returns", n);
    }
}

#[test]
fn single_driver_registry_stays_at_zero() {
    let mut d = Drivers::new(vec![7], vec![MAIN_CAMERA_ID]);
    for _ in 0..5 {
        assert!(d.next().is_ok());
        assert_eq!(d.index(), 0);
    }
}

#[test]
fn next_on_empty_registry_is_refused() {
    let mut d = Drivers::new(Vec::new(), vec![MAIN_CAMERA_ID]);
    assert_eq!(d.next(), Err(Error::InvalidState));
    assert_eq!(d.index(), 0);
}

#[test]
fn register_appends_without_moving_the_current_driver() {
    let mut d = Drivers::new(vec![1], Vec::new());
    assert!(d.next().is_ok());
    let idx = d.register(9);
    assert_eq!(idx, 1);
    assert_eq!(d.enabled_drivers, vec![1, 9]);
    assert_eq!(d.index(), 0);
}

#[test]
fn change_camera_moves_to_first_occurrence() {
    let mut d = Drivers::new(vec![1], vec![5, 6]);
    d.change_camera(6);
    // 6 was appended and the consecutive pair collapsed.
    assert_eq!(d.cameras, vec![5, 6]);
    d.change_camera(5);
    assert_eq!(d.cameras, vec![5, 6, 5]);
}

#[test]
fn apply_attaches_current_and_detaches_the_rest() {
    let a = 10u64;
    let b = 20u64;
    let cams = vec![100u64, 200u64];
    let mut d = Drivers::new(vec![a, b], vec![MAIN_CAMERA_ID]);
    let acts = d.apply(&cams);
    assert_eq!(
        acts,
        vec![
            DriverAction { driver: a, camera: 100, attach: true },
            DriverAction { driver: a, camera: 200, attach: true },
            DriverAction { driver: b, camera: 100, attach: false },
            DriverAction { driver: b, camera: 200, attach: false },
        ]
    );
    // After one advance the roles invert.
    assert!(d.next().is_ok());
    let acts = d.apply(&cams);
    assert_eq!(
        acts,
        vec![
            DriverAction { driver: a, camera: 100, attach: false },
            DriverAction { driver: a, camera: 200, attach: false },
            DriverAction { driver: b, camera: 100, attach: true },
            DriverAction { driver: b, camera: 200, attach: true },
        ]
    );
}

#[test]
fn apply_touches_every_pair_even_without_a_change() {
    let d = Drivers::new(vec![1, 2, 3], Vec::new());
    let cams = vec![7u64];
    let acts = d.apply(&cams);
    assert_eq!(acts.len(), 3);
    assert!(acts[0].attach);
    assert!(!acts[1].attach);
    assert!(!acts[2].attach);
}

#[test]
fn apply_with_no_active_cameras_orders_nothing() {
    let d = Drivers::default();
    let acts = d.apply(&Vec::new());
    assert!(acts.is_empty());
}

#[test]
fn change_driver_system_advances_only_on_a_press() {
    let mut d = Drivers::new(vec![1, 2], Vec::new());
    change_driver_system(&mut d, false);
    assert_eq!(d.index(), 0);
    change_driver_system(&mut d, true);
    assert_eq!(d.index(), 1);
    // A press on an empty registry is swallowed.
    let mut e = Drivers::new(Vec::new(), Vec::new());
    change_driver_system(&mut e, true);
    assert_eq!(e.index(), 0);
}

#[test]
fn update_driver_system_orders_only_when_changed() {
    let d = Drivers::new(vec![1, 2], Vec::new());
    let cams = vec![9u64];
    assert!(update_driver_system(&d, &cams, false).is_empty());
    assert_eq!(update_driver_system(&d, &cams, true).len(), 2);
}
