//! The input layer: key maps, movement sums, the rotation wrap, mouse
//! look, and the mouse-wheel machinery.

use config_cam::cam::{
    accumulate_mouse_delta, next_scroll_type, player_look, player_move, scroll_adjust,
    validate_key, CamKeyMap, MovementSettings, ScrollType, KEY_A, KEY_D, KEY_LEFT, KEY_S,
    KEY_SPACE, KEY_UP, KEY_W,
};
use config_cam::math::{Vec3Fx, SCALE};
use config_cam::drivers::fpv::update_fpv_camera;
use config_cam::drivers::orbit::{handle_mouse_scroll, update_orbit_camera, Pan, ORBIT_KEY_STEP};
use config_cam::player::{
    move_player, PlayerKeyMap, PlayerSettings, ROT_FULL_TURN, ROT_STEP,
};

fn v(x: i64, y: i64, z: i64) -> Vec3Fx {
    Vec3Fx { x, y, z }
}

#[test]
fn validate_key_finds_only_bound_codes() {
    let codes = vec![KEY_W, KEY_S];
    assert!(validate_key(&codes, KEY_W));
    assert!(validate_key(&codes, KEY_S));
    assert!(!validate_key(&codes, KEY_A));
    assert!(!validate_key(&Vec::new(), KEY_A));
}

#[test]
fn default_settings_match_the_stock_values() {
    let s = MovementSettings::default();
    assert_eq!(s.sensitivity, 120);
    assert_eq!(s.speed, 12 * SCALE);
    assert_eq!(s.dist, 10 * SCALE);
    assert_eq!(s.lerp, SCALE / 2);
    assert!(!s.disable_move && !s.disable_look && !s.locked_to_player && !s.ltp);
    let m = CamKeyMap::default();
    assert_eq!(m.forward, vec![KEY_W]);
    assert_eq!(m.next_setting, vec![config_cam::cam::KEY_E]);
    let p = PlayerSettings::default();
    assert_eq!(p.speed, 4 * SCALE);
    assert!(!p.cam_fwd && !p.disable_move);
    let pm = PlayerKeyMap::default();
    assert_eq!(pm.forward, vec![KEY_UP]);
    assert_eq!(pm.rot_left, vec![KEY_LEFT]);
}

#[test]
fn camera_movement_sums_unit_contributions() {
    let s = MovementSettings::default();
    // Facing straight down negative z: local z is +z, forward is -z.
    let local_z = v(0, 0, SCALE);
    let r = player_move(&s, &vec![KEY_W, KEY_SPACE], local_z, true);
    assert_eq!(r, v(0, SCALE, -SCALE));
    // Opposite keys cancel.
    let r = player_move(&s, &vec![KEY_A, KEY_D], local_z, true);
    assert_eq!(r, v(0, 0, 0));
}

#[test]
fn camera_movement_needs_the_cursor_captured() {
    let s = MovementSettings::default();
    let r = player_move(&s, &vec![KEY_W], v(0, 0, SCALE), false);
    assert_eq!(r, v(0, 0, 0));
    let mut s = MovementSettings::default();
    s.disable_move = true;
    let r = player_move(&s, &vec![KEY_W], v(0, 0, SCALE), true);
    assert_eq!(r, v(0, 0, 0));
}

#[test]
fn player_movement_follows_the_facing() {
    let s = PlayerSettings::default();
    let local_z = v(0, 0, SCALE);
    let r = move_player(&s, &vec![KEY_UP], local_z, 0);
    // Forward is the reverse of the facing by default.
    assert_eq!(r.velocity, v(0, 0, -SCALE));
    assert_eq!(r.rotation, 0);
    let mut s = PlayerSettings::default();
    s.cam_fwd = true;
    let r = move_player(&s, &vec![KEY_UP], local_z, 0);
    assert_eq!(r.velocity, v(0, 0, SCALE));
}

#[test]
fn disabled_player_movement_decides_nothing() {
    let mut s = PlayerSettings::default();
    s.disable_move = true;
    let r = move_player(&s, &vec![KEY_UP, KEY_LEFT], v(0, 0, SCALE), 300_000);
    assert_eq!(r.velocity, v(0, 0, 0));
    assert_eq!(r.rotation, 300_000);
}

#[test]
fn rotating_left_wraps_once_per_cycle_and_never_goes_negative() {
    let s = PlayerSettings::default();
    let local_z = v(0, 0, SCALE);
    let pressed = vec![KEY_LEFT];
    let mut rot: i64 = 0;
    let mut resets = 0;
    let mut seen: Vec<i64> = Vec::new();
    for _ in 0..189 {
        let r = move_player(&s, &pressed, local_z, rot);
        assert!(r.rotation >= 0, "the angle never goes negative");
        assert!(r.rotation % ROT_STEP == 0, "the angle stays on the step grid");
        if r.rotation < rot {
            resets += 1;
        }
        rot = r.rotation;
        seen.push(rot);
    }
    // Three full cycles of 63 steps each: the wrap fired exactly once per
    // completed cycle, and each cycle retraces the first exactly (no
    // drift, no missed wrap).
    assert_eq!(resets, 2);
    assert_eq!(seen[..63], seen[63..126]);
    assert_eq!(seen[63..126], seen[126..189]);
    assert_eq!(seen[0], ROT_STEP);
}

#[test]
fn rotating_right_from_rest_wraps_to_the_full_turn() {
    let s = PlayerSettings::default();
    let r = move_player(&s, &vec![config_cam::cam::KEY_RIGHT], v(0, 0, SCALE), 0);
    assert_eq!(r.rotation, ROT_FULL_TURN - ROT_STEP);
}

#[test]
fn mouse_deltas_sum_component_wise() {
    let events = vec![(10, -3), (5, 4), (-2, 2)];
    assert_eq!(accumulate_mouse_delta(&events), (13, 3));
    assert_eq!(accumulate_mouse_delta(&Vec::new()), (0, 0));
}

#[test]
fn mouse_look_turns_by_the_scaled_motion() {
    let s = MovementSettings::default();
    // One event of one pixel down on a thousand-pixel window: the pitch
    // falls by 120 millionths of a degree-scaled step, 2094 micro-radians.
    let r = player_look(&s, 1000, 1000, true, &vec![(0, SCALE)], 0, 0);
    assert_eq!(r.pitch, -2_094);
    assert_eq!(r.yaw, 0);
    let r = player_look(&s, 1000, 1000, true, &vec![(SCALE, 0)], 0, 0);
    assert_eq!(r.pitch, 0);
    assert_eq!(r.yaw, -2_094);
}

#[test]
fn mouse_look_clamps_the_pitch() {
    let mut s = MovementSettings::default();
    s.sensitivity = 10_000;
    // A huge downward swipe cannot pass the clamp.
    let r = player_look(&s, 100_000, 100_000, true, &vec![(0, 1_000_000_000)], 0, 0);
    assert_eq!(r.pitch, -config_cam::cam::LOOK_PITCH_CLAMP);
}

#[test]
fn mouse_look_ignores_a_free_cursor_and_a_disabled_look() {
    let s = MovementSettings::default();
    let r = player_look(&s, 1000, 1000, false, &vec![(SCALE, SCALE)], 7, 8);
    assert_eq!((r.pitch, r.yaw), (7, 8));
    let mut s = MovementSettings::default();
    s.disable_look = true;
    let r = player_look(&s, 1000, 1000, true, &vec![(SCALE, SCALE)], 7, 8);
    assert_eq!((r.pitch, r.yaw), (7, 8));
}

#[test]
fn scroll_type_cycles_through_all_five_targets() {
    let mut t = ScrollType::default();
    assert_eq!(t, ScrollType::MovementSpeed);
    let mut seen = vec![t];
    for _ in 0..5 {
        t = next_scroll_type(t);
        seen.push(t);
    }
    assert_eq!(
        seen,
        vec![
            ScrollType::MovementSpeed,
            ScrollType::Sensitivity,
            ScrollType::Zoom,
            ScrollType::Lerp,
            ScrollType::CamFwd,
            ScrollType::MovementSpeed,
        ]
    );
}

#[test]
fn the_wheel_adjusts_only_the_selected_setting() {
    let mut s = MovementSettings::default();
    let mut cam_fwd = false;
    scroll_adjust(&mut s, &mut cam_fwd, ScrollType::MovementSpeed, SCALE);
    assert_eq!(s.speed, 13 * SCALE);
    assert_eq!(s.dist, 10 * SCALE);
    scroll_adjust(&mut s, &mut cam_fwd, ScrollType::Zoom, -SCALE);
    assert_eq!(s.dist, 9 * SCALE);
    scroll_adjust(&mut s, &mut cam_fwd, ScrollType::Lerp, SCALE);
    assert_eq!(s.lerp, SCALE, "the blend factor saturates at one");
    scroll_adjust(&mut s, &mut cam_fwd, ScrollType::Sensitivity, -SCALE);
    assert_eq!(s.sensitivity, 0, "the sensitivity saturates at zero");
    scroll_adjust(&mut s, &mut cam_fwd, ScrollType::CamFwd, 1);
    assert!(cam_fwd);
    scroll_adjust(&mut s, &mut cam_fwd, ScrollType::CamFwd, 0);
    assert!(cam_fwd, "no wheel motion leaves the toggle alone");
}

#[test]
fn fpv_update_reads_keys_boost_and_mouse() {
    let r = update_fpv_camera(&vec![KEY_W, KEY_D, KEY_SPACE], &vec![(3, 4), (1, 1)], false);
    assert_eq!(r.move_vec, v(SCALE, SCALE, -SCALE));
    assert_eq!(r.boost, 0);
    assert_eq!(r.mouse_delta, (4, 5));
    assert!(r.apply_rotation);
    let r = update_fpv_camera(&vec![config_cam::cam::KEY_LSHIFT], &Vec::new(), true);
    assert_eq!(r.move_vec, v(0, 0, 0));
    assert_eq!(r.boost, SCALE);
    assert!(!r.apply_rotation);
}

#[test]
fn orbit_update_turns_by_keys_or_mouse() {
    // Key pan: the quarter-turn keys turn the yaw.
    let r = update_orbit_camera(Pan::Keys, true, false, false, false, true, &Vec::new(), false);
    assert_eq!(r.yaw_delta, -ORBIT_KEY_STEP);
    assert_eq!(r.pitch_delta, 0);
    // Mouse pan with a captured cursor: a tenth of the motion at
    // sensitivity two, sign reversed.
    let events = vec![(10 * SCALE, 5 * SCALE)];
    let r = update_orbit_camera(Pan::Mouse, false, false, false, false, false, &events, false);
    assert_eq!(r.yaw_delta, -2 * SCALE);
    assert_eq!(r.pitch_delta, -SCALE);
    assert_eq!(r.control_yaw, 10 * SCALE);
    // A visible cursor turns nothing.
    let r = update_orbit_camera(Pan::Mouse, false, false, false, false, true, &events, false);
    assert_eq!((r.yaw_delta, r.pitch_delta), (0, 0));
}

#[test]
fn orbit_toggles_pan_and_pin() {
    let r = update_orbit_camera(Pan::Mouse, false, false, true, true, true, &Vec::new(), false);
    assert_eq!(r.pan, Pan::Keys);
    assert!(r.pin);
    let r = update_orbit_camera(Pan::Keys, false, false, true, false, true, &Vec::new(), true);
    assert_eq!(r.pan, Pan::Mouse);
    assert!(r.pin);
}

#[test]
fn the_wheel_reshapes_the_projection() {
    // A perspective field of view moves by a hundredth of each step and
    // reflects back positive.
    assert_eq!(handle_mouse_scroll(SCALE, &vec![SCALE], true), SCALE - 10_000);
    assert_eq!(handle_mouse_scroll(0, &vec![SCALE], true), 10_000);
    // An orthographic scale moves by a tenth.
    assert_eq!(handle_mouse_scroll(SCALE, &vec![SCALE], false), SCALE - 100_000);
    assert_eq!(handle_mouse_scroll(SCALE, &Vec::new(), true), SCALE);
}
