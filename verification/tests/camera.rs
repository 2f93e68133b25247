use swerve_sim_3d::camera::{CameraController, KeyCode};

fn held(c: &CameraController<f32>) -> [bool; 10] {
    [
        c.is_forward_pressed,
        c.is_backward_pressed,
        c.is_left_pressed,
        c.is_right_pressed,
        c.is_up_pressed,
        c.is_down_pressed,
        c.is_yaw_right_pressed,
        c.is_yaw_left_pressed,
        c.is_pitch_up_pressed,
        c.is_pitch_down_pressed,
    ]
}

#[test]
fn a_new_controller_holds_nothing() {
    let c = CameraController::new(0.2f32, 0.05f32);
    assert_eq!(held(&c), [false; 10]);
    assert_eq!(c.translation_speed, 0.2);
    assert_eq!(c.rotation_speed, 0.05);
}

#[test]
fn each_bound_key_holds_its_motion() {
    let cases = [
        (KeyCode::KeyW, 0),
        (KeyCode::KeyS, 1),
        (KeyCode::KeyA, 2),
        (KeyCode::KeyD, 3),
        (KeyCode::KeyE, 4),
        (KeyCode::Space, 4),
        (KeyCode::KeyQ, 5),
        (KeyCode::ShiftLeft, 5),
        (KeyCode::ShiftRight, 5),
        (KeyCode::ArrowRight, 6),
        (KeyCode::ArrowLeft, 7),
        (KeyCode::ArrowUp, 8),
        (KeyCode::ArrowDown, 9),
    ];
    for (key, index) in cases {
        let mut c = CameraController::new(1.0f32, 1.0f32);
        assert!(c.handle_key(key, true));
        let mut expected = [false; 10];
        expected[index] = true;
        assert_eq!(held(&c), expected, "{:?}", key);
        assert!(c.handle_key(key, false));
        assert_eq!(held(&c), [false; 10], "{:?}", key);
    }
}

#[test]
fn unbound_keys_are_not_recognized() {
    let mut c = CameraController::new(1.0f32, 1.0f32);
    c.handle_key(KeyCode::KeyW, true);
    assert!(!c.handle_key(KeyCode::Escape, true));
    assert!(!c.handle_key(KeyCode::Other, true));
    let mut expected = [false; 10];
    expected[0] = true;
    assert_eq!(held(&c), expected);
}

#[test]
fn independent_keys_do_not_interfere() {
    let mut c = CameraController::new(1.0f32, 1.0f32);
    c.handle_key(KeyCode::KeyW, true);
    c.handle_key(KeyCode::ArrowUp, true);
    c.handle_key(KeyCode::KeyW, false);
    let mut expected = [false; 10];
    expected[8] = true;
    assert_eq!(held(&c), expected);
}

#[test]
fn keys_sharing_a_motion_share_its_state() {
    let mut c = CameraController::new(1.0f32, 1.0f32);
    c.handle_key(KeyCode::Space, true);
    c.handle_key(KeyCode::KeyE, false);
    assert!(!c.is_up_pressed);
}

#[test]
fn a_repeated_key_event_changes_nothing_more() {
    let mut once = CameraController::new(1.0f32, 1.0f32);
    once.handle_key(KeyCode::ArrowLeft, true);
    let mut twice = CameraController::new(1.0f32, 1.0f32);
    twice.handle_key(KeyCode::ArrowLeft, true);
    twice.handle_key(KeyCode::ArrowLeft, true);
    assert_eq!(held(&once), held(&twice));
}
