use render_engine::input::{CameraIntent, InputState, Key, PointerButton, DOUBLE_CLICK_NANOS};

const MS: u64 = 1_000_000;

#[test]
fn keys_press_and_release() {
    let mut input = InputState::new();
    assert!(!input.is_key_pressed(Key::KeyW));
    input.process_key(Key::KeyW, true);
    input.process_key(Key::KeyW, true);
    assert!(input.is_key_pressed(Key::KeyW));
    assert!(!input.is_key_pressed(Key::KeyS));
    input.process_key(Key::KeyW, false);
    assert!(!input.is_key_pressed(Key::KeyW));
    input.process_key(Key::KeyA, false);
    assert!(!input.is_key_pressed(Key::KeyA));
}

#[test]
fn shift_either_side() {
    let mut input = InputState::new();
    assert!(!input.is_shift_held());
    input.process_key(Key::ShiftRight, true);
    assert!(input.is_shift_held());
    input.process_key(Key::ShiftRight, false);
    input.process_key(Key::ShiftLeft, true);
    assert!(input.is_shift_held());
}

#[test]
fn buttons_press_and_release() {
    let mut input = InputState::new();
    input.process_mouse_button(PointerButton::Other(3), true, 0);
    assert!(input.is_mouse_button_pressed(PointerButton::Other(3)));
    assert!(!input.is_mouse_button_pressed(PointerButton::Other(4)));
    assert!(!input.is_mouse_button_pressed(PointerButton::Left));
    input.process_mouse_button(PointerButton::Other(3), false, 10);
    assert!(!input.is_mouse_button_pressed(PointerButton::Other(3)));
}

#[test]
fn double_click_within_window() {
    let mut input = InputState::new();
    input.process_mouse_button(PointerButton::Left, true, 1000 * MS);
    assert!(!input.double_click_detected());
    input.process_mouse_button(PointerButton::Left, false, 1050 * MS);
    input.process_mouse_button(PointerButton::Left, true, 1000 * MS + DOUBLE_CLICK_NANOS - 1);
    assert!(input.double_click_detected());
    input.begin_frame();
    assert!(!input.double_click_detected());
}

#[test]
fn slow_second_click_is_single() {
    let mut input = InputState::new();
    input.process_mouse_button(PointerButton::Left, true, 0);
    input.process_mouse_button(PointerButton::Left, true, 300 * MS);
    assert!(!input.double_click_detected());
}

#[test]
fn double_click_needs_same_button() {
    let mut input = InputState::new();
    input.process_mouse_button(PointerButton::Left, true, 0);
    input.process_mouse_button(PointerButton::Right, true, 10 * MS);
    assert!(!input.double_click_detected());
    input.process_mouse_button(PointerButton::Right, true, 20 * MS);
    assert!(input.double_click_detected());
}

#[test]
fn clock_going_back_counts_as_no_time() {
    let mut input = InputState::new();
    input.process_mouse_button(PointerButton::Middle, true, 500 * MS);
    input.process_mouse_button(PointerButton::Middle, true, 100 * MS);
    assert!(input.double_click_detected());
}

fn intent_of(keys: &[Key], buttons: &[PointerButton]) -> CameraIntent {
    let mut input = InputState::new();
    for k in keys {
        input.process_key(*k, true);
    }
    for (i, b) in buttons.iter().enumerate() {
        input.process_mouse_button(*b, true, (i as u64) * 1000 * MS);
    }
    input.camera_intent()
}

#[test]
fn camera_intent_orbit_and_pan() {
    let i = intent_of(&[], &[PointerButton::Left]);
    assert!(i.orbiting && !i.panning && !i.reset);
    let i = intent_of(&[Key::ShiftLeft], &[PointerButton::Left]);
    assert!(!i.orbiting && i.panning);
    let i = intent_of(&[], &[PointerButton::Right]);
    assert!(!i.orbiting && i.panning);
    let i = intent_of(&[], &[PointerButton::Middle]);
    assert!(i.panning);
    let i = intent_of(&[], &[]);
    assert!(!i.orbiting && !i.panning);
}

#[test]
fn camera_intent_fly_directions() {
    let i = intent_of(&[Key::KeyW, Key::KeyD, Key::Space], &[]);
    assert_eq!((i.fly_forward, i.fly_right, i.fly_up), (1, 1, 1));
    let i = intent_of(&[Key::ArrowDown, Key::ArrowLeft, Key::ControlLeft], &[]);
    assert_eq!((i.fly_forward, i.fly_right, i.fly_up), (-1, -1, -1));
    let i = intent_of(&[Key::KeyW, Key::ArrowDown, Key::KeyE, Key::KeyQ], &[]);
    assert_eq!((i.fly_forward, i.fly_right, i.fly_up), (0, 0, 0));
}

#[test]
fn camera_intent_reset() {
    let i = intent_of(&[Key::Home], &[]);
    assert!(i.reset);
    let mut input = InputState::new();
    input.process_mouse_button(PointerButton::Left, true, 0);
    input.process_mouse_button(PointerButton::Left, true, 100 * MS);
    assert!(input.camera_intent().reset);
}
