use render_engine::input::PointerButton;
use render_engine::interaction::{DragMode, DragTarget, Interaction};

#[test]
fn tab_toggles_once_per_press() {
    let mut it = Interaction::new();
    let mut visible = false;
    it.on_tab(true, &mut visible);
    assert!(visible);
    it.on_tab(true, &mut visible);
    it.on_tab(true, &mut visible);
    assert!(visible);
    it.on_tab(false, &mut visible);
    assert!(visible);
    assert!(!it.tab_was_pressed);
    it.on_tab(true, &mut visible);
    assert!(!visible);
}

#[test]
fn clicking_a_model_selects_and_drags() {
    let mut it = Interaction::new();
    let mut selected = None;
    assert!(Interaction::needs_pick(PointerButton::Left, false));
    it.on_mouse_press(PointerButton::Left, false, Some(4), &mut selected);
    assert_eq!(selected, Some(4));
    assert_eq!(it.active_drag_mode, Some(DragMode::Translate));
    assert!(!it.camera_follows_input());
    assert_eq!(it.drag_target(false, selected), DragTarget::Model(4, DragMode::Translate));
    it.on_mouse_release(PointerButton::Left);
    assert_eq!(it.active_drag_mode, None);
    assert!(it.camera_follows_input());
    it.on_mouse_press(PointerButton::Right, false, Some(7), &mut selected);
    assert_eq!(selected, Some(7));
    assert_eq!(it.active_drag_mode, Some(DragMode::Rotate));
    it.on_mouse_release(PointerButton::Left);
    assert_eq!(it.active_drag_mode, Some(DragMode::Rotate));
    it.on_mouse_release(PointerButton::Right);
    assert_eq!(it.active_drag_mode, None);
}

#[test]
fn clicking_empty_space() {
    let mut it = Interaction::new();
    let mut selected = Some(2);
    it.on_mouse_press(PointerButton::Right, false, None, &mut selected);
    assert_eq!(selected, Some(2));
    assert_eq!(it.active_drag_mode, None);
    it.on_mouse_press(PointerButton::Left, false, None, &mut selected);
    assert_eq!(selected, None);
    assert_eq!(it.drag_target(false, selected), DragTarget::Nothing);
}

#[test]
fn emitter_drag_keeps_selection() {
    let mut it = Interaction::new();
    let mut selected = Some(1);
    assert!(!Interaction::needs_pick(PointerButton::Left, true));
    it.on_mouse_press(PointerButton::Left, true, None, &mut selected);
    assert_eq!(selected, Some(1));
    assert_eq!(it.drag_target(true, selected), DragTarget::Emitter(DragMode::Translate));
    it.on_mouse_press(PointerButton::Right, true, Some(9), &mut selected);
    assert_eq!(selected, Some(1));
    assert_eq!(it.drag_target(true, selected), DragTarget::Emitter(DragMode::Rotate));
}

#[test]
fn other_buttons_do_nothing() {
    let mut it = Interaction::new();
    let mut selected = Some(3);
    assert!(!Interaction::needs_pick(PointerButton::Middle, false));
    it.on_mouse_press(PointerButton::Middle, false, Some(5), &mut selected);
    assert_eq!(selected, Some(3));
    assert_eq!(it.active_drag_mode, None);
}
