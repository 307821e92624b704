use render_engine::object_controls::{AxisConstraint, DeltaTerm, ObjectControls, TransformMode};

#[test]
fn transform_mode_labels() {
    assert_eq!(TransformMode::Idle.label(), "");
    assert_eq!(TransformMode::Grab.label(), "GRAB");
    assert_eq!(TransformMode::Rotate.label(), "ROTATE");
    assert_eq!(TransformMode::Scale.label(), "SCALE");
}

#[test]
fn axis_constraint_labels() {
    assert_eq!(AxisConstraint::Free.label(), "Free");
    assert_eq!(AxisConstraint::X.label(), "X");
    assert_eq!(AxisConstraint::Y.label(), "Y");
    assert_eq!(AxisConstraint::Z.label(), "Z");
}

#[test]
fn new_controls_are_idle() {
    let c: ObjectControls<u32> = ObjectControls::new();
    assert_eq!(c.mode, TransformMode::Idle);
    assert_eq!(c.axis, AxisConstraint::Free);
    assert!(c.snapshot.is_none());
    assert!(!c.is_active());
}

#[test]
fn cancel_returns_snapshot_taken_on_entry() {
    let mut c: ObjectControls<&str> = ObjectControls::new();
    c.enter_mode(TransformMode::Grab, Some("before"));
    assert!(c.is_active());
    c.set_axis(AxisConstraint::Z);
    assert_eq!(c.cancel(), Some("before"));
    assert_eq!(c.mode, TransformMode::Idle);
    assert_eq!(c.axis, AxisConstraint::Free);
    assert!(c.snapshot.is_none());
    assert!(!c.is_active());
}

#[test]
fn entering_same_mode_twice_confirms() {
    let mut c: ObjectControls<u8> = ObjectControls::new();
    c.enter_mode(TransformMode::Rotate, Some(1));
    c.set_axis(AxisConstraint::X);
    c.enter_mode(TransformMode::Rotate, Some(2));
    assert_eq!(c.mode, TransformMode::Idle);
    assert_eq!(c.axis, AxisConstraint::Free);
    assert!(c.snapshot.is_none());
}

#[test]
fn switching_mode_resets_axis_and_snapshot() {
    let mut c: ObjectControls<u8> = ObjectControls::new();
    c.enter_mode(TransformMode::Grab, Some(1));
    c.set_axis(AxisConstraint::Y);
    c.enter_mode(TransformMode::Scale, Some(2));
    assert_eq!(c.mode, TransformMode::Scale);
    assert_eq!(c.axis, AxisConstraint::Free);
    assert_eq!(c.snapshot, Some(2));
}

#[test]
fn confirm_discards_snapshot() {
    let mut c: ObjectControls<u8> = ObjectControls::new();
    c.enter_mode(TransformMode::Scale, Some(9));
    c.confirm();
    assert_eq!(c.mode, TransformMode::Idle);
    assert_eq!(c.cancel(), None);
}

#[test]
fn axis_key_toggles_and_is_ignored_when_idle() {
    let mut c: ObjectControls<u8> = ObjectControls::new();
    c.set_axis(AxisConstraint::X);
    assert_eq!(c.axis, AxisConstraint::Free);
    c.enter_mode(TransformMode::Grab, None);
    c.set_axis(AxisConstraint::X);
    assert_eq!(c.axis, AxisConstraint::X);
    c.set_axis(AxisConstraint::X);
    assert_eq!(c.axis, AxisConstraint::Free);
    // Another axis replaces the constraint; pressing it twice then frees.
    c.set_axis(AxisConstraint::X);
    c.set_axis(AxisConstraint::Y);
    assert_eq!(c.axis, AxisConstraint::Y);
    c.set_axis(AxisConstraint::Y);
    assert_eq!(c.axis, AxisConstraint::Free);
    assert_eq!(c.mode, TransformMode::Grab);
}

#[test]
fn delta_terms_by_mode_and_axis() {
    let mut c: ObjectControls<u8> = ObjectControls::new();
    let t = c.delta_terms();
    assert_eq!(t.position, [DeltaTerm::Zero; 3]);
    assert_eq!(t.rotation, [DeltaTerm::Zero; 3]);
    assert_eq!(t.scale, [DeltaTerm::Zero; 3]);

    c.enter_mode(TransformMode::Grab, None);
    let t = c.delta_terms();
    assert_eq!(t.position, [DeltaTerm::WorldX, DeltaTerm::WorldY, DeltaTerm::WorldZ]);
    assert_eq!(t.rotation, [DeltaTerm::Zero; 3]);
    c.set_axis(AxisConstraint::Y);
    let t = c.delta_terms();
    assert_eq!(t.position, [DeltaTerm::Zero, DeltaTerm::WorldY, DeltaTerm::Zero]);

    c.enter_mode(TransformMode::Rotate, None);
    let t = c.delta_terms();
    assert_eq!(t.rotation, [DeltaTerm::MouseY, DeltaTerm::MouseX, DeltaTerm::Zero]);
    assert_eq!(t.position, [DeltaTerm::Zero; 3]);
    c.set_axis(AxisConstraint::Z);
    assert_eq!(c.delta_terms().rotation, [DeltaTerm::Zero, DeltaTerm::Zero, DeltaTerm::Combined]);

    c.enter_mode(TransformMode::Scale, None);
    let t = c.delta_terms();
    assert_eq!(t.scale, [DeltaTerm::Combined; 3]);
    c.set_axis(AxisConstraint::X);
    let t = c.delta_terms();
    assert_eq!(t.scale, [DeltaTerm::Combined, DeltaTerm::Zero, DeltaTerm::Zero]);
    assert_eq!(t.position, [DeltaTerm::Zero; 3]);
    assert_eq!(t.rotation, [DeltaTerm::Zero; 3]);
}
