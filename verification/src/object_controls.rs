//! Interactive object transform controls in the style of Blender's G/R/S keys.
//!
//! Pressing G, R or S enters a mode in which mouse movement transforms the
//! selected object at once; a left click confirms, a right click or Escape
//! cancels and hands back the snapshot taken when the mode was entered.
//! The controller keeps that snapshot opaque: it only stores and returns it.
use vstd::prelude::*;

verus! {

/// Which transform operation is active.
#[derive(Debug, Clone, Copy, PartialEq, Eq, Structural)]
pub enum TransformMode {
    /// No active transform: camera controls are active.
    Idle,
    /// Grab (translate), bound to G.
    Grab,
    /// Rotate, bound to R.
    Rotate,
    /// Scale, bound to S.
    Scale,
}

/// The text shown for each transform mode.
pub open spec fn transform_mode_label(mode: TransformMode) -> Seq<char> {
    match mode {
        TransformMode::Idle => ""@,
        TransformMode::Grab => "GRAB"@,
        TransformMode::Rotate => "ROTATE"@,
        TransformMode::Scale => "SCALE"@,
    }
}

impl TransformMode {
    /// Display label of the mode (empty when idle).
    pub fn label(&self) -> (res: &'static str)
        ensures
            res@ == transform_mode_label(*self),
    {
        match self {
            TransformMode::Idle => "",
            TransformMode::Grab => "GRAB",
            TransformMode::Rotate => "ROTATE",
            TransformMode::Scale => "SCALE",
        }
    }
}

/// Axis constraint applied to the active transform mode.
#[derive(Debug, Clone, Copy, PartialEq, Eq, Structural)]
pub enum AxisConstraint {
    /// Free: all axes.
    Free,
    X,
    Y,
    Z,
}

/// The text shown for each axis constraint.
pub open spec fn axis_constraint_label(axis: AxisConstraint) -> Seq<char> {
    match axis {
        AxisConstraint::Free => "Free"@,
        AxisConstraint::X => "X"@,
        AxisConstraint::Y => "Y"@,
        AxisConstraint::Z => "Z"@,
    }
}

impl AxisConstraint {
    /// Display label of the constraint.
    pub fn label(&self) -> (res: &'static str)
        ensures
            res@ == axis_constraint_label(*self),
    {
        match self {
            AxisConstraint::Free => "Free",
            AxisConstraint::X => "X",
            AxisConstraint::Y => "Y",
            AxisConstraint::Z => "Z",
        }
    }
}

/// Persistent state of the object transform controller.
///
/// `S` is the snapshot of the selected object's transform taken when a mode
/// is entered; it is handed back unchanged on cancel.
pub struct ObjectControls<S> {
    pub mode: TransformMode,
    pub axis: AxisConstraint,
    /// Snapshot of the transform before the current operation started.
    pub snapshot: Option<S>,
}

/// The controller with no mode, no constraint and no snapshot.
pub open spec fn idle_controls<S>() -> ObjectControls<S> {
    ObjectControls { mode: TransformMode::Idle, axis: AxisConstraint::Free, snapshot: None }
}

/// Effect of pressing the key of `mode`: the same mode again confirms,
/// another mode starts afresh with a free axis and the given snapshot.
pub open spec fn enter_mode_result<S>(
    c: ObjectControls<S>,
    mode: TransformMode,
    current: Option<S>,
) -> ObjectControls<S> {
    if c.mode == mode {
        idle_controls()
    } else {
        ObjectControls { mode, axis: AxisConstraint::Free, snapshot: current }
    }
}

/// Effect of pressing an axis key: ignored while idle, the same axis again
/// frees the constraint, another axis replaces it.
pub open spec fn set_axis_result<S>(c: ObjectControls<S>, axis: AxisConstraint) -> ObjectControls<S> {
    if c.mode == TransformMode::Idle {
        c
    } else if c.axis == axis {
        ObjectControls { axis: AxisConstraint::Free, ..c }
    } else {
        ObjectControls { axis, ..c }
    }
}

impl<S> ObjectControls<S> {
    pub fn new() -> (res: Self)
        ensures
            res == idle_controls::<S>(),
    {
        ObjectControls { mode: TransformMode::Idle, axis: AxisConstraint::Free, snapshot: None }
    }

    /// Enter a transform mode (resets the axis constraint and stores the
    /// snapshot); pressing the active mode's key again confirms instead.
    pub fn enter_mode(&mut self, mode: TransformMode, current_transform: Option<S>)
        ensures
            *final(self) == enter_mode_result(*old(self), mode, current_transform),
    {
        if self.mode == mode {
            self.confirm();
        } else {
            self.mode = mode;
            self.axis = AxisConstraint::Free;
            self.snapshot = current_transform;
        }
    }

    /// Set the axis constraint (only while a mode is active); the same axis
    /// twice toggles back to free.
    pub fn set_axis(&mut self, axis: AxisConstraint)
        ensures
            *final(self) == set_axis_result(*old(self), axis),
    {
        if self.mode != TransformMode::Idle {
            if self.axis == axis {
                self.axis = AxisConstraint::Free;
            } else {
                self.axis = axis;
            }
        }
    }

    /// Confirm the current transform: clear the mode and discard the snapshot.
    pub fn confirm(&mut self)
        ensures
            *final(self) == idle_controls::<S>(),
    {
        self.mode = TransformMode::Idle;
        self.axis = AxisConstraint::Free;
        self.snapshot = None;
    }

    /// Cancel the current mode and hand back the snapshot to revert to.
    pub fn cancel(&mut self) -> (res: Option<S>)
        ensures
            res == old(self).snapshot,
            *final(self) == idle_controls::<S>(),
    {
        self.mode = TransformMode::Idle;
        self.axis = AxisConstraint::Free;
        self.snapshot.take()
    }

    /// True while a transform mode is active (camera input is blocked).
    pub fn is_active(&self) -> (res: bool)
        ensures
            res == (self.mode != TransformMode::Idle),
    {
        self.mode != TransformMode::Idle
    }
}

/// Cancelling right after entering a new mode hands back exactly the snapshot
/// given on entry and leaves the controller idle.
pub proof fn lemma_cancel_returns_entry_snapshot<S>(
    c: ObjectControls<S>,
    mode: TransformMode,
    snap: Option<S>,
)
    requires
        c.mode != mode,
    ensures
        enter_mode_result(c, mode, snap).snapshot == snap,
        enter_mode_result(c, mode, snap).mode == mode,
{
}

/// Pressing the same mode key twice, starting from any other mode, confirms:
/// the controller ends idle, free and without snapshot.
pub proof fn lemma_enter_twice_confirms<S>(
    c: ObjectControls<S>,
    mode: TransformMode,
    first: Option<S>,
    second: Option<S>,
)
    requires
        c.mode != mode,
    ensures
        enter_mode_result(enter_mode_result(c, mode, first), mode, second) == idle_controls::<S>(),
{
}

/// Entering a different mode always starts with no axis constraint.
pub proof fn lemma_enter_frees_axis<S>(c: ObjectControls<S>, mode: TransformMode, snap: Option<S>)
    requires
        c.mode != mode,
    ensures
        enter_mode_result(c, mode, snap).axis == AxisConstraint::Free,
{
}

/// While a mode is active and the constraint is free or already `axis`,
/// pressing the key of `axis` twice restores the constraint; the mode and
/// snapshot are never touched.
pub proof fn lemma_set_axis_twice_restores<S>(c: ObjectControls<S>, axis: AxisConstraint)
    requires
        c.mode != TransformMode::Idle,
        c.axis == AxisConstraint::Free || c.axis == axis,
    ensures
        set_axis_result(set_axis_result(c, axis), axis) == c,
        set_axis_result(c, axis).mode == c.mode,
        set_axis_result(c, axis).snapshot == c.snapshot,
{
}

/// While idle, axis keys are ignored.
pub proof fn lemma_set_axis_idle_noop<S>(c: ObjectControls<S>, axis: AxisConstraint)
    requires
        c.mode == TransformMode::Idle,
    ensures
        set_axis_result(c, axis) == c,
{
}

/// Which quantity a component of a transform delta takes; the application
/// evaluates them from the mouse movement and the camera vectors.
#[derive(Debug, Clone, Copy, PartialEq, Eq, Structural)]
pub enum DeltaTerm {
    /// No change.
    Zero,
    /// A component of the screen movement projected on the camera's right
    /// and up vectors (x, y or z of that world-space vector).
    WorldX,
    WorldY,
    WorldZ,
    /// The horizontal minus the vertical mouse movement, times the speed.
    Combined,
    /// The horizontal mouse movement, times the speed.
    MouseX,
    /// The vertical mouse movement, times the speed.
    MouseY,
}

/// For each of position, rotation and scale, the term of each axis.
#[derive(Debug, Clone, Copy)]
pub struct DeltaTerms {
    pub position: [DeltaTerm; 3],
    pub rotation: [DeltaTerm; 3],
    pub scale: [DeltaTerm; 3],
}

/// `Combined` on the constrained axis, `Zero` on the others.
pub open spec fn on_axis(axis: AxisConstraint) -> [DeltaTerm; 3] {
    match axis {
        AxisConstraint::X => [DeltaTerm::Combined, DeltaTerm::Zero, DeltaTerm::Zero],
        AxisConstraint::Y => [DeltaTerm::Zero, DeltaTerm::Combined, DeltaTerm::Zero],
        _ => [DeltaTerm::Zero, DeltaTerm::Zero, DeltaTerm::Combined],
    }
}

/// The world-space component of the camera-plane movement on the
/// constrained axis, `Zero` on the others: a constrained grab projects the
/// camera-relative movement onto that axis.
pub open spec fn world_on_axis(axis: AxisConstraint) -> [DeltaTerm; 3] {
    match axis {
        AxisConstraint::X => [DeltaTerm::WorldX, DeltaTerm::Zero, DeltaTerm::Zero],
        AxisConstraint::Y => [DeltaTerm::Zero, DeltaTerm::WorldY, DeltaTerm::Zero],
        _ => [DeltaTerm::Zero, DeltaTerm::Zero, DeltaTerm::WorldZ],
    }
}

/// How mouse movement maps to a transform delta in each mode: grabbing
/// moves in the camera plane (or by that movement's component along the
/// constrained axis), rotating turns
/// about Y for horizontal and X for vertical movement (or about the
/// constrained axis), scaling grows uniformly (or along the constrained axis).
pub open spec fn delta_terms_of(mode: TransformMode, axis: AxisConstraint) -> DeltaTerms {
    let zero = [DeltaTerm::Zero, DeltaTerm::Zero, DeltaTerm::Zero];
    match mode {
        TransformMode::Idle => DeltaTerms { position: zero, rotation: zero, scale: zero },
        TransformMode::Grab => DeltaTerms {
            position: if axis == AxisConstraint::Free {
                [DeltaTerm::WorldX, DeltaTerm::WorldY, DeltaTerm::WorldZ]
            } else {
                world_on_axis(axis)
            },
            rotation: zero,
            scale: zero,
        },
        TransformMode::Rotate => DeltaTerms {
            position: zero,
            rotation: if axis == AxisConstraint::Free {
                [DeltaTerm::MouseY, DeltaTerm::MouseX, DeltaTerm::Zero]
            } else {
                on_axis(axis)
            },
            scale: zero,
        },
        TransformMode::Scale => DeltaTerms {
            position: zero,
            rotation: zero,
            scale: if axis == AxisConstraint::Free {
                [DeltaTerm::Combined, DeltaTerm::Combined, DeltaTerm::Combined]
            } else {
                on_axis(axis)
            },
        },
    }
}

fn axis_terms(axis: AxisConstraint) -> (res: [DeltaTerm; 3])
    requires
        axis != AxisConstraint::Free,
    ensures
        res == on_axis(axis),
{
    match axis {
        AxisConstraint::X => [DeltaTerm::Combined, DeltaTerm::Zero, DeltaTerm::Zero],
        AxisConstraint::Y => [DeltaTerm::Zero, DeltaTerm::Combined, DeltaTerm::Zero],
        _ => [DeltaTerm::Zero, DeltaTerm::Zero, DeltaTerm::Combined],
    }
}

fn world_axis_terms(axis: AxisConstraint) -> (res: [DeltaTerm; 3])
    requires
        axis != AxisConstraint::Free,
    ensures
        res == world_on_axis(axis),
{
    match axis {
        AxisConstraint::X => [DeltaTerm::WorldX, DeltaTerm::Zero, DeltaTerm::Zero],
        AxisConstraint::Y => [DeltaTerm::Zero, DeltaTerm::WorldY, DeltaTerm::Zero],
        _ => [DeltaTerm::Zero, DeltaTerm::Zero, DeltaTerm::WorldZ],
    }
}

impl<S> ObjectControls<S> {
    /// Which quantity each component of the position, rotation and scale
    /// delta takes in the current mode and constraint.
    pub fn delta_terms(&self) -> (res: DeltaTerms)
        ensures
            res == delta_terms_of(self.mode, self.axis),
    {
        let zero = [DeltaTerm::Zero, DeltaTerm::Zero, DeltaTerm::Zero];
        match self.mode {
            TransformMode::Idle => DeltaTerms { position: zero, rotation: zero, scale: zero },
            TransformMode::Grab => DeltaTerms {
                position: if self.axis == AxisConstraint::Free {
                    [DeltaTerm::WorldX, DeltaTerm::WorldY, DeltaTerm::WorldZ]
                } else {
                    world_axis_terms(self.axis)
                },
                rotation: zero,
                scale: zero,
            },
            TransformMode::Rotate => DeltaTerms {
                position: zero,
                rotation: if self.axis == AxisConstraint::Free {
                    [DeltaTerm::MouseY, DeltaTerm::MouseX, DeltaTerm::Zero]
                } else {
                    axis_terms(self.axis)
                },
                scale: zero,
            },
            TransformMode::Scale => DeltaTerms {
                position: zero,
                rotation: zero,
                scale: if self.axis == AxisConstraint::Free {
                    [DeltaTerm::Combined, DeltaTerm::Combined, DeltaTerm::Combined]
                } else {
                    axis_terms(self.axis)
                },
            },
        }
    }
}

/// The index (0, 1, 2) of a constrained axis.
pub open spec fn axis_index(axis: AxisConstraint) -> int {
    match axis {
        AxisConstraint::X => 0,
        AxisConstraint::Y => 1,
        _ => 2,
    }
}

/// With an axis constraint, a transform changes only the constrained
/// component of the channel of its mode; idle, nothing changes at all. A
/// constrained grab moves along its axis by the world-space component of
/// the camera-plane movement on that axis.
pub proof fn lemma_constraint_moves_one_axis(mode: TransformMode, axis: AxisConstraint, k: int)
    requires
        0 <= k < 3,
    ensures
        mode == TransformMode::Idle ==> delta_terms_of(mode, axis).position[k] == DeltaTerm::Zero
            && delta_terms_of(mode, axis).rotation[k] == DeltaTerm::Zero && delta_terms_of(
            mode,
            axis,
        ).scale[k] == DeltaTerm::Zero,
        axis != AxisConstraint::Free && k != axis_index(axis) ==> delta_terms_of(
            mode,
            axis,
        ).position[k] == DeltaTerm::Zero && delta_terms_of(mode, axis).rotation[k]
            == DeltaTerm::Zero && delta_terms_of(mode, axis).scale[k] == DeltaTerm::Zero,
        mode != TransformMode::Grab ==> delta_terms_of(mode, axis).position[k] == DeltaTerm::Zero,
        mode != TransformMode::Rotate ==> delta_terms_of(mode, axis).rotation[k] == DeltaTerm::Zero,
        mode != TransformMode::Scale ==> delta_terms_of(mode, axis).scale[k] == DeltaTerm::Zero,
        mode == TransformMode::Grab && axis == AxisConstraint::X ==> delta_terms_of(
            mode,
            axis,
        ).position[0] == DeltaTerm::WorldX,
        mode == TransformMode::Grab && axis == AxisConstraint::Y ==> delta_terms_of(
            mode,
            axis,
        ).position[1] == DeltaTerm::WorldY,
        mode == TransformMode::Grab && axis == AxisConstraint::Z ==> delta_terms_of(
            mode,
            axis,
        ).position[2] == DeltaTerm::WorldZ,
{
}

/// What each mode does with the mouse. A grab follows the camera-plane
/// movement (all three world components when free, the component of the
/// constrained axis otherwise). A rotation turns about Y for horizontal and
/// about X for vertical movement when free, and about the constrained axis by
/// the horizontal minus the vertical movement otherwise. A scale grows by that
/// same combined movement, on all three axes when free and on the constrained
/// axis otherwise.
pub proof fn lemma_mode_moves_its_channel(mode: TransformMode, axis: AxisConstraint)
    ensures
        mode == TransformMode::Grab && axis == AxisConstraint::Free ==> delta_terms_of(
            mode,
            axis,
        ).position == [DeltaTerm::WorldX, DeltaTerm::WorldY, DeltaTerm::WorldZ],
        mode == TransformMode::Rotate && axis == AxisConstraint::Free ==> delta_terms_of(
            mode,
            axis,
        ).rotation == [DeltaTerm::MouseY, DeltaTerm::MouseX, DeltaTerm::Zero],
        mode == TransformMode::Scale && axis == AxisConstraint::Free ==> delta_terms_of(
            mode,
            axis,
        ).scale == [DeltaTerm::Combined, DeltaTerm::Combined, DeltaTerm::Combined],
        mode == TransformMode::Rotate && axis != AxisConstraint::Free ==> delta_terms_of(
            mode,
            axis,
        ).rotation[axis_index(axis)] == DeltaTerm::Combined,
        mode == TransformMode::Scale && axis != AxisConstraint::Free ==> delta_terms_of(
            mode,
            axis,
        ).scale[axis_index(axis)] == DeltaTerm::Combined,
        mode == TransformMode::Grab && axis != AxisConstraint::Free ==> delta_terms_of(
            mode,
            axis,
        ).position[axis_index(axis)] == (if axis == AxisConstraint::X {
            DeltaTerm::WorldX
        } else if axis == AxisConstraint::Y {
            DeltaTerm::WorldY
        } else {
            DeltaTerm::WorldZ
        }),
{
}

} // verus!
