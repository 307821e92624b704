//! The viewport's reaction to mouse buttons and the Tab key: what a click
//! selects, which drag it starts and ends, and when the panels toggle.
//! Hit testing itself is floating point and is done by the caller, which
//! hands the result in.
use vstd::prelude::*;
use crate::input::PointerButton;

verus! {

/// How a drag in the viewport moves the selected object.
#[derive(Debug, Clone, Copy, PartialEq, Eq, Structural)]
pub enum DragMode {
    Translate,
    Rotate,
}

/// What a drag in progress moves.
#[derive(Debug, Clone, Copy, PartialEq, Eq, Structural)]
pub enum DragTarget {
    /// The particle emitter, which is being manipulated.
    Emitter(DragMode),
    /// The selected user model.
    Model(u32, DragMode),
    /// Nothing: no drag, or nothing to move.
    Nothing,
}

/// Left drags translate, right drags rotate.
pub open spec fn drag_mode_of(button: PointerButton) -> DragMode {
    if button == PointerButton::Left {
        DragMode::Translate
    } else {
        DragMode::Rotate
    }
}

/// Only the left and right buttons select and drag.
pub open spec fn is_drag_button(button: PointerButton) -> bool {
    button == PointerButton::Left || button == PointerButton::Right
}

/// Viewport interaction state kept between window events.
#[derive(Debug, Clone, Copy, PartialEq, Eq, Structural)]
pub struct Interaction {
    /// Whether Tab is down, so that a held key toggles only once.
    pub tab_was_pressed: bool,
    /// The drag in progress, if any.
    pub active_drag_mode: Option<DragMode>,
}

/// The state after a Tab key event: `(tab_was_pressed, panel_visible)`.
pub open spec fn tab_result(tab_was_pressed: bool, pressed: bool, panel_visible: bool) -> (bool, bool) {
    if pressed && !tab_was_pressed {
        (true, !panel_visible)
    } else if !pressed {
        (false, panel_visible)
    } else {
        (tab_was_pressed, panel_visible)
    }
}

/// The state after a button press in the viewport: `(drag, selection)`.
/// `hit` is the model under the pointer (looked up only when the emitter is
/// not being manipulated).
pub open spec fn press_result(
    drag: Option<DragMode>,
    selected: Option<u32>,
    button: PointerButton,
    emitter_selected: bool,
    hit: Option<u32>,
) -> (Option<DragMode>, Option<u32>) {
    if !is_drag_button(button) {
        (drag, selected)
    } else if emitter_selected {
        (Some(drag_mode_of(button)), selected)
    } else {
        match hit {
            Some(g) => (Some(drag_mode_of(button)), Some(g)),
            None => (None, if button == PointerButton::Left { None } else { selected }),
        }
    }
}

/// The drag after a button release: releasing the button that started a
/// drag ends it.
pub open spec fn release_result(drag: Option<DragMode>, button: PointerButton) -> Option<DragMode> {
    if button == PointerButton::Left && drag == Some(DragMode::Translate) {
        None
    } else if button == PointerButton::Right && drag == Some(DragMode::Rotate) {
        None
    } else {
        drag
    }
}

/// What pointer motion moves, given the drag in progress.
pub open spec fn drag_target_of(
    drag: Option<DragMode>,
    emitter_selected: bool,
    selected: Option<u32>,
) -> DragTarget {
    match drag {
        None => DragTarget::Nothing,
        Some(mode) => if emitter_selected {
            DragTarget::Emitter(mode)
        } else {
            match selected {
                Some(g) => DragTarget::Model(g, mode),
                None => DragTarget::Nothing,
            }
        },
    }
}

impl Interaction {
    pub fn new() -> (res: Self)
        ensures
            !res.tab_was_pressed,
            res.active_drag_mode is None,
    {
        Interaction { tab_was_pressed: false, active_drag_mode: None }
    }

    /// A Tab key event: a fresh press toggles the panels, a release rearms.
    pub fn on_tab(&mut self, pressed: bool, panel_visible: &mut bool)
        ensures
            (final(self).tab_was_pressed, *final(panel_visible)) == tab_result(
                old(self).tab_was_pressed,
                pressed,
                *old(panel_visible),
            ),
            final(self).active_drag_mode == old(self).active_drag_mode,
    {
        if pressed && !self.tab_was_pressed {
            *panel_visible = !*panel_visible;
            self.tab_was_pressed = true;
        }
        if !pressed {
            self.tab_was_pressed = false;
        }
    }

    /// Whether a press of `button` needs the model under the pointer.
    pub fn needs_pick(button: PointerButton, emitter_selected: bool) -> (res: bool)
        ensures
            res == (is_drag_button(button) && !emitter_selected),
    {
        (button == PointerButton::Left || button == PointerButton::Right) && !emitter_selected
    }

    /// A button press in the viewport: start a drag on the emitter or on the
    /// model hit, select that model, or (left button on empty space) clear
    /// the selection.
    pub fn on_mouse_press(
        &mut self,
        button: PointerButton,
        emitter_selected: bool,
        hit: Option<u32>,
        selected: &mut Option<u32>,
    )
        ensures
            (final(self).active_drag_mode, *final(selected)) == press_result(
                old(self).active_drag_mode,
                *old(selected),
                button,
                emitter_selected,
                hit,
            ),
            final(self).tab_was_pressed == old(self).tab_was_pressed,
    {
        if button == PointerButton::Left || button == PointerButton::Right {
            let mode = if button == PointerButton::Left {
                DragMode::Translate
            } else {
                DragMode::Rotate
            };
            if emitter_selected {
                self.active_drag_mode = Some(mode);
            } else {
                match hit {
                    Some(gid) => {
                        *selected = Some(gid);
                        self.active_drag_mode = Some(mode);
                    },
                    None => {
                        if button == PointerButton::Left {
                            *selected = None;
                        }
                        self.active_drag_mode = None;
                    },
                }
            }
        }
    }

    /// A button release in the viewport: ends the drag that the same button
    /// started.
    pub fn on_mouse_release(&mut self, button: PointerButton)
        ensures
            final(self).active_drag_mode == release_result(old(self).active_drag_mode, button),
            final(self).tab_was_pressed == old(self).tab_was_pressed,
    {
        if button == PointerButton::Left && self.active_drag_mode == Some(DragMode::Translate) {
            self.active_drag_mode = None;
        }
        if button == PointerButton::Right && self.active_drag_mode == Some(DragMode::Rotate) {
            self.active_drag_mode = None;
        }
    }

    /// What pointer motion moves right now.
    pub fn drag_target(&self, emitter_selected: bool, selected: Option<u32>) -> (res: DragTarget)
        ensures
            res == drag_target_of(self.active_drag_mode, emitter_selected, selected),
    {
        match self.active_drag_mode {
            None => DragTarget::Nothing,
            Some(mode) => if emitter_selected {
                DragTarget::Emitter(mode)
            } else {
                match selected {
                    Some(g) => DragTarget::Model(g, mode),
                    None => DragTarget::Nothing,
                }
            },
        }
    }

    /// The orbit camera follows the input only while no drag is in progress.
    pub fn camera_follows_input(&self) -> (res: bool)
        ensures
            res == (self.active_drag_mode is None),
    {
        self.active_drag_mode.is_none()
    }
}

/// Pressing and then releasing the same left or right button always ends
/// with no drag in progress, whatever was selected or hit.
pub proof fn lemma_click_ends_drag(
    drag: Option<DragMode>,
    selected: Option<u32>,
    button: PointerButton,
    emitter_selected: bool,
    hit: Option<u32>,
)
    requires
        is_drag_button(button),
    ensures
        release_result(press_result(drag, selected, button, emitter_selected, hit).0, button) is None,
{
}

/// Clicking a model (while the emitter is not manipulated) selects it; a
/// left click on empty space clears the selection, a right click keeps it.
pub proof fn lemma_click_selection(
    drag: Option<DragMode>,
    selected: Option<u32>,
    button: PointerButton,
    hit: Option<u32>,
)
    requires
        is_drag_button(button),
    ensures
        hit is Some ==> press_result(drag, selected, button, false, hit).1 == hit,
        hit is None && button == PointerButton::Left ==> press_result(drag, selected, button, false, hit).1 is None,
        hit is None && button == PointerButton::Right ==> press_result(drag, selected, button, false, hit).1 == selected,
{
}

/// While the emitter is manipulated, clicks never change the selection.
pub proof fn lemma_emitter_keeps_selection(
    drag: Option<DragMode>,
    selected: Option<u32>,
    button: PointerButton,
    hit: Option<u32>,
)
    ensures
        press_result(drag, selected, button, true, hit).1 == selected,
{
}

/// Holding Tab (a press followed by any number of repeated presses) and
/// releasing it toggles the panels exactly once and rearms the key.
pub proof fn lemma_tab_toggles_once(panel_visible: bool, repeats: nat)
    ensures
        ({
            let first = tab_result(false, true, panel_visible);
            let held = tab_repeat(first, repeats);
            tab_result(held.0, false, held.1) == (false, !panel_visible)
        }),
{
    lemma_tab_repeat_holds(panel_visible, repeats);
}

/// `repeats` further presses of a held Tab key.
pub open spec fn tab_repeat(state: (bool, bool), repeats: nat) -> (bool, bool)
    decreases repeats,
{
    if repeats == 0 {
        state
    } else {
        tab_result(tab_repeat(state, (repeats - 1) as nat).0, true, tab_repeat(state, (repeats - 1) as nat).1)
    }
}

proof fn lemma_tab_repeat_holds(panel_visible: bool, repeats: nat)
    ensures
        tab_repeat((true, !panel_visible), repeats) == (true, !panel_visible),
    decreases repeats,
{
    if repeats > 0 {
        lemma_tab_repeat_holds(panel_visible, (repeats - 1) as nat);
    }
}

/// A left or right press that hits no model, while the emitter is not
/// manipulated, never starts a drag: the camera keeps following the mouse.
/// A press on a model, or on anything while the emitter is manipulated,
/// starts a drag that translates for the left button and rotates for the
/// right one.
pub proof fn lemma_press_drag_mode(
    drag: Option<DragMode>,
    selected: Option<u32>,
    button: PointerButton,
    emitter_selected: bool,
    hit: Option<u32>,
)
    requires
        is_drag_button(button),
    ensures
        !emitter_selected && hit is None ==> press_result(drag, selected, button, false, None).0 is None,
        (emitter_selected || hit is Some) && button == PointerButton::Left ==> press_result(
            drag,
            selected,
            button,
            emitter_selected,
            hit,
        ).0 == Some(DragMode::Translate),
        (emitter_selected || hit is Some) && button == PointerButton::Right ==> press_result(
            drag,
            selected,
            button,
            emitter_selected,
            hit,
        ).0 == Some(DragMode::Rotate),
{
}

/// What a drag moves keeps the mode of the drag in progress: the emitter
/// while it is manipulated, else the selected model, and nothing when no drag
/// is in progress or nothing is selected.
pub proof fn lemma_drag_target_keeps_mode(
    drag: Option<DragMode>,
    emitter_selected: bool,
    selected: Option<u32>,
)
    ensures
        drag is None ==> drag_target_of(drag, emitter_selected, selected) == DragTarget::Nothing,
        drag is Some && emitter_selected ==> drag_target_of(drag, emitter_selected, selected)
            == DragTarget::Emitter(drag->0),
        drag is Some && !emitter_selected && selected is Some ==> drag_target_of(
            drag,
            emitter_selected,
            selected,
        ) == DragTarget::Model(selected->0, drag->0),
        !emitter_selected && selected is None ==> drag_target_of(drag, emitter_selected, selected)
            == DragTarget::Nothing,
{
}

/// Pressing the left button on a model and then moving the pointer moves that
/// model; pressing the right button on it rotates it.
pub proof fn lemma_press_then_drag_model(
    drag: Option<DragMode>,
    selected: Option<u32>,
    button: PointerButton,
    g: u32,
)
    requires
        is_drag_button(button),
    ensures
        ({
            let (d, s) = press_result(drag, selected, button, false, Some(g));
            drag_target_of(d, false, s) == DragTarget::Model(
                g,
                if button == PointerButton::Left {
                    DragMode::Translate
                } else {
                    DragMode::Rotate
                },
            )
        }),
{
}

} // verus!
