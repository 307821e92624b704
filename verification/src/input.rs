//! Discrete keyboard and mouse state tracked from frame to frame: which keys
//! and buttons are held, double-click detection, and the camera actions
//! that the held inputs ask for. Pointer motion and scrolling are floating
//! point and are tracked beside this state by the application.
use std::collections::HashSet;
use vstd::prelude::*;

verus! {

/// The keys that the viewport reacts to.
#[derive(Debug, Clone, Copy, PartialEq, Eq, Structural)]
pub enum Key {
    KeyW,
    KeyA,
    KeyS,
    KeyD,
    KeyQ,
    KeyE,
    Space,
    ControlLeft,
    ShiftLeft,
    ShiftRight,
    ArrowUp,
    ArrowDown,
    ArrowLeft,
    ArrowRight,
    Home,
    Tab,
}

/// A mouse button.
#[derive(Debug, Clone, Copy, PartialEq, Eq, Structural)]
pub enum PointerButton {
    Left,
    Right,
    Middle,
    Back,
    Forward,
    Other(u16),
}

/// Two presses of the same button closer than this many nanoseconds
/// (300 ms) make a double click.
pub const DOUBLE_CLICK_NANOS: u64 = 300_000_000;

/// Number that stands for a key in the set of held keys.
pub open spec fn key_code(key: Key) -> u32 {
    match key {
        Key::KeyW => 0,
        Key::KeyA => 1,
        Key::KeyS => 2,
        Key::KeyD => 3,
        Key::KeyQ => 4,
        Key::KeyE => 5,
        Key::Space => 6,
        Key::ControlLeft => 7,
        Key::ShiftLeft => 8,
        Key::ShiftRight => 9,
        Key::ArrowUp => 10,
        Key::ArrowDown => 11,
        Key::ArrowLeft => 12,
        Key::ArrowRight => 13,
        Key::Home => 14,
        Key::Tab => 15,
    }
}

fn code_of_key(key: Key) -> (res: u32)
    ensures
        res == key_code(key),
{
    match key {
        Key::KeyW => 0,
        Key::KeyA => 1,
        Key::KeyS => 2,
        Key::KeyD => 3,
        Key::KeyQ => 4,
        Key::KeyE => 5,
        Key::Space => 6,
        Key::ControlLeft => 7,
        Key::ShiftLeft => 8,
        Key::ShiftRight => 9,
        Key::ArrowUp => 10,
        Key::ArrowDown => 11,
        Key::ArrowLeft => 12,
        Key::ArrowRight => 13,
        Key::Home => 14,
        Key::Tab => 15,
    }
}

/// Number that stands for a mouse button in the set of held buttons.
pub open spec fn button_code(button: PointerButton) -> u32 {
    match button {
        PointerButton::Left => 0,
        PointerButton::Right => 1,
        PointerButton::Middle => 2,
        PointerButton::Back => 3,
        PointerButton::Forward => 4,
        PointerButton::Other(n) => (5 + n) as u32,
    }
}

fn code_of_button(button: PointerButton) -> (res: u32)
    ensures
        res == button_code(button),
{
    match button {
        PointerButton::Left => 0,
        PointerButton::Right => 1,
        PointerButton::Middle => 2,
        PointerButton::Back => 3,
        PointerButton::Forward => 4,
        PointerButton::Other(n) => 5 + n as u32,
    }
}

proof fn lemma_codes_injective()
    ensures
        forall|a: Key, b: Key| key_code(a) == key_code(b) ==> a == b,
        forall|a: PointerButton, b: PointerButton| button_code(a) == button_code(b) ==> a == b,
{
}

/// Tracks the held keys and buttons and the last click.
pub struct InputState {
    keys_pressed: HashSet<u32>,
    mouse_buttons: HashSet<u32>,
    double_click_detected: bool,
    last_click_time: Option<u64>,
    last_click_button: Option<PointerButton>,
}

/// The camera actions asked for by the held inputs in one frame.
#[derive(Debug, Clone, Copy, PartialEq, Eq, Structural)]
pub struct CameraIntent {
    /// Double click or Home: go back to the home view (and do nothing else).
    pub reset: bool,
    /// Left button without Shift: orbit around the target.
    pub orbiting: bool,
    /// Right or middle button, or Shift with the left button: pan.
    pub panning: bool,
    /// +1 forward (W or Up), -1 back (S or Down), 0 both or neither.
    pub fly_forward: i8,
    /// +1 right (D or Right), -1 left (A or Left), 0 both or neither.
    pub fly_right: i8,
    /// +1 up (E or Space), -1 down (Q or left Ctrl), 0 both or neither.
    pub fly_up: i8,
}

/// Whether a press of `button` at `now` completes a double click, given the
/// previous click. A clock that went backwards counts as no time elapsed.
pub open spec fn is_double_click(
    last_time: Option<u64>,
    last_button: Option<PointerButton>,
    button: PointerButton,
    now: u64,
) -> bool {
    match (last_time, last_button) {
        (Some(t), Some(b)) => b == button && (if now >= t {
            now - t
        } else {
            0
        }) < DOUBLE_CLICK_NANOS,
        _ => false,
    }
}

/// `+1`, `-1` or `0` for a pair of opposite directions.
pub open spec fn axis_sign(positive: bool, negative: bool) -> i8 {
    (if positive { 1int } else { 0int } - if negative { 1int } else { 0int }) as i8
}

impl InputState {
    /// The keys currently held.
    pub closed spec fn keys(&self) -> Set<Key> {
        Set::new(|k: Key| self.keys_pressed@.contains(key_code(k)))
    }

    /// The mouse buttons currently held.
    pub closed spec fn buttons(&self) -> Set<PointerButton> {
        Set::new(|b: PointerButton| self.mouse_buttons@.contains(button_code(b)))
    }

    /// Whether a double click happened since the frame began.
    pub closed spec fn double_click(&self) -> bool {
        self.double_click_detected
    }

    /// Time of the last button press.
    pub closed spec fn last_click_time(&self) -> Option<u64> {
        self.last_click_time
    }

    /// Button of the last press.
    pub closed spec fn last_click_button(&self) -> Option<PointerButton> {
        self.last_click_button
    }

    /// Whether Shift (either side) is held.
    pub open spec fn shift_held(&self) -> bool {
        self.keys().contains(Key::ShiftLeft) || self.keys().contains(Key::ShiftRight)
    }

    /// The camera actions that the held inputs ask for.
    pub open spec fn intent(&self) -> CameraIntent {
        let keys = self.keys();
        let left = self.buttons().contains(PointerButton::Left);
        CameraIntent {
            reset: self.double_click() || keys.contains(Key::Home),
            orbiting: left && !self.shift_held(),
            panning: self.buttons().contains(PointerButton::Right) || self.buttons().contains(
                PointerButton::Middle,
            ) || (left && self.shift_held()),
            fly_forward: axis_sign(
                keys.contains(Key::KeyW) || keys.contains(Key::ArrowUp),
                keys.contains(Key::KeyS) || keys.contains(Key::ArrowDown),
            ),
            fly_right: axis_sign(
                keys.contains(Key::KeyD) || keys.contains(Key::ArrowRight),
                keys.contains(Key::KeyA) || keys.contains(Key::ArrowLeft),
            ),
            fly_up: axis_sign(
                keys.contains(Key::KeyE) || keys.contains(Key::Space),
                keys.contains(Key::KeyQ) || keys.contains(Key::ControlLeft),
            ),
        }
    }

    pub fn new() -> (res: Self)
        ensures
            res.keys() == Set::<Key>::empty(),
            res.buttons() == Set::<PointerButton>::empty(),
            !res.double_click(),
            res.last_click_time() is None,
            res.last_click_button() is None,
    {
        let res = InputState {
            keys_pressed: HashSet::new(),
            mouse_buttons: HashSet::new(),
            double_click_detected: false,
            last_click_time: None,
            last_click_button: None,
        };
        proof {
            assert(res.keys() =~= Set::<Key>::empty());
            assert(res.buttons() =~= Set::<PointerButton>::empty());
        }
        res
    }

    /// Start a new frame: forget the double click of the last frame.
    pub fn begin_frame(&mut self)
        ensures
            final(self).keys() == old(self).keys(),
            final(self).buttons() == old(self).buttons(),
            !final(self).double_click(),
            final(self).last_click_time() == old(self).last_click_time(),
            final(self).last_click_button() == old(self).last_click_button(),
    {
        self.double_click_detected = false;
    }

    /// Record a key going down (`pressed`) or up.
    pub fn process_key(&mut self, key: Key, pressed: bool)
        ensures
            final(self).keys() == (if pressed {
                old(self).keys().insert(key)
            } else {
                old(self).keys().remove(key)
            }),
            final(self).buttons() == old(self).buttons(),
            final(self).double_click() == old(self).double_click(),
            final(self).last_click_time() == old(self).last_click_time(),
            final(self).last_click_button() == old(self).last_click_button(),
    {
        broadcast use vstd::std_specs::hash::group_hash_axioms;
        let code = code_of_key(key);
        if pressed {
            self.keys_pressed.insert(code);
        } else {
            self.keys_pressed.remove(&code);
        }
        proof {
            lemma_codes_injective();
            if pressed {
                assert(self.keys() =~= old(self).keys().insert(key));
            } else {
                assert(self.keys() =~= old(self).keys().remove(key));
            }
        }
    }

    /// Record a mouse button going down (`pressed`) or up at time `now`
    /// (nanoseconds on a monotonic clock). A press of the same button as the
    /// last press, less than 300 ms later, is a double click.
    pub fn process_mouse_button(&mut self, button: PointerButton, pressed: bool, now: u64)
        ensures
            final(self).keys() == old(self).keys(),
            pressed ==> {
                &&& final(self).buttons() == old(self).buttons().insert(button)
                &&& final(self).double_click() == (old(self).double_click() || is_double_click(
                    old(self).last_click_time(),
                    old(self).last_click_button(),
                    button,
                    now,
                ))
                &&& final(self).last_click_time() == Some(now)
                &&& final(self).last_click_button() == Some(button)
            },
            !pressed ==> {
                &&& final(self).buttons() == old(self).buttons().remove(button)
                &&& final(self).double_click() == old(self).double_click()
                &&& final(self).last_click_time() == old(self).last_click_time()
                &&& final(self).last_click_button() == old(self).last_click_button()
            },
    {
        broadcast use vstd::std_specs::hash::group_hash_axioms;
        let code = code_of_button(button);
        if pressed {
            match (self.last_click_time, self.last_click_button) {
                (Some(last_time), Some(last_btn)) => {
                    if last_btn == button && now.saturating_sub(last_time) < DOUBLE_CLICK_NANOS {
                        self.double_click_detected = true;
                    }
                },
                _ => {},
            }
            self.last_click_time = Some(now);
            self.last_click_button = Some(button);
            self.mouse_buttons.insert(code);
        } else {
            self.mouse_buttons.remove(&code);
        }
        proof {
            lemma_codes_injective();
            if pressed {
                assert(self.buttons() =~= old(self).buttons().insert(button));
            } else {
                assert(self.buttons() =~= old(self).buttons().remove(button));
            }
        }
    }

    pub fn is_key_pressed(&self, key: Key) -> (res: bool)
        ensures
            res == self.keys().contains(key),
    {
        broadcast use vstd::std_specs::hash::group_hash_axioms;
        self.keys_pressed.contains(&code_of_key(key))
    }

    pub fn is_mouse_button_pressed(&self, button: PointerButton) -> (res: bool)
        ensures
            res == self.buttons().contains(button),
    {
        broadcast use vstd::std_specs::hash::group_hash_axioms;
        self.mouse_buttons.contains(&code_of_button(button))
    }

    /// Whether Shift (either side) is held.
    pub fn is_shift_held(&self) -> (res: bool)
        ensures
            res == self.shift_held(),
    {
        self.is_key_pressed(Key::ShiftLeft) || self.is_key_pressed(Key::ShiftRight)
    }

    /// Whether a double click happened since the frame began.
    pub fn double_click_detected(&self) -> (res: bool)
        ensures
            res == self.double_click(),
    {
        self.double_click_detected
    }

    /// The camera actions that the held inputs ask for this frame.
    pub fn camera_intent(&self) -> (res: CameraIntent)
        ensures
            res == self.intent(),
    {
        let left = self.is_mouse_button_pressed(PointerButton::Left);
        let right = self.is_mouse_button_pressed(PointerButton::Right);
        let middle = self.is_mouse_button_pressed(PointerButton::Middle);
        let shift = self.is_shift_held();
        let forward = self.is_key_pressed(Key::KeyW) || self.is_key_pressed(Key::ArrowUp);
        let back = self.is_key_pressed(Key::KeyS) || self.is_key_pressed(Key::ArrowDown);
        let go_right = self.is_key_pressed(Key::KeyD) || self.is_key_pressed(Key::ArrowRight);
        let go_left = self.is_key_pressed(Key::KeyA) || self.is_key_pressed(Key::ArrowLeft);
        let up = self.is_key_pressed(Key::KeyE) || self.is_key_pressed(Key::Space);
        let down = self.is_key_pressed(Key::KeyQ) || self.is_key_pressed(Key::ControlLeft);
        CameraIntent {
            reset: self.double_click_detected || self.is_key_pressed(Key::Home),
            orbiting: left && !shift,
            panning: right || middle || (left && shift),
            fly_forward: sign(forward, back),
            fly_right: sign(go_right, go_left),
            fly_up: sign(up, down),
        }
    }
}

fn sign(positive: bool, negative: bool) -> (res: i8)
    ensures
        res == axis_sign(positive, negative),
{
    (if positive { 1i8 } else { 0i8 }) - (if negative { 1i8 } else { 0i8 })
}

/// Pressing a key that was not held and releasing it again leaves the set of
/// held keys as it was; releasing a key that is not held changes nothing.
pub proof fn lemma_press_release_restores_keys(keys: Set<Key>, key: Key)
    requires
        !keys.contains(key),
    ensures
        keys.insert(key).remove(key) == keys,
        keys.remove(key) == keys,
{
    assert(keys.insert(key).remove(key) =~= keys);
    assert(keys.remove(key) =~= keys);
}

/// A double click takes two presses of the same button.
pub proof fn lemma_double_click_same_button(
    last_time: Option<u64>,
    last_button: Option<PointerButton>,
    button: PointerButton,
    now: u64,
)
    requires
        is_double_click(last_time, last_button, button, now),
    ensures
        last_button == Some(button),
        last_time is Some,
{
}

/// A second press of the same button within 300 ms of the first is a double
/// click; one 300 ms or more later is not.
pub proof fn lemma_double_click_window(last: u64, button: PointerButton, now: u64)
    requires
        last <= now,
    ensures
        is_double_click(Some(last), Some(button), button, now) == (now - last < DOUBLE_CLICK_NANOS),
{
}

/// Flying: W or Up flies forward and S or Down back, D or Right flies right
/// and A or Left left, E or Space flies up and Q or left Ctrl down; when both
/// directions of an axis are held, or neither, that axis stays still.
pub proof fn lemma_fly_keys(s: InputState)
    ensures
        ({
            let k = s.keys();
            let fwd = k.contains(Key::KeyW) || k.contains(Key::ArrowUp);
            let back = k.contains(Key::KeyS) || k.contains(Key::ArrowDown);
            let right = k.contains(Key::KeyD) || k.contains(Key::ArrowRight);
            let left = k.contains(Key::KeyA) || k.contains(Key::ArrowLeft);
            let up = k.contains(Key::KeyE) || k.contains(Key::Space);
            let down = k.contains(Key::KeyQ) || k.contains(Key::ControlLeft);
            &&& s.intent().fly_forward == (if fwd && !back {
                1i8
            } else if back && !fwd {
                -1i8
            } else {
                0i8
            })
            &&& s.intent().fly_right == (if right && !left {
                1i8
            } else if left && !right {
                -1i8
            } else {
                0i8
            })
            &&& s.intent().fly_up == (if up && !down {
                1i8
            } else if down && !up {
                -1i8
            } else {
                0i8
            })
        }),
{
}

/// A double click or the Home key asks for the home view; the left button
/// orbits unless Shift is held, in which case it pans, as do the right and
/// middle buttons.
pub proof fn lemma_camera_buttons(s: InputState)
    ensures
        s.intent().reset == (s.double_click() || s.keys().contains(Key::Home)),
        s.buttons().contains(PointerButton::Left) && !s.keys().contains(Key::ShiftLeft)
            && !s.keys().contains(Key::ShiftRight) ==> s.intent().orbiting,
        s.buttons().contains(PointerButton::Left) && !s.keys().contains(Key::ShiftLeft)
            && !s.keys().contains(Key::ShiftRight) && !s.buttons().contains(PointerButton::Right)
            && !s.buttons().contains(PointerButton::Middle) ==> !s.intent().panning,
        s.buttons().contains(PointerButton::Left) && (s.keys().contains(Key::ShiftLeft)
            || s.keys().contains(Key::ShiftRight)) ==> !s.intent().orbiting && s.intent().panning,
        s.buttons().contains(PointerButton::Right) || s.buttons().contains(PointerButton::Middle)
            ==> s.intent().panning,
        !s.buttons().contains(PointerButton::Left) ==> !s.intent().orbiting,
        !s.buttons().contains(PointerButton::Left) && !s.buttons().contains(PointerButton::Right)
            && !s.buttons().contains(PointerButton::Middle) ==> !s.intent().panning,
{
}

} // verus!
