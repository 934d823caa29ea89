//! The decisions of user input that need no window system.

use vstd::prelude::*;

verus! {

/// A mouse button as DirectInput reports it.
#[derive(Debug, Clone, Copy, PartialEq, Eq, Structural)]
pub enum MouseButton {
    Left,
    Right,
    Middle,
}

/// The button that a press stands for when the user swapped the buttons:
/// left and right trade places, the middle button stays.
pub open spec fn spec_effective_button(btn: MouseButton, swap: bool) -> MouseButton {
    if swap {
        match btn {
            MouseButton::Left => MouseButton::Right,
            MouseButton::Right => MouseButton::Left,
            MouseButton::Middle => MouseButton::Middle,
        }
    } else {
        btn
    }
}

/// The button that a press stands for, as `process_mouse_button` maps it.
pub fn effective_button(btn: MouseButton, swap: bool) -> (r: MouseButton)
    ensures
        r == spec_effective_button(btn, swap),
{
    if swap {
        match btn {
            MouseButton::Left => MouseButton::Right,
            MouseButton::Right => MouseButton::Left,
            MouseButton::Middle => MouseButton::Middle,
        }
    } else {
        btn
    }
}

/// Swapping twice gives the button back.
pub proof fn lemma_swap_twice(btn: MouseButton, swap: bool)
    ensures
        spec_effective_button(spec_effective_button(btn, swap), swap) == btn,
{
}

/// `VK_SNAPSHOT` (Print Screen).
pub const VK_SNAPSHOT: u16 = 0x2C;
/// `VK_F1`.
pub const VK_F1: u16 = 0x70;
/// `VK_F4`.
pub const VK_F4: u16 = 0x73;
/// `VK_F8`.
pub const VK_F8: u16 = 0x77;
/// `VK_F11`.
pub const VK_F11: u16 = 0x7A;

/// Whether a key press may reach the accelerator table: only F1, F4, F8,
/// F11 and Print Screen do.
pub fn accelerator_key_allowed(v_key: u16) -> (r: bool)
    ensures
        r == (v_key == VK_F1 || v_key == VK_F4 || v_key == VK_F8 || v_key == VK_F11 || v_key
            == VK_SNAPSHOT),
{
    v_key == VK_F1 || v_key == VK_F4 || v_key == VK_F8 || v_key == VK_F11 || v_key == VK_SNAPSHOT
}


/// DirectInput's scan code of the left Alt key.
pub const DIK_LMENU: usize = 0x38;
/// DirectInput's scan code of the right Alt key.
pub const DIK_RMENU: usize = 0xB8;

/// Whether an Alt key is down in a DirectInput keyboard state, where a key
/// is down when the high bit of its byte is set.
pub fn alt_held(keys: &[u8; 256]) -> (r: bool)
    ensures
        r == (keys@[DIK_LMENU as int] >= 0x80 || keys@[DIK_RMENU as int] >= 0x80),
{
    keys[DIK_LMENU] >= 0x80 || keys[DIK_RMENU] >= 0x80
}

/// What a key press does.
#[derive(Debug, Clone, Copy, PartialEq, Eq, Structural)]
pub enum KeyPressAction {
    /// Alt+F4: the window is closed.
    Close,
    /// The key goes to the accelerator table.
    Accelerator,
    /// The key is kept from the accelerator table.
    Suppressed,
}

/// The action for a pressed virtual key with Alt held or not: keys outside
/// the accelerator whitelist are suppressed, Alt+F4 closes the window, and
/// the other whitelisted keys go to the accelerator table.
pub fn key_press_action(v_key: u16, alt: bool) -> (r: KeyPressAction)
    ensures
        r == (if !(v_key == VK_F1 || v_key == VK_F4 || v_key == VK_F8 || v_key == VK_F11 || v_key
            == VK_SNAPSHOT) {
            KeyPressAction::Suppressed
        } else if v_key == VK_F4 && alt {
            KeyPressAction::Close
        } else {
            KeyPressAction::Accelerator
        }),
{
    if !accelerator_key_allowed(v_key) {
        KeyPressAction::Suppressed
    } else if v_key == VK_F4 && alt {
        KeyPressAction::Close
    } else {
        KeyPressAction::Accelerator
    }
}

/// Whether a DirectInput device should be acquired, released, or left as it is.
#[derive(Debug, Clone, Copy, PartialEq, Eq, Structural)]
pub enum DeviceChange {
    Keep,
    Acquire,
    Release,
}

/// The mouse and keyboard state of `UserInput`, without the devices.
#[derive(Debug, Clone, Copy, PartialEq, Eq, Structural)]
pub struct InputState {
    pub is_mouse_captured: bool,
    pub is_mouse_inside: bool,
    pub is_mouse_acquired: bool,
    pub right_mouse_down: bool,
    pub left_mouse_button_down: bool,
    pub auto_mouse_move: bool,
    pub mouse_button_swap: bool,
    pub is_keyboard_acquired: bool,
    pub desire_keyboard_acquired: bool,
}

/// The state of a freshly made `UserInput`.
pub open spec fn initial_input_state(mouse_button_swap: bool) -> InputState {
    InputState {
        is_mouse_captured: false,
        is_mouse_inside: false,
        is_mouse_acquired: false,
        right_mouse_down: false,
        left_mouse_button_down: false,
        auto_mouse_move: true,
        mouse_button_swap,
        is_keyboard_acquired: false,
        desire_keyboard_acquired: false,
    }
}

/// What `update_keyboard` does to the keyboard: nothing when it is acquired
/// exactly when it is wanted, else acquire or release it.
pub open spec fn spec_keyboard_change(s: InputState) -> DeviceChange {
    if s.is_keyboard_acquired == s.desire_keyboard_acquired {
        DeviceChange::Keep
    } else if s.desire_keyboard_acquired {
        DeviceChange::Acquire
    } else {
        DeviceChange::Release
    }
}

/// The state after the keyboard change `c` was carried out; `acquired` is
/// what the device reported for an acquisition.
pub open spec fn spec_keyboard_changed(s: InputState, c: DeviceChange, acquired: bool) -> InputState {
    match c {
        DeviceChange::Keep => s,
        DeviceChange::Acquire => InputState { is_keyboard_acquired: acquired, ..s },
        DeviceChange::Release => InputState { is_keyboard_acquired: false, ..s },
    }
}

/// What `update_mouse` does to the mouse: nothing when it is acquired exactly
/// when the cursor is inside the window, else acquire or release it.
pub open spec fn spec_mouse_change(s: InputState) -> DeviceChange {
    if s.is_mouse_acquired == s.is_mouse_inside {
        DeviceChange::Keep
    } else if s.is_mouse_inside {
        DeviceChange::Acquire
    } else {
        DeviceChange::Release
    }
}

/// The state after an attempt to acquire the mouse.
pub open spec fn spec_mouse_acquired(s: InputState, ok: bool) -> InputState {
    if ok {
        InputState { is_mouse_acquired: true, is_mouse_captured: false, ..s }
    } else {
        s
    }
}

/// The state after the mouse was released.
pub open spec fn spec_mouse_released(s: InputState) -> InputState {
    InputState { is_mouse_acquired: false, is_mouse_captured: false, ..s }
}

/// The state after the cursor entered the window, where leave tracking
/// could be started (`tracking`); it counts as inside only then.
pub open spec fn spec_mouse_entered(s: InputState, tracking: bool) -> InputState {
    if !s.is_mouse_inside && tracking {
        InputState { is_mouse_inside: true, ..s }
    } else {
        s
    }
}

/// Whether entering the window goes on to acquire the mouse.
pub open spec fn spec_enter_acquires(s: InputState, tracking: bool) -> bool {
    !s.is_mouse_inside && tracking && !s.is_mouse_captured
}

/// The state after the cursor left the window.
pub open spec fn spec_mouse_left(s: InputState) -> InputState {
    InputState { is_mouse_inside: false, ..s }
}

/// Whether leaving the window goes on to release the mouse.
pub open spec fn spec_leave_releases(s: InputState) -> bool {
    s.is_mouse_inside && !s.is_mouse_captured && s.is_mouse_acquired
}

/// The state after a button event: the left button also turns the automatic
/// mouse move off while it is held.
pub open spec fn spec_mouse_button_state(s: InputState, btn: MouseButton, down: bool) -> InputState {
    match spec_effective_button(btn, s.mouse_button_swap) {
        MouseButton::Left => InputState { left_mouse_button_down: down, auto_mouse_move: !down, ..s },
        MouseButton::Right => InputState { right_mouse_down: down, ..s },
        MouseButton::Middle => s,
    }
}

impl InputState {
    /// The state of fresh user input, with the user's button swap setting.
    pub fn new(mouse_button_swap: bool) -> (r: InputState)
        ensures
            r == initial_input_state(mouse_button_swap),
    {
        InputState {
            is_mouse_captured: false,
            is_mouse_inside: false,
            is_mouse_acquired: false,
            right_mouse_down: false,
            left_mouse_button_down: false,
            auto_mouse_move: true,
            mouse_button_swap,
            is_keyboard_acquired: false,
            desire_keyboard_acquired: false,
        }
    }

    /// The decision of `update_keyboard`.
    pub fn keyboard_change(&self) -> (r: DeviceChange)
        ensures
            r == spec_keyboard_change(*self),
    {
        if self.is_keyboard_acquired == self.desire_keyboard_acquired {
            DeviceChange::Keep
        } else if self.desire_keyboard_acquired {
            DeviceChange::Acquire
        } else {
            DeviceChange::Release
        }
    }

    /// Records that the keyboard change `c` was carried out.
    pub fn keyboard_changed(&mut self, c: DeviceChange, acquired: bool)
        ensures
            *final(self) == spec_keyboard_changed(*old(self), c, acquired),
    {
        match c {
            DeviceChange::Keep => {},
            DeviceChange::Acquire => {
                self.is_keyboard_acquired = acquired;
            },
            DeviceChange::Release => {
                self.is_keyboard_acquired = false;
            },
        }
    }

    /// `set_keyboard_desired`: records the wish and says what `update_keyboard`
    /// must then do.
    pub fn set_keyboard_desired(&mut self, set: bool) -> (r: DeviceChange)
        ensures
            *final(self) == (InputState { desire_keyboard_acquired: set, ..*old(self) }),
            r == spec_keyboard_change(*final(self)),
    {
        self.desire_keyboard_acquired = set;
        self.keyboard_change()
    }

    /// The decision of `update_mouse`.
    pub fn mouse_change(&self) -> (r: DeviceChange)
        ensures
            r == spec_mouse_change(*self),
    {
        if self.is_mouse_acquired == self.is_mouse_inside {
            DeviceChange::Keep
        } else if self.is_mouse_inside {
            DeviceChange::Acquire
        } else {
            DeviceChange::Release
        }
    }

    /// Records an attempt to acquire the mouse.
    pub fn mouse_acquired(&mut self, ok: bool)
        ensures
            *final(self) == spec_mouse_acquired(*old(self), ok),
    {
        if ok {
            self.is_mouse_acquired = true;
            self.is_mouse_captured = false;
        }
    }

    /// Records that the mouse was released.
    pub fn mouse_released(&mut self)
        ensures
            *final(self) == spec_mouse_released(*old(self)),
    {
        self.is_mouse_acquired = false;
        self.is_mouse_captured = false;
    }

    /// Whether `on_mouse_inside` has anything to do: leave tracking is only
    /// started for a cursor that was outside.
    pub fn needs_leave_tracking(&self) -> (r: bool)
        ensures
            r == !self.is_mouse_inside,
    {
        !self.is_mouse_inside
    }

    /// The rest of `on_mouse_inside` once tracking was requested: returns
    /// whether the mouse is to be acquired.
    pub fn mouse_entered(&mut self, tracking: bool) -> (r: bool)
        ensures
            *final(self) == spec_mouse_entered(*old(self), tracking),
            r == spec_enter_acquires(*old(self), tracking),
    {
        if self.is_mouse_inside || !tracking {
            return false;
        }
        self.is_mouse_inside = true;
        !self.is_mouse_captured
    }

    /// `on_mouse_leave`: returns whether the mouse is to be released.
    pub fn mouse_left(&mut self) -> (r: bool)
        ensures
            *final(self) == (if old(self).is_mouse_inside { spec_mouse_left(*old(self)) } else { *old(self) }),
            r == spec_leave_releases(*old(self)),
    {
        if !self.is_mouse_inside {
            return false;
        }
        self.is_mouse_inside = false;
        !self.is_mouse_captured && self.is_mouse_acquired
    }

    /// `process_mouse_button`: the button after the swap, whose event is to be
    /// sent, and the button state it leaves.
    pub fn mouse_button(&mut self, btn: MouseButton, down: bool) -> (r: MouseButton)
        ensures
            r == spec_effective_button(btn, old(self).mouse_button_swap),
            *final(self) == spec_mouse_button_state(*old(self), btn, down),
    {
        let b = effective_button(btn, self.mouse_button_swap);
        match b {
            MouseButton::Left => {
                self.left_mouse_button_down = down;
                self.auto_mouse_move = !down;
            },
            MouseButton::Right => {
                self.right_mouse_down = down;
            },
            MouseButton::Middle => {},
        }
        b
    }
}

/// Once a keyboard change has been carried out and any acquisition succeeded,
/// `update_keyboard` has nothing more to do.
pub proof fn lemma_keyboard_settles(s: InputState)
    ensures
        spec_keyboard_change(spec_keyboard_changed(s, spec_keyboard_change(s), true))
            == DeviceChange::Keep,
{
}

/// Once a mouse change has been carried out (a successful acquisition, or a
/// release), `update_mouse` has nothing more to do.
pub proof fn lemma_mouse_settles(s: InputState)
    ensures
        spec_mouse_change(s) == DeviceChange::Acquire ==> spec_mouse_change(
            spec_mouse_acquired(s, true),
        ) == DeviceChange::Keep,
        spec_mouse_change(s) == DeviceChange::Release ==> spec_mouse_change(
            spec_mouse_released(s),
        ) == DeviceChange::Keep,
{
}

/// Nothing ever marks the mouse as captured: a state that starts uncaptured
/// stays so through every transition.
pub proof fn lemma_never_captured(s: InputState, ok: bool, tracking: bool, btn: MouseButton, down: bool, c: DeviceChange)
    requires
        !s.is_mouse_captured,
    ensures
        !spec_keyboard_changed(s, c, ok).is_mouse_captured,
        !spec_mouse_acquired(s, ok).is_mouse_captured,
        !spec_mouse_released(s).is_mouse_captured,
        !spec_mouse_entered(s, tracking).is_mouse_captured,
        !spec_mouse_left(s).is_mouse_captured,
        !spec_mouse_button_state(s, btn, down).is_mouse_captured,
{
}

/// While the left button is held the automatic mouse move is off, and after
/// it is let go it is on again.
pub proof fn lemma_left_button_stops_auto_move(s: InputState, btn: MouseButton, down: bool)
    requires
        spec_effective_button(btn, s.mouse_button_swap) == MouseButton::Left,
    ensures
        spec_mouse_button_state(s, btn, down).left_mouse_button_down == down,
        spec_mouse_button_state(s, btn, down).auto_mouse_move == !down,
{
}

/// A cursor that enters (with tracking) an uncaptured window and gets the
/// mouse acquired leaves `update_mouse` with nothing to do; leaving again
/// releases it.
pub proof fn lemma_enter_then_leave(s: InputState)
    requires
        !s.is_mouse_inside,
        !s.is_mouse_captured,
        !s.is_mouse_acquired,
    ensures
        spec_enter_acquires(s, true),
        spec_mouse_change(spec_mouse_acquired(spec_mouse_entered(s, true), true)) == DeviceChange::Keep,
        spec_leave_releases(spec_mouse_acquired(spec_mouse_entered(s, true), true)),
        spec_mouse_released(spec_mouse_left(spec_mouse_acquired(spec_mouse_entered(s, true), true)))
            == s,
{
}

/// What `process_user_input_message` does with a window message.
#[derive(Debug, Clone, Copy, PartialEq, Eq, Structural)]
pub enum InputMessage {
    /// The cursor moved to the client position `(x, y)`.
    MouseMove(u16, u16),
    /// The cursor left the window.
    MouseLeave,
    /// The wheel turned by `delta` with the cursor at `(x, y)`.
    MouseWheel(u16, u16, i32),
    /// The window got the keyboard focus.
    SetFocus,
    /// The window lost the keyboard focus.
    KillFocus,
    /// Any other message.
    Ignored,
}

/// How `process_user_input_message` reads a message: positions from the two
/// words of `lparam`, the wheel delta from `wparam` taken as an `i32`.
pub open spec fn spec_input_message(msg: u32, wparam: usize, lparam: isize) -> InputMessage {
    let lp = lparam as u32;
    if msg == crate::slop::WM_MOUSEMOVE {
        InputMessage::MouseMove((lp % 0x10000) as u16, (lp / 0x10000) as u16)
    } else if msg == crate::slop::WM_MOUSELEAVE {
        InputMessage::MouseLeave
    } else if msg == crate::slop::WM_MOUSEWHEEL {
        InputMessage::MouseWheel((lp % 0x10000) as u16, (lp / 0x10000) as u16, wparam as i32)
    } else if msg == crate::slop::WM_SETFOCUS {
        InputMessage::SetFocus
    } else if msg == crate::slop::WM_KILLFOCUS {
        InputMessage::KillFocus
    } else {
        InputMessage::Ignored
    }
}

/// The dispatch of `process_user_input_message`.
pub fn input_message(msg: u32, wparam: usize, lparam: isize) -> (r: InputMessage)
    ensures
        r == spec_input_message(msg, wparam, lparam),
{
    let lp = lparam as u32;
    if msg == crate::slop::WM_MOUSEMOVE {
        InputMessage::MouseMove(crate::slop::loword(lp), crate::slop::hiword(lp))
    } else if msg == crate::slop::WM_MOUSELEAVE {
        InputMessage::MouseLeave
    } else if msg == crate::slop::WM_MOUSEWHEEL {
        InputMessage::MouseWheel(crate::slop::loword(lp), crate::slop::hiword(lp), wparam as i32)
    } else if msg == crate::slop::WM_SETFOCUS {
        InputMessage::SetFocus
    } else if msg == crate::slop::WM_KILLFOCUS {
        InputMessage::KillFocus
    } else {
        InputMessage::Ignored
    }
}

/// The keys that reach the accelerator table are F1 (`0x70`), F4
/// (`0x73`), F8 (`0x77`), F11 (`0x7A`) and Print Screen (`0x2C`), and a
/// swap of the mouse buttons exchanges left and right and keeps the middle.
pub proof fn lemma_input_constants()
    ensures
        VK_F1 == 0x70 && VK_F4 == 0x73 && VK_F8 == 0x77 && VK_F11 == 0x7A && VK_SNAPSHOT == 0x2C,
        DIK_LMENU == 0x38 && DIK_RMENU == 0xB8,
        spec_effective_button(MouseButton::Left, true) == MouseButton::Right,
        spec_effective_button(MouseButton::Right, true) == MouseButton::Left,
        spec_effective_button(MouseButton::Middle, true) == MouseButton::Middle,
        forall|b: MouseButton| spec_effective_button(b, false) == b,
{
}

/// How user input reads a window message, by its number: mouse move
/// (`0x0200`) and wheel (`0x020A`) carry the position in the low and high
/// words of `lparam`, the wheel also its turn as `wparam` taken as an
/// `i32`; mouse leave (`0x02A3`), set focus (`0x0007`) and kill focus
/// (`0x0008`) carry nothing; every other message is ignored.
pub proof fn lemma_input_message_numbers(m: u32, w: usize, l: isize)
    ensures
        m == 0x0200 ==> spec_input_message(m, w, l) == InputMessage::MouseMove(
            ((l as u32) % 0x10000) as u16,
            ((l as u32) / 0x10000) as u16,
        ),
        m == 0x020A ==> spec_input_message(m, w, l) == InputMessage::MouseWheel(
            ((l as u32) % 0x10000) as u16,
            ((l as u32) / 0x10000) as u16,
            w as i32,
        ),
        m == 0x02A3 ==> spec_input_message(m, w, l) == InputMessage::MouseLeave,
        m == 0x0007 ==> spec_input_message(m, w, l) == InputMessage::SetFocus,
        m == 0x0008 ==> spec_input_message(m, w, l) == InputMessage::KillFocus,
        !(m == 0x0200 || m == 0x020A || m == 0x02A3 || m == 0x0007 || m == 0x0008)
            ==> spec_input_message(m, w, l) == InputMessage::Ignored,
{
}

} // verus!
