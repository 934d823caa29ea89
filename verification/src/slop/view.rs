//! The decisions of the game view that need no window system.

use vstd::prelude::*;

verus! {

/// `WM_ACTIVATE`.
pub const WM_ACTIVATE: u32 = 0x0006;

/// `WA_INACTIVE`.
pub const WA_INACTIVE: u32 = 0;

/// `WA_ACTIVE`.
pub const WA_ACTIVE: u32 = 1;

/// `WA_CLICKACTIVE`.
pub const WA_CLICKACTIVE: u32 = 2;

/// What the view does with a window message.
#[derive(Debug, Clone, Copy, PartialEq, Eq, Structural)]
pub enum ActivationAction {
    /// Switch back to the fullscreen resolution, restore, focus and raise the window.
    RestoreFullscreen,
    /// Give the window the plain popup style while it is inactive.
    DropToPopup,
    /// Hand the message to user input.
    ForwardToInput,
    /// Nothing.
    Nothing,
}

/// The activation state carried in the low word of `wparam`.
pub open spec fn activation_state(wparam: usize) -> u32 {
    (wparam % 0x10000) as u32
}

/// What the game view does with a window message.
pub open spec fn spec_activation_action(
    msg: u32,
    wparam: usize,
    fullscreen: bool,
    desire_fullscreen: bool,
    changing_resolution: bool,
) -> ActivationAction {
    if msg == WM_ACTIVATE {
        let activating = activation_state(wparam);
        let became_active = activating == WA_ACTIVE || activating == WA_CLICKACTIVE;
        if (fullscreen || desire_fullscreen) && !changing_resolution && became_active {
            ActivationAction::RestoreFullscreen
        } else if fullscreen && !changing_resolution && activating == WA_INACTIVE {
            ActivationAction::DropToPopup
        } else {
            ActivationAction::Nothing
        }
    } else {
        ActivationAction::ForwardToInput
    }
}

/// The view's handling of a window message: when a fullscreen (or
/// fullscreen-wanting) view is activated and no resolution change is under
/// way, fullscreen is restored; when a fullscreen view is deactivated, it
/// drops to the popup style; other activations do nothing, and every other
/// message goes to user input.
pub fn handle_windows_message_action(
    msg: u32,
    wparam: usize,
    fullscreen: bool,
    desire_fullscreen: bool,
    changing_resolution: bool,
) -> (r: ActivationAction)
    ensures
        r == spec_activation_action(msg, wparam, fullscreen, desire_fullscreen, changing_resolution),
{
    if msg == WM_ACTIVATE {
        let activating = (wparam % 0x10000) as u32;
        let became_active = activating == WA_ACTIVE || activating == WA_CLICKACTIVE;
        if (fullscreen || desire_fullscreen) && !changing_resolution && became_active {
            ActivationAction::RestoreFullscreen
        } else if fullscreen && !changing_resolution && activating == WA_INACTIVE {
            ActivationAction::DropToPopup
        } else {
            ActivationAction::Nothing
        }
    } else {
        ActivationAction::ForwardToInput
    }
}


/// The fullscreen flags of the game view.
#[derive(Debug, Clone, Copy, PartialEq, Eq, Structural)]
pub struct FullscreenState {
    pub fullscreen: bool,
    pub desire_fullscreen: bool,
}

/// What asking for fullscreen or windowed does to the display.
#[derive(Debug, Clone, Copy, PartialEq, Eq, Structural)]
pub enum FullscreenChange {
    /// The view already is as asked.
    Keep,
    /// Remember the window style, then change the resolution.
    Enter,
    /// Restore the resolution and the window placement.
    Leave,
}

/// The change that asking for fullscreen `value` makes, and the flags it
/// leaves: the wish is always recorded, and the view is fullscreen exactly
/// when asked.
pub open spec fn spec_set_fullscreen(s: FullscreenState, value: bool) -> (FullscreenChange, FullscreenState) {
    let c = if s.fullscreen == value {
        FullscreenChange::Keep
    } else if value {
        FullscreenChange::Enter
    } else {
        FullscreenChange::Leave
    };
    (c, FullscreenState { fullscreen: value, desire_fullscreen: value })
}

/// `SW_SHOWNORMAL`.
pub const SW_SHOWNORMAL: u32 = 1;

/// `SW_SHOWMAXIMIZED`.
pub const SW_SHOWMAXIMIZED: u32 = 3;

impl FullscreenState {
    /// Changes to the fullscreen resolution: the view becomes fullscreen; returns whether
    /// the windowed placement is to be saved first, which is when it was not
    /// fullscreen yet.
    pub fn change_resolution(&mut self) -> (r: bool)
        ensures
            r == !old(self).fullscreen,
            *final(self) == (FullscreenState { fullscreen: true, ..*old(self) }),
    {
        let save = !self.fullscreen;
        self.fullscreen = true;
        save
    }

    /// Restores the desktop resolution: the view is windowed again.
    pub fn restore_resolution(&mut self)
        ensures
            *final(self) == (FullscreenState { fullscreen: false, ..*old(self) }),
    {
        self.fullscreen = false;
    }

    /// Asks for fullscreen (`true`) or windowed.
    pub fn set_fullscreen(&mut self, value: bool) -> (r: FullscreenChange)
        ensures
            (r, *final(self)) == spec_set_fullscreen(*old(self), value),
    {
        let mut c = FullscreenChange::Keep;
        if self.fullscreen != value {
            if value {
                let _ = self.change_resolution();
                c = FullscreenChange::Enter;
            } else {
                self.restore_resolution();
                c = FullscreenChange::Leave;
            }
        }
        self.desire_fullscreen = value;
        c
    }

    /// The `ShowWindow` command that shows the view: maximized when
    /// fullscreen, normal otherwise.
    pub fn show_command(&self) -> (r: u32)
        ensures
            r == (if self.fullscreen { SW_SHOWMAXIMIZED } else { SW_SHOWNORMAL }),
    {
        if self.fullscreen {
            SW_SHOWMAXIMIZED
        } else {
            SW_SHOWNORMAL
        }
    }
}

/// Asking for the same fullscreen setting twice changes nothing the second
/// time.
pub proof fn lemma_set_fullscreen_idempotent(s: FullscreenState, value: bool)
    ensures
        spec_set_fullscreen(spec_set_fullscreen(s, value).1, value) == (
            FullscreenChange::Keep,
            spec_set_fullscreen(s, value).1,
        ),
{
}

/// The window settings kept at shutdown: the window
/// rectangle as position and size, and whether the placement was maximized.
#[derive(Debug, Clone, Copy, PartialEq, Eq, Structural)]
pub struct WindowSettings {
    pub left: i32,
    pub top: i32,
    pub width: i32,
    pub height: i32,
    pub maximized: bool,
}

/// The window settings to keep, from the window rectangle
/// `(left, top, right, bottom)` and the placement's show command.
pub fn window_settings(left: i32, top: i32, right: i32, bottom: i32, show_cmd: u32) -> (r: WindowSettings)
    requires
        i32::MIN <= right - left <= i32::MAX,
        i32::MIN <= bottom - top <= i32::MAX,
    ensures
        r == (WindowSettings {
            left,
            top,
            width: (right - left) as i32,
            height: (bottom - top) as i32,
            maximized: show_cmd == SW_SHOWMAXIMIZED,
        }),
{
    WindowSettings {
        left,
        top,
        width: right - left,
        height: bottom - top,
        maximized: show_cmd == SW_SHOWMAXIMIZED,
    }
}

/// The window that a graphics view draws into, and its size.
pub struct OSContext {
    pub hwnd: usize,
    pub width: i32,
    pub height: i32,
}

impl Default for OSContext {
    /// No window yet, 640 by 480.
    fn default() -> (r: OSContext)
        ensures
            r.hwnd == 0,
            r.width == 640,
            r.height == 480,
    {
        OSContext { hwnd: 0, width: 640, height: 480 }
    }
}

/// The view's handling by message number: only an activation (`0x0006`)
/// is the view's own, and every other message goes to user input. An
/// activation by click or otherwise (`2`, `1` in the low word of `wparam`)
/// restores fullscreen where fullscreen is on or wanted and no resolution
/// change is under way; a deactivation (`0`) of a fullscreen view outside a
/// resolution change drops it to the popup style.
pub proof fn lemma_activation_numbers(msg: u32, wparam: usize, fullscreen: bool, desire: bool, changing: bool)
    ensures
        msg != 0x0006 ==> spec_activation_action(msg, wparam, fullscreen, desire, changing)
            == ActivationAction::ForwardToInput,
        msg == 0x0006 && (wparam % 0x10000 == 1 || wparam % 0x10000 == 2) && (fullscreen || desire)
            && !changing ==> spec_activation_action(msg, wparam, fullscreen, desire, changing)
            == ActivationAction::RestoreFullscreen,
        msg == 0x0006 && wparam % 0x10000 == 0 && fullscreen && !changing ==> spec_activation_action(
            msg,
            wparam,
            fullscreen,
            desire,
            changing,
        ) == ActivationAction::DropToPopup,
        msg == 0x0006 && changing ==> spec_activation_action(msg, wparam, fullscreen, desire, changing)
            == ActivationAction::Nothing,
{
}

/// Asking for fullscreen enters it from a windowed view and keeps a
/// fullscreen one; asking for windowed leaves fullscreen and keeps a
/// windowed view; either way the view ends as asked, and the wish recorded.
pub proof fn lemma_set_fullscreen_changes(s: FullscreenState, value: bool)
    ensures
        (spec_set_fullscreen(s, value).0 == FullscreenChange::Enter) <==> (value && !s.fullscreen),
        (spec_set_fullscreen(s, value).0 == FullscreenChange::Leave) <==> (!value && s.fullscreen),
        (spec_set_fullscreen(s, value).0 == FullscreenChange::Keep) <==> (value == s.fullscreen),
        spec_set_fullscreen(s, value).1.fullscreen == value,
        spec_set_fullscreen(s, value).1.desire_fullscreen == value,
{
}

} // verus!
