//! The client shell around the engine: its engine boundary and the small
//! pieces of client logic that need no window system.

pub mod document;
pub mod function_marshaller;
pub mod game_verbs;
pub mod rbx;
pub mod place_request;
pub mod render_job;
pub mod teleporter;
pub mod web_browser_ax_dialog;
pub mod app;
pub mod user_input;
pub mod view;

use vstd::prelude::*;

verus! {

/// The low 16 bits of a message parameter.
pub fn loword(v: u32) -> (r: u16)
    ensures
        r == v % 0x10000,
{
    assert(v & 0xffff == v % 0x10000) by (bit_vector);
    (v & 0xffff) as u16
}

/// Bits 16 to 31 of a message parameter.
pub fn hiword(v: u32) -> (r: u16)
    ensures
        r == v / 0x10000,
{
    assert((v >> 16) & 0xffff == v / 0x10000) by (bit_vector);
    ((v >> 16) & 0xffff) as u16
}


/// `WM_DESTROY`.
pub const WM_DESTROY: u32 = 0x0002;
/// `WM_SIZE`.
pub const WM_SIZE: u32 = 0x0005;
/// `WM_ACTIVATE`.
pub const WM_ACTIVATE: u32 = 0x0006;
/// `WM_SETFOCUS`.
pub const WM_SETFOCUS: u32 = 0x0007;
/// `WM_KILLFOCUS`.
pub const WM_KILLFOCUS: u32 = 0x0008;
/// `WM_ACTIVATEAPP`.
pub const WM_ACTIVATEAPP: u32 = 0x001C;
/// `WM_GETMINMAXINFO`.
pub const WM_GETMINMAXINFO: u32 = 0x0024;
/// `WM_INPUT`.
pub const WM_INPUT: u32 = 0x00FF;
/// `WM_KEYDOWN`.
pub const WM_KEYDOWN: u32 = 0x0100;
/// `WM_CHAR`.
pub const WM_CHAR: u32 = 0x0102;
/// `WM_COMMAND`.
pub const WM_COMMAND: u32 = 0x0111;
/// `WM_TIMER`.
pub const WM_TIMER: u32 = 0x0113;
/// `WM_MOUSEMOVE`.
pub const WM_MOUSEMOVE: u32 = 0x0200;
/// `WM_MOUSEWHEEL`.
pub const WM_MOUSEWHEEL: u32 = 0x020A;
/// `WM_MOUSELEAVE`.
pub const WM_MOUSELEAVE: u32 = 0x02A3;

/// How the main window procedure handles a message.
#[derive(Debug, Clone, Copy, PartialEq, Eq, Structural)]
pub enum WindowMessage {
    /// The hang-detection heartbeat; nothing to do.
    Timer,
    /// A menu or accelerator command, by its id.
    Command(u32),
    /// A request for the window's size limits.
    GetMinMaxInfo,
    /// Input and focus messages, for the application's view.
    Input,
    /// The window is going away.
    Destroy,
    /// The client area has a new width and height.
    Size(u16, u16),
    /// Left to `DefWindowProcW`.
    Default,
}

/// Whether `message` is one that the view handles as input or focus.
pub open spec fn is_input_message(message: u32) -> bool {
    message == WM_KEYDOWN || message == WM_MOUSEMOVE || message == WM_MOUSELEAVE || message
        == WM_MOUSEWHEEL || message == WM_SETFOCUS || message == WM_KILLFOCUS || message
        == WM_ACTIVATE || message == WM_ACTIVATEAPP || message == WM_CHAR || message == WM_INPUT
}

/// How `wnd_proc` handles `message`.
pub open spec fn spec_route_window_message(message: u32, wparam: usize, lparam: isize) -> WindowMessage {
    if message == WM_TIMER {
        WindowMessage::Timer
    } else if message == WM_COMMAND {
        WindowMessage::Command((wparam % 0x10000) as u32)
    } else if message == WM_GETMINMAXINFO {
        WindowMessage::GetMinMaxInfo
    } else if is_input_message(message) {
        WindowMessage::Input
    } else if message == WM_DESTROY {
        WindowMessage::Destroy
    } else if message == WM_SIZE {
        WindowMessage::Size(((lparam as u32) % 0x10000) as u16, ((lparam as u32) / 0x10000) as u16)
    } else {
        WindowMessage::Default
    }
}

/// The dispatch of the main window procedure `wnd_proc`: which handler a
/// message goes to, with the command id from the low word of `wparam` and
/// the new size from the two words of `lparam`.
pub fn route_window_message(message: u32, wparam: usize, lparam: isize) -> (r: WindowMessage)
    ensures
        r == spec_route_window_message(message, wparam, lparam),
{
    if message == WM_TIMER {
        WindowMessage::Timer
    } else if message == WM_COMMAND {
        WindowMessage::Command((wparam % 0x10000) as u32)
    } else if message == WM_GETMINMAXINFO {
        WindowMessage::GetMinMaxInfo
    } else if message == WM_KEYDOWN || message == WM_MOUSEMOVE || message == WM_MOUSELEAVE
        || message == WM_MOUSEWHEEL || message == WM_SETFOCUS || message == WM_KILLFOCUS
        || message == WM_ACTIVATE || message == WM_ACTIVATEAPP || message == WM_CHAR || message
        == WM_INPUT {
        WindowMessage::Input
    } else if message == WM_DESTROY {
        WindowMessage::Destroy
    } else if message == WM_SIZE {
        let v = lparam as u32;
        WindowMessage::Size(loword(v), hiword(v))
    } else {
        WindowMessage::Default
    }
}

/// Where the main window's messages go, by their numbers: the timer
/// (`0x0113`), commands (`0x0111`, with the id from the low word of
/// `wparam`) and size limits (`0x0024`) are handled at once; key down
/// (`0x0100`), mouse move (`0x0200`), mouse leave (`0x02A3`), mouse wheel
/// (`0x020A`), set and kill focus (`0x0007`, `0x0008`), activate (`0x0006`),
/// application activate (`0x001C`), characters (`0x0102`) and raw input
/// (`0x00FF`) go to the application's view; destroy (`0x0002`) shuts down;
/// size (`0x0005`) carries the new width and height in the words of
/// `lparam`; every other message goes to the default procedure.
pub proof fn lemma_window_message_routes(m: u32, w: usize, l: isize)
    ensures
        m == 0x0113 ==> spec_route_window_message(m, w, l) == WindowMessage::Timer,
        m == 0x0111 ==> spec_route_window_message(m, w, l) == WindowMessage::Command(
            (w % 0x10000) as u32,
        ),
        m == 0x0024 ==> spec_route_window_message(m, w, l) == WindowMessage::GetMinMaxInfo,
        (m == 0x0100 || m == 0x0200 || m == 0x02A3 || m == 0x020A || m == 0x0007 || m == 0x0008
            || m == 0x0006 || m == 0x001C || m == 0x0102 || m == 0x00FF) ==> spec_route_window_message(
            m,
            w,
            l,
        ) == WindowMessage::Input,
        m == 0x0002 ==> spec_route_window_message(m, w, l) == WindowMessage::Destroy,
        m == 0x0005 ==> spec_route_window_message(m, w, l) == WindowMessage::Size(
            ((l as u32) % 0x10000) as u16,
            ((l as u32) / 0x10000) as u16,
        ),
        !(m == 0x0113 || m == 0x0111 || m == 0x0024 || m == 0x0100 || m == 0x0200 || m == 0x02A3
            || m == 0x020A || m == 0x0007 || m == 0x0008 || m == 0x0006 || m == 0x001C || m
            == 0x0102 || m == 0x00FF || m == 0x0002 || m == 0x0005) ==> spec_route_window_message(
            m,
            w,
            l,
        ) == WindowMessage::Default,
{
}

} // verus!
