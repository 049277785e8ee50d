//! What every window has, whatever its kind.
use vstd::prelude::*;

use crate::co::{WM_APP, WM_CREATE, WM_INITDIALOG};
use crate::handles::{Handle, HWND};
use crate::msg::WndMsg;

verus! {

/// The message that tells a window of the given kind that it is being
/// created.
pub open spec fn creation_wm_of(is_dialog: bool) -> u32 {
    if is_dialog {
        WM_INITDIALOG
    } else {
        WM_CREATE
    }
}

/// The message by which work is handed to the thread that owns a window.
pub const WM_UI_THREAD: u32 = WM_APP + 0x3FFF;

/// Result of a piece of work; a failure carries its description.
pub type ErrResult<T> = Result<T, String>;

/// Whether `msg` hands work to the thread of the window that receives it:
/// it has the identifier for that, and repeats the identifier in its first
/// parameter, so that a message sent by a stranger is not taken for one.
pub open spec fn is_ui_thread_msg(msg: WndMsg) -> bool {
    msg.msg_id == WM_UI_THREAD && msg.wparam == WM_UI_THREAD as usize
}

/// Work that is to run in the thread that owns the window `hwnd`: the
/// message that carries it there, and the work itself. The second
/// parameter of the message is the address at which the sender keeps the
/// work, which only the sender knows.
pub struct UiThreadCall<F> {
    pub hwnd: HWND,
    pub msg: WndMsg,
    pub func: F,
}

/// The part that every window has: its handle, null until the window
/// exists, and whether it is made from a dialog resource.
#[derive(Clone, Copy, PartialEq, Eq, Structural, Debug)]
pub struct Base {
    hwnd: HWND,
    is_dialog: bool,
}

impl Base {
    /// The handle of the window; null while the window does not exist.
    pub closed spec fn hwnd(&self) -> HWND {
        self.hwnd
    }

    /// Whether the window is made from a dialog resource.
    pub closed spec fn is_dialog(&self) -> bool {
        self.is_dialog
    }

    /// The base of a window that does not exist yet.
    pub fn new(is_dialog: bool) -> (b: Base)
        ensures
            b.hwnd().spec_is_null(),
            b.is_dialog() == is_dialog,
    {
        Base { hwnd: HWND::default(), is_dialog }
    }

    /// The base of a window that exists under the handle `hwnd`.
    pub fn with_hwnd(hwnd: HWND, is_dialog: bool) -> (b: Base)
        ensures
            b.hwnd() == hwnd,
            b.is_dialog() == is_dialog,
    {
        Base { hwnd, is_dialog }
    }

    /// The handle of the window.
    pub fn hwnd_ref(&self) -> (h: &HWND)
        ensures
            *h == self.hwnd(),
    {
        &self.hwnd
    }

    /// Wraps `func` for the thread that owns this window: the function
    /// is to be called there, once, when the message arrives.
    pub fn run_ui_thread<F>(&self, func: F) -> (call: UiThreadCall<F>) where
        F: FnOnce() -> ErrResult<()>,

        ensures
            call.hwnd == self.hwnd(),
            call.msg == (WndMsg {
                msg_id: WM_UI_THREAD,
                wparam: WM_UI_THREAD as usize,
                lparam: 0,
            }),
            is_ui_thread_msg(call.msg),
            call.func == func,
    {
        UiThreadCall {
            hwnd: self.hwnd,
            msg: WndMsg { msg_id: WM_UI_THREAD, wparam: WM_UI_THREAD as usize, lparam: 0 },
            func,
        }
    }

    /// Tells whether `msg`, which arrived at this window, hands work to the
    /// thread of the window.
    pub fn ui_thread_message_handler(&self, msg: WndMsg) -> (b: bool)
        ensures
            b == is_ui_thread_msg(msg),
    {
        msg.msg_id == WM_UI_THREAD && msg.wparam == WM_UI_THREAD as usize
    }

    /// The message that tells this window that it is being created.
    pub fn creation_wm(&self) -> (m: u32)
        ensures
            m == creation_wm_of(self.is_dialog()),
    {
        if self.is_dialog {
            WM_INITDIALOG
        } else {
            WM_CREATE
        }
    }
}

} // verus!
