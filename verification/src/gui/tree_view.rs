//! The tree-view control, as far as its items need it.
use vstd::prelude::*;

use crate::handles::HWND;

verus! {

/// A tree-view control: the window that the messages of its items go to.
#[derive(Debug)]
pub struct TreeView {
    hwnd: HWND,
}

impl TreeView {
    /// The window of the control.
    pub closed spec fn spec_hwnd(&self) -> HWND {
        self.hwnd
    }

    /// The control whose window is `hwnd`.
    pub fn new(hwnd: HWND) -> (tv: TreeView)
        ensures
            tv.spec_hwnd() == hwnd,
    {
        TreeView { hwnd }
    }

    /// The window of the control.
    pub fn hwnd(&self) -> (h: &HWND)
        ensures
            *h == self.spec_hwnd(),
    {
        &self.hwnd
    }
}

} // verus!
