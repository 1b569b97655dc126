//! The native surface target: the handle pair a presentation surface is
//! bound to.

use vstd::prelude::*;

verus! {

/// The native binding for a presentation surface: the window handle and
/// the module/instance handle of a live top-level window, both non-zero
/// platform handles. Immutable once captured.
#[derive(Clone, Copy, Debug, PartialEq, Eq, Structural)]
pub struct WindowMain {
    pub hwnd: isize,
    pub hinstance: isize,
}

impl WindowMain {
    /// Both handles are non-zero, as the surface binding requires.
    pub open spec fn wf(self) -> bool {
        self.hwnd != 0 && self.hinstance != 0
    }

    /// Capture a handle pair, rejecting a zero handle.
    pub fn new(hwnd: isize, hinstance: isize) -> (r: Option<WindowMain>)
        ensures
            r is Some <==> (hwnd != 0 && hinstance != 0),
            r matches Some(t) ==> t == (WindowMain { hwnd, hinstance }) && t.wf(),
    {
        if hwnd != 0 && hinstance != 0 {
            Some(WindowMain { hwnd, hinstance })
        } else {
            None
        }
    }
}

} // verus!
