//! Shared per-frame resources: window focus and the cursor-hiding intent.

use vstd::prelude::*;

verus! {

/// Whether the window currently has input focus.
///
/// Written only by the focus-update system; read by the cursor-hide and
/// free-rotation systems.
#[derive(Clone, Copy, PartialEq, Eq, Structural, Debug)]
pub struct WindowFocus {
    pub is_focused: bool,
}

impl WindowFocus {
    /// A fresh focus resource: the window is assumed unfocused until a focus
    /// event says otherwise.
    pub fn new() -> (r: WindowFocus)
        ensures
            !r.is_focused,
    {
        WindowFocus { is_focused: false }
    }
}

/// User-toggleable intent: should the cursor be grabbed and hidden while the
/// window is focused?
#[derive(Clone, Copy, PartialEq, Eq, Structural, Debug)]
pub struct HideCursor {
    pub hide: bool,
}

impl Default for HideCursor {
    /// By default the cursor is hidden while the window is focused.
    fn default() -> (r: HideCursor)
        ensures
            r.hide,
    {
        HideCursor { hide: true }
    }
}

} // verus!
