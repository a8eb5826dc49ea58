//! The cursor-hide system: a two-state latch over the cursor state actually
//! applied to the window, issuing grab/hide commands only on transitions.

use vstd::prelude::*;

use crate::resources::{HideCursor, WindowFocus};

verus! {

/// A command for the window, produced on a latch transition. Each bundles the
/// grab toggle with the matching visibility toggle.
#[derive(Clone, Copy, PartialEq, Eq, Structural, Debug)]
pub enum CursorCommand {
    /// Grab the cursor, then hide it.
    GrabAndHide,
    /// Release the cursor grab, then show it.
    ReleaseAndShow,
}

/// Whether the cursor ought to be hidden right now: the window is focused and
/// the user wants the cursor hidden while focused.
pub open spec fn desired_hidden(focus: WindowFocus, hide: HideCursor) -> bool {
    focus.is_focused && hide.hide
}

/// The command a latch transition issues: one exactly when the applied state
/// differs from the desired one, none otherwise.
pub open spec fn cursor_transition(latched_hidden: bool, desired: bool) -> Option<CursorCommand> {
    if !latched_hidden && desired {
        Some(CursorCommand::GrabAndHide)
    } else if latched_hidden && !desired {
        Some(CursorCommand::ReleaseAndShow)
    } else {
        None
    }
}

/// How many commands `frames` consecutive runs issue when the latch starts at
/// `latched_hidden` and the desired state stays `desired` throughout.
pub open spec fn repeated_command_count(latched_hidden: bool, desired: bool, frames: nat) -> nat
    decreases frames,
{
    if frames == 0 {
        0
    } else {
        (if cursor_transition(latched_hidden, desired) is Some {
            1nat
        } else {
            0nat
        }) + repeated_command_count(desired, desired, (frames - 1) as nat)
    }
}

/// Idempotence of the latch: over any number of frames with unchanged focus
/// and hide inputs, at most one command is issued in total — one on the first
/// frame if the applied state disagreed with the desired one, and none ever
/// after.
pub proof fn lemma_cursor_idempotent(latched_hidden: bool, desired: bool, frames: nat)
    ensures
        repeated_command_count(latched_hidden, desired, frames) == if frames > 0
            && latched_hidden != desired {
            1nat
        } else {
            0nat
        },
    decreases frames,
{
    if frames > 0 {
        lemma_cursor_idempotent(desired, desired, (frames - 1) as nat);
    }
}

/// Per-frame controller of the window's cursor state. `is_hidden` is the
/// private latch: the cursor state last applied to the window, assumed hidden
/// at startup.
#[derive(Clone, Copy, PartialEq, Eq, Structural, Debug)]
pub struct CursorHideSystem {
    pub is_hidden: bool,
}

/// Builds the cursor-hide controller with its latch on "hidden" and creates
/// the `HideCursor` resource with its default intent (hide while focused).
pub fn build_cursor_hide_system() -> (r: (CursorHideSystem, HideCursor))
    ensures
        r.0.is_hidden,
        r.1.hide,
{
    (CursorHideSystem { is_hidden: true }, HideCursor::default())
}

impl CursorHideSystem {
    /// One frame: compares the desired cursor state against the latch and
    /// returns the command the window should perform, if any. The latch ends
    /// up equal to the desired state, so a second run under the same inputs
    /// returns `None` — redundant window calls are never requested.
    pub fn run(&mut self, focus: &WindowFocus, hide: &HideCursor) -> (cmd: Option<CursorCommand>)
        ensures
            cmd == cursor_transition(old(self).is_hidden, desired_hidden(*focus, *hide)),
            final(self).is_hidden == desired_hidden(*focus, *hide),
    {
        let should_be_hidden = focus.is_focused && hide.hide;
        if !self.is_hidden && should_be_hidden {
            self.is_hidden = true;
            Some(CursorCommand::GrabAndHide)
        } else if self.is_hidden && !should_be_hidden {
            self.is_hidden = false;
            Some(CursorCommand::ReleaseAndShow)
        } else {
            None
        }
    }
}

} // verus!
