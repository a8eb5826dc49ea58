//! The focus-update system: drains the event stream and keeps
//! [`WindowFocus`] equal to the value of the last focus-changed event seen.

use vstd::prelude::*;

use crate::events::{EventChannel, InputEvent, ReaderId, reader_ok};
use crate::resources::WindowFocus;

verus! {

/// Whether `e` is a focus-changed notification.
pub open spec fn is_focus_event(e: InputEvent) -> bool {
    e matches InputEvent::WindowFocusChanged { .. }
}

/// The `focused` value a focus-changed event carries (`false` on any other
/// event, which no caller relies on).
pub open spec fn focus_value(e: InputEvent) -> bool {
    match e {
        InputEvent::WindowFocusChanged { focused } => focused,
        _ => false,
    }
}

/// The focus flag after a batch of events has been applied, starting from
/// `init`: each focus-changed event overwrites the flag in arrival order, so
/// the last one wins; every other event leaves it alone.
pub open spec fn folded_focus(events: Seq<InputEvent>, init: bool) -> bool
    decreases events.len(),
{
    if events.len() == 0 {
        init
    } else if is_focus_event(events.last()) {
        focus_value(events.last())
    } else {
        folded_focus(events.drop_last(), init)
    }
}

/// If a batch contains at least one focus-changed event, the folded flag is
/// exactly the value of the last such event, whatever the initial flag and
/// whatever other events surround it.
pub proof fn lemma_focus_last_wins(events: Seq<InputEvent>, init: bool, i: int)
    requires
        0 <= i < events.len(),
        is_focus_event(events[i]),
        forall|j: int| i < j < events.len() ==> !is_focus_event(events[j]),
    ensures
        folded_focus(events, init) == focus_value(events[i]),
    decreases events.len(),
{
    if i == events.len() - 1 {
    } else {
        assert(!is_focus_event(events.last()));
        assert(events.drop_last()[i] == events[i]);
        lemma_focus_last_wins(events.drop_last(), init, i);
    }
}

/// If a batch contains no focus-changed event at all, the flag is unchanged.
pub proof fn lemma_no_focus_event_no_change(events: Seq<InputEvent>, init: bool)
    requires
        forall|j: int| 0 <= j < events.len() ==> !is_focus_event(events[j]),
    ensures
        folded_focus(events, init) == init,
    decreases events.len(),
{
    if events.len() > 0 {
        lemma_no_focus_event_no_change(events.drop_last(), init);
    }
}

/// Per-frame tracker of window focus. It owns a private read position into
/// the event stream and exclusive write access to [`WindowFocus`].
#[derive(Debug)]
pub struct MouseFocusUpdateSystem {
    pub reader: ReaderId,
}

/// Builds the focus tracker against a live event channel: registers its read
/// cursor and creates the `WindowFocus` resource, initially unfocused.
pub fn build_mouse_focus_update_system(channel: &EventChannel) -> (r: (
    MouseFocusUpdateSystem,
    WindowFocus,
))
    ensures
        r.0.reader.pos() == channel@.len(),
        !r.1.is_focused,
{
    (MouseFocusUpdateSystem { reader: channel.register_reader() }, WindowFocus::new())
}

impl MouseFocusUpdateSystem {
    /// One frame: drains every event written since the last read and leaves
    /// `focus.is_focused` equal to the fold of that batch over its previous
    /// value — the last focus-changed event wins, other events are ignored.
    pub fn run(&mut self, channel: &EventChannel, focus: &mut WindowFocus)
        requires
            reader_ok(old(self).reader, *channel),
        ensures
            final(self).reader.pos() == channel@.len(),
            final(focus).is_focused == folded_focus(
                channel@.subrange(old(self).reader.pos() as int, channel@.len() as int),
                old(focus).is_focused,
            ),
    {
        let events = channel.read(&mut self.reader);
        let ghost init = focus.is_focused;
        let mut i: usize = 0;
        while i < events.len()
            invariant
                i <= events@.len(),
                focus.is_focused == folded_focus(events@.take(i as int), init),
            decreases events@.len() - i,
        {
            proof {
                assert(events@.take(i + 1 as int).drop_last() =~= events@.take(i as int));
                assert(events@.take(i + 1 as int).last() == events@[i as int]);
            }
            match events[i] {
                InputEvent::WindowFocusChanged { focused } => {
                    focus.is_focused = focused;
                },
                _ => {},
            }
            i = i + 1;
        }
        proof {
            assert(events@.take(events@.len() as int) =~= events@);
        }
    }
}

} // verus!
