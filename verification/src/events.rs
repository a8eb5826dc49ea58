//! The window/device event stream: an append-only broadcast log in which
//! every reader holds its own cursor and sees every event exactly once.

use vstd::prelude::*;

verus! {

/// One record of the event stream.
///
/// Pointer deltas are device-space, unitless values carried as IEEE-754
/// double-precision bit patterns; the systems never combine them numerically,
/// they only route them.
#[derive(Clone, Copy, PartialEq, Eq, Structural, Debug)]
pub enum InputEvent {
    /// Raw pointer motion of `(dx, dy)`, each field the bit pattern of the
    /// delta.
    DeviceMotion { dx_bits: u64, dy_bits: u64 },
    /// The window gained (`true`) or lost (`false`) input focus.
    WindowFocusChanged { focused: bool },
    /// Any other window or device event; present only so that readers step
    /// over it.
    Other,
}

/// Append-only event log. Readers are registered against it and then drain
/// everything written since their last read; no reader disturbs another.
pub struct EventChannel {
    events: Vec<InputEvent>,
}

/// A private read position into an [`EventChannel`]: the index of the first
/// event this reader has not yet seen.
#[derive(Debug)]
pub struct ReaderId {
    pos: usize,
}

impl ReaderId {
    /// The first index this reader has not yet consumed.
    pub closed spec fn pos(self) -> nat {
        self.pos as nat
    }

    /// The cursor position, for callers that must check a reader against a
    /// channel before reading.
    pub fn position(&self) -> (p: usize)
        ensures
            p == self.pos(),
    {
        self.pos
    }
}

impl View for EventChannel {
    type V = Seq<InputEvent>;

    /// The full history of events written so far, oldest first.
    closed spec fn view(&self) -> Seq<InputEvent> {
        self.events@
    }
}

/// Consecutive reads partition the stream: the batch a reader drains between
/// positions `p` and `q` followed by the batch from `q` to the end is exactly
/// everything from `p` on. No event is lost and none is delivered twice, even
/// when a frame is skipped and two frames' worth of events is drained at
/// once.
pub proof fn lemma_reads_partition_stream(events: Seq<InputEvent>, p: int, q: int)
    requires
        0 <= p <= q <= events.len(),
    ensures
        events.subrange(p, q) + events.subrange(q, events.len() as int) == events.subrange(
            p,
            events.len() as int,
        ),
{
    assert(events.subrange(p, q) + events.subrange(q, events.len() as int) =~= events.subrange(
        p,
        events.len() as int,
    ));
}

/// A reader is usable on a channel as long as its cursor does not point past
/// the end of the log; every reader registered on the channel stays usable
/// because the log only grows.
pub open spec fn reader_ok(reader: ReaderId, channel: EventChannel) -> bool {
    reader.pos() <= channel@.len()
}

impl EventChannel {
    /// An empty log.
    pub fn new() -> (c: EventChannel)
        ensures
            c@ == Seq::<InputEvent>::empty(),
    {
        let c = EventChannel { events: Vec::new() };
        proof {
            assert(c@ =~= Seq::<InputEvent>::empty());
        }
        c
    }

    /// Appends one event to the log. Existing read positions are unaffected,
    /// so every reader will still see this event exactly once.
    pub fn single_write(&mut self, event: InputEvent)
        ensures
            final(self)@ == old(self)@.push(event),
    {
        self.events.push(event);
    }

    /// How many events have been written so far.
    pub fn len(&self) -> (n: usize)
        ensures
            n == self@.len(),
    {
        self.events.len()
    }

    /// Hands out a fresh cursor positioned at the current end of the log: a
    /// new reader sees only events written after registration.
    pub fn register_reader(&self) -> (r: ReaderId)
        ensures
            r.pos() == self@.len(),
            reader_ok(r, *self),
    {
        ReaderId { pos: self.events.len() }
    }

    /// Drains every event written since `reader` last read, in arrival order,
    /// and advances the cursor to the end of the log.
    pub fn read(&self, reader: &mut ReaderId) -> (out: Vec<InputEvent>)
        requires
            reader_ok(*old(reader), *self),
        ensures
            out@ == self@.subrange(old(reader).pos() as int, self@.len() as int),
            final(reader).pos() == self@.len(),
    {
        let mut out: Vec<InputEvent> = Vec::new();
        let start = reader.pos;
        let mut i: usize = start;
        while i < self.events.len()
            invariant
                start <= i <= self.events.len(),
                out@ == self.events@.subrange(start as int, i as int),
            decreases self.events.len() - i,
        {
            out.push(self.events[i]);
            proof {
                assert(self.events@.subrange(start as int, i + 1 as int)
                    =~= self.events@.subrange(start as int, i as int).push(self.events@[i as int]));
            }
            i = i + 1;
        }
        reader.pos = self.events.len();
        out
    }
}

} // verus!
