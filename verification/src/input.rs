//! The input router: collects the events that window messages stand for and
//! hands them out, once, as a snapshot for the next frame.

use vstd::prelude::*;
use crate::event::{
    decode_message, event_of, InputEvent, WM_KEYDOWN, WM_KEYUP, WM_SIZE, WM_SYSKEYDOWN, WM_SYSKEYUP,
};
use crate::keys::key_of;

verus! {

/// The number of time units in one second: time is counted in steps of 100
/// nanoseconds.
pub const TICKS_PER_SECOND: i64 = 10_000_000;

/// The frame rate the UI is told to expect: a frame is predicted to last one
/// second divided by this.
pub const PREDICTED_FRAME_RATE: u32 = 60;

/// What a window message asks of its receiver.
#[derive(Clone, Copy, Debug, PartialEq, Eq, Structural)]
pub enum Handled {
    /// The message stood for an input event, which is now queued.
    Event,
    /// The window changed size: the stored dimensions are stale and have to
    /// be read again before this message is answered.
    Resize,
    /// The message means nothing to the overlay.
    Nothing,
}

/// The input gathered since the last frame.
#[derive(Debug)]
pub struct InputSnapshot {
    /// The events, oldest first.
    pub events: Vec<InputEvent>,
    /// The system time at which the snapshot was taken, in ticks.
    pub time: i64,
    /// The predicted duration of the coming frame, as frames per second.
    pub frame_rate: u32,
    /// Whether the window has the focus.
    pub focused: bool,
}

/// Collects input events between frames.
pub struct InputHandler {
    events: Vec<InputEvent>,
    pub requests_reinitialization: bool,
}

/// What a message does to the stored dimensions and the queue.
pub open spec fn handled_of(umsg: u32, wparam: int, lparam: int) -> Handled {
    if umsg == WM_SIZE {
        Handled::Resize
    } else if event_of(umsg, wparam, lparam) is Some {
        Handled::Event
    } else {
        Handled::Nothing
    }
}

/// The events, none or one, that a message adds to the queue.
pub open spec fn queued_by(umsg: u32, wparam: int, lparam: int) -> Seq<InputEvent> {
    match event_of(umsg, wparam, lparam) {
        Some(event) => seq![event],
        None => Seq::empty(),
    }
}

impl InputHandler {
    /// The queued events, oldest first.
    pub closed spec fn pending(&self) -> Seq<InputEvent> {
        self.events@
    }

    /// The value of the `requests_reinitialization` flag.
    pub closed spec fn reinitialization_requested(&self) -> bool {
        self.requests_reinitialization
    }

    /// A handler with nothing queued.
    pub fn new() -> (handler: Self)
        ensures
            handler.pending() == Seq::<InputEvent>::empty(),
            !handler.reinitialization_requested(),
    {
        Self { events: Vec::new(), requests_reinitialization: false }
    }

    /// The number of queued events.
    pub fn pending_len(&self) -> (n: usize)
        ensures
            n == self.pending().len(),
    {
        self.events.len()
    }

    /// Takes in one window message. The event it stands for, if any, goes to
    /// the end of the queue; a message of any other kind leaves the queue as
    /// it was.
    pub fn handle_message(&mut self, umsg: u32, wparam: usize, lparam: isize) -> (handled: Handled)
        ensures
            final(self).pending() == old(self).pending() + queued_by(
                umsg,
                wparam as int,
                lparam as int,
            ),
            final(self).reinitialization_requested() == old(self).reinitialization_requested(),
            handled == handled_of(umsg, wparam as int, lparam as int),
    {
        if umsg == WM_SIZE {
            return Handled::Resize;
        }
        match decode_message(umsg, wparam, lparam) {
            Some(event) => {
                self.events.push(event);
                Handled::Event
            },
            None => Handled::Nothing,
        }
    }

    /// Empties the queue into a snapshot stamped with `time`, the system
    /// time in ticks.
    pub fn collect_input(&mut self, time: i64) -> (snapshot: InputSnapshot)
        ensures
            snapshot.events@ == old(self).pending(),
            snapshot.time == time,
            snapshot.frame_rate == PREDICTED_FRAME_RATE,
            snapshot.focused,
            final(self).pending() == Seq::<InputEvent>::empty(),
            final(self).reinitialization_requested() == old(self).reinitialization_requested(),
    {
        let mut events: Vec<InputEvent> = Vec::new();
        std::mem::swap(&mut self.events, &mut events);
        InputSnapshot { events, time, frame_rate: PREDICTED_FRAME_RATE, focused: true }
    }
}

/// One use of the input handler: a message taken in, or the queue
/// collected.
pub enum InputOp {
    Message { umsg: u32, wparam: usize, lparam: isize },
    Collect,
}

/// The queue after some uses of the handler, and the events that the
/// collections among them handed out, in the order in which they were
/// handed out.
pub open spec fn after_ops(pending: Seq<InputEvent>, ops: Seq<InputOp>) -> (
    Seq<InputEvent>,
    Seq<InputEvent>,
)
    decreases ops.len(),
{
    if ops.len() == 0 {
        (pending, Seq::empty())
    } else {
        let (queue, handed) = after_ops(pending, ops.drop_last());
        match ops.last() {
            InputOp::Message { umsg, wparam, lparam } => (
                queue + queued_by(umsg, wparam as int, lparam as int),
                handed,
            ),
            InputOp::Collect => (Seq::empty(), handed + queue),
        }
    }
}

/// The events that the messages among some uses of the handler stand for,
/// in the order of the messages.
pub open spec fn all_queued(ops: Seq<InputOp>) -> Seq<InputEvent>
    decreases ops.len(),
{
    if ops.len() == 0 {
        Seq::empty()
    } else {
        all_queued(ops.drop_last()) + match ops.last() {
            InputOp::Message { umsg, wparam, lparam } => queued_by(
                umsg,
                wparam as int,
                lparam as int,
            ),
            InputOp::Collect => Seq::empty(),
        }
    }
}

/// However messages and collections follow one another, no event is lost
/// and none is handed out twice: what was handed out, followed by what is
/// still queued, is what was queued at first followed by the events of all
/// the messages, in their order.
pub proof fn lemma_nothing_lost_nothing_twice(pending: Seq<InputEvent>, ops: Seq<InputOp>)
    ensures
        after_ops(pending, ops).1 + after_ops(pending, ops).0 == pending + all_queued(ops),
    decreases ops.len(),
{
    if ops.len() == 0 {
        assert(Seq::<InputEvent>::empty() + pending =~= pending + Seq::<InputEvent>::empty());
    } else {
        lemma_nothing_lost_nothing_twice(pending, ops.drop_last());
        let (queue, handed) = after_ops(pending, ops.drop_last());
        let before = all_queued(ops.drop_last());
        assert(handed + queue == pending + before);
        match ops.last() {
            InputOp::Message { umsg, wparam, lparam } => {
                let more = queued_by(umsg, wparam as int, lparam as int);
                assert(handed + (queue + more) =~= (handed + queue) + more);
                assert((pending + before) + more =~= pending + (before + more));
            },
            InputOp::Collect => {
                assert((handed + queue) + Seq::<InputEvent>::empty() =~= handed + queue);
                assert(pending + (before + Seq::<InputEvent>::empty()) =~= pending + before);
            },
        }
    }
}

/// A key message whose code names no known key queues nothing, and a
/// message of a kind that stands for no input queues nothing either: the
/// queue is as long as before.
pub proof fn lemma_unknown_input_queues_nothing(umsg: u32, wparam: int, lparam: int)
    ensures
        (umsg == WM_KEYDOWN || umsg == WM_KEYUP || umsg == WM_SYSKEYDOWN || umsg == WM_SYSKEYUP)
            && key_of(wparam) is None ==> queued_by(umsg, wparam, lparam).len() == 0,
        event_of(umsg, wparam, lparam) is None ==> queued_by(umsg, wparam, lparam).len() == 0,
        event_of(umsg, wparam, lparam) is Some ==> queued_by(umsg, wparam, lparam).len() == 1,
        umsg == WM_SIZE ==> queued_by(umsg, wparam, lparam).len() == 0,
{
}

} // verus!
