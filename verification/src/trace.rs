//! Whole runs of the overlay: what holds of a frame from its first step to
//! its last, and of any sequence of messages and frames.

use vstd::prelude::*;
use crate::context::{dimensions_of, ClientRect, ContextState};
use crate::frame::{FrameStep, Phase, StepResult};
use crate::input::queued_by;
use crate::overlay::{Disposition, OverlayView};

verus! {

/// Something the host does to the overlay.
pub enum HostEvent {
    /// A window message arrives while the UI wants, or does not want, input.
    Message { umsg: u32, wparam: usize, lparam: isize, wants_keyboard: bool, wants_pointer: bool },
    /// The client area was read again after a resize message.
    Resized { rect: Option<ClientRect> },
    /// The host presents a frame on `surface`, and the steps of the frame go
    /// as `results` tells: `results(k)` is the result of the step that
    /// follows `k` earlier ones.
    Present { surface: isize, results: spec_fn(nat) -> StepResult },
}

impl<F> OverlayView<F> {
    /// The overlay at the end of the frame in flight, and the steps issued
    /// on the way, where the steps go as `results` tells from its `k`-th
    /// entry on.
    pub open spec fn rest_of_frame(self, results: spec_fn(nat) -> StepResult, k: nat) -> (
        Self,
        Seq<FrameStep>,
    )
        decreases 8 - self.phase.rank(),
    {
        if self.phase == Phase::Idle {
            (self, Seq::empty())
        } else {
            let (next, step) = self.advance(results(k));
            let (last, steps) = next.rest_of_frame(results, k + 1);
            (last, seq![step] + steps)
        }
    }

    /// The overlay after a whole frame on `surface`, and the steps issued
    /// for it, first to last.
    pub open spec fn frame(self, surface: isize, results: spec_fn(nat) -> StepResult) -> (
        Self,
        Seq<FrameStep>,
    ) {
        let (started, first) = self.begin(surface);
        if first is CallThrough {
            (started, seq![first])
        } else {
            let (last, steps) = started.rest_of_frame(results, 0);
            (last, seq![first] + steps)
        }
    }

    /// The overlay after a sequence of events, and all the steps issued on
    /// the way.
    pub open spec fn run(self, events: Seq<HostEvent>) -> (Self, Seq<FrameStep>)
        decreases events.len(),
    {
        if events.len() == 0 {
            (self, Seq::empty())
        } else {
            let (before, steps) = self.run(events.drop_last());
            match events.last() {
                HostEvent::Message { umsg, wparam, lparam, wants_keyboard, wants_pointer } => (
                    before.message(umsg, wparam as int, lparam as int, wants_keyboard, wants_pointer).0,
                    steps,
                ),
                HostEvent::Resized { rect } => (before.resized(rect).0, steps),
                HostEvent::Present { surface, results } => {
                    let (after, more) = before.frame(surface, results);
                    (after, steps + more)
                },
            }
        }
    }
}

/// The number of call-throughs among some steps.
pub open spec fn call_throughs(steps: Seq<FrameStep>) -> nat
    decreases steps.len(),
{
    if steps.len() == 0 {
        0
    } else {
        call_throughs(steps.drop_last()) + if steps.last() is CallThrough {
            1nat
        } else {
            0nat
        }
    }
}

/// The number of presentation calls among some events.
pub open spec fn presentations(events: Seq<HostEvent>) -> nat
    decreases events.len(),
{
    if events.len() == 0 {
        0
    } else {
        presentations(events.drop_last()) + if events.last() is Present {
            1nat
        } else {
            0nat
        }
    }
}

/// Whether steps come in the order of a frame, none of them twice.
pub open spec fn in_order(steps: Seq<FrameStep>) -> bool {
    forall|i: int, j: int| 0 <= i < j < steps.len() ==> steps[i].order() < steps[j].order()
}

/// Steps without a call-through count none.
proof fn lemma_no_call_through(steps: Seq<FrameStep>)
    requires
        forall|i: int| 0 <= i < steps.len() ==> !(steps[i] is CallThrough),
    ensures
        call_throughs(steps) == 0,
    decreases steps.len(),
{
    if steps.len() > 0 {
        lemma_no_call_through(steps.drop_last());
    }
}

/// The call-throughs of two runs of steps add up.
proof fn lemma_call_throughs_add(a: Seq<FrameStep>, b: Seq<FrameStep>)
    ensures
        call_throughs(a + b) == call_throughs(a) + call_throughs(b),
    decreases b.len(),
{
    if b.len() == 0 {
        assert(a + b =~= a);
    } else {
        assert((a + b).drop_last() =~= a + b.drop_last());
        lemma_call_throughs_add(a, b.drop_last());
    }
}

/// Steps in order that end with the call-through hold exactly one.
proof fn lemma_one_call_through(steps: Seq<FrameStep>)
    requires
        steps.len() >= 1,
        in_order(steps),
        steps.last() is CallThrough,
    ensures
        call_throughs(steps) == 1,
{
    let front = steps.drop_last();
    assert forall|i: int| 0 <= i < front.len() implies !(front[i] is CallThrough) by {
        assert(steps[i].order() < steps[steps.len() - 1].order());
    }
    lemma_no_call_through(front);
}

/// Every operation keeps a well-formed overlay well-formed.
pub proof fn lemma_wf_is_kept<F>(
    v: OverlayView<F>,
    fun: F,
    umsg: u32,
    wparam: int,
    lparam: int,
    wants_keyboard: bool,
    wants_pointer: bool,
    rect: Option<ClientRect>,
    surface: isize,
    result: StepResult,
)
    requires
        v.wf(),
    ensures
        OverlayView::<F>::initial().wf(),
        v.registered(fun).wf(),
        v.message(umsg, wparam, lparam, wants_keyboard, wants_pointer).0.wf(),
        v.resized(rect).0.wf(),
        v.destroyed().0.wf(),
        (OverlayView { events: Seq::empty(), ..v }).wf(),
        v.begin(surface).0.wf(),
        v.advance(result).0.wf(),
{
}

/// A frame in flight comes to its end whatever the results of its steps:
/// the steps still to come are taken in the order of a frame, each later in
/// that order than the step the overlay waits for, and the last of them,
/// and no other, is the call-through with the surface that the frame was
/// presented with. The overlay is idle afterwards. Unless the context is
/// still being created, it stays as it is, and whatever is painted is
/// painted with its dimensions.
pub proof fn lemma_frame_ends<F>(v: OverlayView<F>, results: spec_fn(nat) -> StepResult, k: nat)
    requires
        v.phase != Phase::Idle,
    ensures
        ({
            let (last, steps) = v.rest_of_frame(results, k);
            &&& last.phase == Phase::Idle
            &&& last.frame_surface == v.frame_surface
            &&& steps.len() >= 1
            &&& steps.last() == FrameStep::CallThrough { surface: v.frame_surface }
            &&& call_throughs(steps) == 1
            &&& in_order(steps)
            &&& forall|i: int| 0 <= i < steps.len() ==> v.phase.rank() < #[trigger] steps[i].order()
            &&& v.phase != Phase::Creating ==> last.context == v.context
            &&& v.phase != Phase::Creating ==> forall|i: int|
                0 <= i < steps.len() && #[trigger] steps[i] is Paint ==> steps[i]
                    == FrameStep::Paint { dimensions: v.context.dimensions }
        }),
    decreases 8 - v.phase.rank(),
{
    let (next, step) = v.advance(results(k));
    let (last, rest) = next.rest_of_frame(results, k + 1);
    let steps = seq![step] + rest;
    assert(v.rest_of_frame(results, k) == (last, steps));
    assert(v.phase.rank() < step.order());
    assert(next.phase == step.awaited_in());
    assert(next.frame_surface == v.frame_surface);
    if next.phase == Phase::Idle {
        assert(rest =~= Seq::<FrameStep>::empty());
        assert(steps =~= seq![step]);
    } else {
        lemma_frame_ends(next, results, k + 1);
        assert forall|i: int, j: int| 0 <= i < j < steps.len() implies steps[i].order()
            < steps[j].order() by {
            assert(steps[j] == rest[j - 1]);
            if i > 0 {
                assert(steps[i] == rest[i - 1]);
            }
        }
        assert forall|i: int| 0 <= i < steps.len() implies v.phase.rank()
            < #[trigger] steps[i].order() by {
            if i > 0 {
                assert(steps[i] == rest[i - 1]);
            }
        }
        if v.phase != Phase::Creating {
            assert forall|i: int| 0 <= i < steps.len() && #[trigger] steps[i] is Paint implies steps[i]
                == (FrameStep::Paint { dimensions: v.context.dimensions }) by {
                if i > 0 {
                    assert(steps[i] == rest[i - 1]);
                }
            }
        }
    }
    lemma_one_call_through(steps);
}

/// A presentation call leads to exactly one call-through, with the surface
/// it was made with, as the last step of its frame, however the steps
/// before it go. The steps are taken in the order of a frame, so that
/// textures are set before anything is painted and freed only after it, and
/// the host's context is restored before the call-through. An overlay that
/// was idle before is idle again afterwards.
pub proof fn lemma_frame_calls_through_once<F>(
    v: OverlayView<F>,
    surface: isize,
    results: spec_fn(nat) -> StepResult,
)
    ensures
        ({
            let (last, steps) = v.frame(surface, results);
            &&& steps.len() >= 1
            &&& steps.last() == FrameStep::CallThrough { surface }
            &&& call_throughs(steps) == 1
            &&& in_order(steps)
            &&& last.phase == v.phase
        }),
{
    let (started, first) = v.begin(surface);
    if first is CallThrough {
        assert(v.frame(surface, results).1 =~= seq![first]);
        lemma_one_call_through(seq![first]);
    } else {
        lemma_frame_ends(started, results, 0);
        let (last, rest) = started.rest_of_frame(results, 0);
        let steps = seq![first] + rest;
        assert(v.frame(surface, results) == (last, steps));
        assert(first.order() == started.phase.rank());
        assert forall|i: int, j: int| 0 <= i < j < steps.len() implies steps[i].order()
            < steps[j].order() by {
            assert(steps[j] == rest[j - 1]);
            if i > 0 {
                assert(steps[i] == rest[i - 1]);
            }
        }
        lemma_one_call_through(steps);
    }
}

/// However window messages, resizes and presentation calls follow one
/// another, and however the steps of each frame go, the host's own
/// presentation function is called through to exactly as often as the host
/// called to present: no call-through is skipped and none is made twice.
pub proof fn lemma_call_through_never_skipped<F>(v: OverlayView<F>, events: Seq<HostEvent>)
    ensures
        call_throughs(v.run(events).1) == presentations(events),
    decreases events.len(),
{
    if events.len() > 0 {
        lemma_call_through_never_skipped(v, events.drop_last());
        let (before, steps) = v.run(events.drop_last());
        match events.last() {
            HostEvent::Present { surface, results } => {
                lemma_frame_calls_through_once(before, surface, results);
                lemma_call_throughs_add(steps, before.frame(surface, results).1);
            },
            _ => {},
        }
    }
}

/// Within one frame nothing is painted after textures were freed, and
/// nothing before the textures of the frame were set.
pub proof fn lemma_paint_between_upload_and_free<F>(
    v: OverlayView<F>,
    surface: isize,
    results: spec_fn(nat) -> StepResult,
    i: int,
    j: int,
)
    requires
        0 <= i < v.frame(surface, results).1.len(),
        0 <= j < v.frame(surface, results).1.len(),
        v.frame(surface, results).1[j] is Paint,
    ensures
        v.frame(surface, results).1[i] is UploadTextures ==> i < j,
        v.frame(surface, results).1[i] is FreeTextures ==> j < i,
{
    lemma_frame_calls_through_once(v, surface, results);
    let steps = v.frame(surface, results).1;
    if i < j {
        assert(steps[i].order() < steps[j].order());
    }
    if j < i {
        assert(steps[j].order() < steps[i].order());
    }
}

/// Dimensions that a resize stored are the dimensions of the next frame:
/// whatever that frame paints, it paints with them.
pub proof fn lemma_resize_reaches_next_frame<F>(
    v: OverlayView<F>,
    rect: ClientRect,
    surface: isize,
    results: spec_fn(nat) -> StepResult,
    i: int,
)
    requires
        v.resized(Some(rect)).1 is Ok,
        0 <= i < v.resized(Some(rect)).0.frame(surface, results).1.len(),
        v.resized(Some(rect)).0.frame(surface, results).1[i] is Paint,
    ensures
        dimensions_of(rect) is Ok,
        v.resized(Some(rect)).0.context.dimensions == dimensions_of(rect)->Ok_0,
        v.resized(Some(rect)).0.frame(surface, results).1[i] == (FrameStep::Paint {
            dimensions: dimensions_of(rect)->Ok_0,
        }),
{
    let resized = v.resized(Some(rect)).0;
    let (started, first) = resized.begin(surface);
    if !(first is CallThrough) {
        lemma_frame_ends(started, results, 0);
        let (last, rest) = started.rest_of_frame(results, 0);
        let steps = seq![first] + rest;
        assert(resized.frame(surface, results) == (last, steps));
        if i > 0 {
            assert(steps[i] == rest[i - 1]);
        }
    } else {
        assert(resized.frame(surface, results).1 =~= seq![first]);
    }
}

/// What is registered once stays: the surface of the shadow context, the
/// UI builder and the saved window procedure are each set at most once,
/// whatever happens to the overlay afterwards.
pub proof fn lemma_registered_once<F>(
    v: OverlayView<F>,
    fun: F,
    umsg: u32,
    wparam: int,
    lparam: int,
    wants_keyboard: bool,
    wants_pointer: bool,
    rect: Option<ClientRect>,
    surface: isize,
    result: StepResult,
)
    requires
        v.wf(),
    ensures
        v.surface is Some ==> {
            &&& v.registered(fun).surface == v.surface
            &&& v.message(umsg, wparam, lparam, wants_keyboard, wants_pointer).0.surface == v.surface
            &&& v.resized(rect).0.surface == v.surface
            &&& v.destroyed().0.surface == v.surface
            &&& v.begin(surface).0.surface == v.surface
            &&& v.advance(result).0.surface == v.surface
        },
        v.builder is Some ==> {
            &&& v.registered(fun).builder == v.builder
            &&& v.message(umsg, wparam, lparam, wants_keyboard, wants_pointer).0.builder == v.builder
            &&& v.resized(rect).0.builder == v.builder
            &&& v.destroyed().0.builder == v.builder
            &&& v.begin(surface).0.builder == v.builder
            &&& v.advance(result).0.builder == v.builder
        },
        v.window_procedure is Some ==> {
            &&& v.registered(fun).window_procedure == v.window_procedure
            &&& v.message(
                umsg,
                wparam,
                lparam,
                wants_keyboard,
                wants_pointer,
            ).0.window_procedure == v.window_procedure
            &&& v.resized(rect).0.window_procedure == v.window_procedure
            &&& v.destroyed().0.window_procedure == v.window_procedure
            &&& v.begin(surface).0.window_procedure == v.window_procedure
            &&& v.advance(result).0.window_procedure == v.window_procedure
        },
{
}

/// Whether a message is consumed depends on nothing but what the UI wants
/// as the message arrives: while the context is ready, a message that
/// arrives while the UI wants keyboard or pointer input is consumed, and
/// the next one, arriving after the UI let go, is forwarded to the window
/// procedure that was saved. Both are taken in to the queue all the same.
pub proof fn lemma_focus_is_arbitrated_per_message<F>(
    v: OverlayView<F>,
    first: (u32, int, int),
    wants_keyboard: bool,
    wants_pointer: bool,
    second: (u32, int, int),
)
    requires
        v.wf(),
        v.context.state == ContextState::Ready,
        wants_keyboard || wants_pointer,
    ensures
        ({
            let (held, first_reply) = v.message(
                first.0,
                first.1,
                first.2,
                wants_keyboard,
                wants_pointer,
            );
            let (released, second_reply) = held.message(second.0, second.1, second.2, false, false);
            &&& first_reply.disposition == Disposition::Consume
            &&& v.window_procedure matches Some(procedure) && second_reply.disposition
                == (Disposition::Forward { procedure })
            &&& released.events == v.events + queued_by(first.0, first.1, first.2) + queued_by(
                second.0,
                second.1,
                second.2,
            )
        }),
{
}

} // verus!
