//! The overlay itself: one object that holds what the render side and the
//! message side share, and that decides, message by message and step by
//! step, what happens next.

use vstd::prelude::*;
use crate::context::{
    client_dimensions, dimensions_of, ClientRect, ContextState, Dimensions, ShadowContext,
};
use crate::error::OverlayError;
use crate::event::InputEvent;
use crate::frame::{FrameStep, Phase, StepResult};
use crate::input::{
    handled_of, queued_by, Handled, InputHandler, InputSnapshot, PREDICTED_FRAME_RATE,
};
use crate::textures::{append_delta, clear_delta, delta_view, empty_delta, DeltaView};

verus! {

/// What becomes of a window message once the overlay has seen it.
#[derive(Clone, Copy, Debug, PartialEq, Eq, Structural)]
pub enum Disposition {
    /// The message is answered here; the host does not see it.
    Consume,
    /// The message goes on to the window procedure that was in place before
    /// the window was subclassed.
    Forward { procedure: usize },
}

/// The overlay's answer to a window message.
#[derive(Clone, Copy, Debug, PartialEq, Eq, Structural)]
pub struct Reply {
    /// What the message meant to the overlay. On `Handled::Resize` the
    /// caller reads the client area and reports it before it goes on.
    pub handled: Handled,
    /// Where the message goes.
    pub disposition: Disposition,
}

/// The overlay as contracts see it.
pub struct OverlayView<F> {
    /// The shadow context.
    pub context: ShadowContext,
    /// The surface of the first frame, which the shadow context draws on.
    pub surface: Option<isize>,
    /// The window procedure that was in place before the window was
    /// subclassed.
    pub window_procedure: Option<usize>,
    /// The registered UI builder.
    pub builder: Option<F>,
    /// The input events that wait for the next frame, oldest first.
    pub events: Seq<InputEvent>,
    /// The texture delta that waits to be applied: what earlier frames
    /// left behind and what the frame in flight added.
    pub textures: DeltaView,
    /// The step the overlay waits to hear about.
    pub phase: Phase,
    /// The surface that the frame in flight, or else the last frame, was
    /// presented with.
    pub frame_surface: isize,
    /// Why the frame in flight, or else the last frame, was cut short.
    pub last_error: Option<OverlayError>,
}

impl<F> OverlayView<F> {
    /// An overlay that has seen nothing yet.
    pub open spec fn initial() -> Self {
        OverlayView {
            context: ShadowContext {
                state: ContextState::Uninitialized,
                dimensions: Dimensions { width: 0, height: 0 },
            },
            surface: None,
            window_procedure: None,
            builder: None,
            events: Seq::empty(),
            textures: DeltaView::empty(),
            phase: Phase::Idle,
            frame_surface: 0,
            last_error: None,
        }
    }

    /// What holds of an overlay at any time: a context that was created has
    /// a surface and a window procedure to forward to, and before that no
    /// window procedure is saved; a frame in flight has a surface; the
    /// context is being created only while there is none, and it is entered
    /// only while it is ready and a builder is registered.
    pub open spec fn wf(self) -> bool {
        &&& self.context.state != ContextState::Uninitialized ==> self.surface is Some
            && self.window_procedure is Some
        &&& self.context.state == ContextState::Uninitialized ==> self.window_procedure is None
        &&& self.phase != Phase::Idle ==> self.surface is Some
        &&& self.phase == Phase::Creating ==> self.context.state == ContextState::Uninitialized
        &&& self.phase != Phase::Idle && self.phase != Phase::Creating ==> self.context.state
            == ContextState::Ready && self.builder is Some
    }

    /// The overlay after `fun` was offered as UI builder: the first one
    /// offered stays.
    pub open spec fn registered(self, fun: F) -> Self {
        match self.builder {
            Some(_) => self,
            None => OverlayView { builder: Some(fun), ..self },
        }
    }

    /// The surface that the shadow context belongs to.
    pub open spec fn context_surface(self) -> isize {
        match self.surface {
            Some(surface) => surface,
            None => self.frame_surface,
        }
    }

    /// Where a message goes that the overlay does not keep.
    pub open spec fn forward(self) -> Disposition {
        match self.window_procedure {
            Some(procedure) => Disposition::Forward { procedure },
            None => Disposition::Consume,
        }
    }

    /// Where a message goes, given whether the UI wants input.
    pub open spec fn arbitrate(self, wanted: bool) -> Disposition {
        if wanted {
            Disposition::Consume
        } else {
            self.forward()
        }
    }

    /// The overlay after a window message, and its answer.
    ///
    /// While the context is ready the message is first taken in and then
    /// arbitrated: it is consumed if the UI wants keyboard or pointer input
    /// and forwarded otherwise. Before the context exists there is nothing
    /// to forward to, and the message is consumed unseen. Once the context
    /// is released the message is forwarded unseen.
    pub open spec fn message(
        self,
        umsg: u32,
        wparam: int,
        lparam: int,
        wants_keyboard: bool,
        wants_pointer: bool,
    ) -> (Self, Reply) {
        match self.context.state {
            ContextState::Ready => (
                OverlayView { events: self.events + queued_by(umsg, wparam, lparam), ..self },
                Reply {
                    handled: handled_of(umsg, wparam, lparam),
                    disposition: self.arbitrate(wants_keyboard || wants_pointer),
                },
            ),
            ContextState::Uninitialized => (
                self,
                Reply { handled: Handled::Nothing, disposition: Disposition::Consume },
            ),
            ContextState::Destroyed => (
                self,
                Reply { handled: Handled::Nothing, disposition: self.forward() },
            ),
        }
    }

    /// The overlay after the client area was read again, `None` standing
    /// for a failed reading, and whether the new dimensions were stored.
    pub open spec fn resized(self, rect: Option<ClientRect>) -> (Self, Result<(), OverlayError>) {
        if self.context.state != ContextState::Ready {
            (self, Err(OverlayError::State))
        } else {
            match rect {
                Some(r) => match dimensions_of(r) {
                    Ok(dimensions) => (
                        OverlayView {
                            context: ShadowContext { dimensions, ..self.context },
                            ..self
                        },
                        Ok(()),
                    ),
                    Err(e) => (self, Err(e)),
                },
                None => (self, Err(OverlayError::SurfaceQuery)),
            }
        }
    }

    /// The overlay after it was asked to release the context, and whether
    /// it may be released. A context is not released under a frame.
    pub open spec fn destroyed(self) -> (Self, Result<(), OverlayError>) {
        if self.phase == Phase::Idle && self.context.state == ContextState::Ready {
            (
                OverlayView {
                    context: ShadowContext { state: ContextState::Destroyed, ..self.context },
                    ..self
                },
                Ok(()),
            )
        } else {
            (self, Err(OverlayError::State))
        }
    }

    /// Ends the frame: the call-through is all that is left.
    pub open spec fn finish(self) -> (Self, FrameStep) {
        (
            OverlayView { phase: Phase::Idle, ..self },
            FrameStep::CallThrough { surface: self.frame_surface },
        )
    }

    /// Notes why the frame is cut short, unless a reason is noted already.
    pub open spec fn noting(self, error: OverlayError) -> Self {
        match self.last_error {
            Some(_) => self,
            None => OverlayView { last_error: Some(error), ..self },
        }
    }

    /// Cuts the frame short before the shadow context was entered.
    pub open spec fn fail(self, error: OverlayError) -> (Self, FrameStep) {
        self.noting(error).finish()
    }

    /// Goes on to leaving the shadow context.
    pub open spec fn leave(self) -> (Self, FrameStep) {
        (
            OverlayView { phase: Phase::Leaving, ..self },
            FrameStep::LeaveContext { surface: self.context_surface() },
        )
    }

    /// Cuts the frame short after the shadow context was entered: the
    /// host's context is restored first.
    pub open spec fn abort(self, error: OverlayError) -> (Self, FrameStep) {
        self.noting(error).leave()
    }

    /// Goes on with a context that is ready: enters it, unless there is no
    /// builder to draw anything with.
    pub open spec fn enter(self) -> (Self, FrameStep) {
        match self.builder {
            Some(_) => (
                OverlayView { phase: Phase::Entering, ..self },
                FrameStep::EnterContext { surface: self.context_surface() },
            ),
            None => self.fail(OverlayError::UiCallbackMissing),
        }
    }

    /// The overlay after the host asked to present `surface`, and the first
    /// step of the frame.
    ///
    /// The first surface ever presented becomes the surface of the shadow
    /// context. A call that arrives while a frame is in flight is passed
    /// through untouched.
    pub open spec fn begin(self, surface: isize) -> (Self, FrameStep) {
        if self.phase != Phase::Idle {
            (self, FrameStep::CallThrough { surface })
        } else {
            let started = OverlayView {
                surface: match self.surface {
                    Some(first) => Some(first),
                    None => Some(surface),
                },
                frame_surface: surface,
                last_error: None,
                ..self
            };
            match started.context.state {
                ContextState::Destroyed => started.fail(OverlayError::State),
                ContextState::Uninitialized => (
                    OverlayView { phase: Phase::Creating, ..started },
                    FrameStep::CreateContext { surface: started.context_surface() },
                ),
                ContextState::Ready => started.enter(),
            }
        }
    }

    /// The overlay after the step it was waiting for went as `result`
    /// tells, and the next step of the frame.
    ///
    /// A step that failed cuts the frame short: what is left is to restore
    /// the host's context, if the shadow context was entered, and to call
    /// through. The failure is noted with the error that belongs to the
    /// step, except that a failed reading of the client area is always
    /// noted as such. A result that carries something the step did not ask
    /// for counts as done, and what it carries is dropped; a result that
    /// lacks what the step asked for counts as failed. With no frame in
    /// flight nothing changes.
    pub open spec fn advance(self, result: StepResult) -> (Self, FrameStep) {
        match self.phase {
            Phase::Idle => (self, FrameStep::CallThrough { surface: self.frame_surface }),
            Phase::Creating => match result {
                StepResult::ContextCreated { rect, window_procedure } => match dimensions_of(rect) {
                    Ok(dimensions) => (OverlayView {
                        context: ShadowContext { state: ContextState::Ready, dimensions },
                        window_procedure: Some(window_procedure),
                        ..self
                    }).enter(),
                    Err(e) => self.fail(e),
                },
                _ => self.fail(result.reason(OverlayError::ContextCreation)),
            },
            Phase::Entering => if result.failed() {
                self.abort(result.reason(OverlayError::ContextCreation))
            } else {
                (OverlayView { phase: Phase::Building, ..self }, FrameStep::BuildUi)
            },
            Phase::Building => match result {
                StepResult::UiBuilt { textures } => (
                    OverlayView {
                        textures: self.textures.merged(delta_view(textures)),
                        phase: Phase::Uploading,
                        ..self
                    },
                    FrameStep::UploadTextures,
                ),
                _ => self.abort(result.reason(OverlayError::UiBuild)),
            },
            Phase::Uploading => if result.failed() {
                self.abort(result.reason(OverlayError::Rasterizer))
            } else {
                (
                    OverlayView { phase: Phase::Painting, ..self },
                    FrameStep::Paint { dimensions: self.context.dimensions },
                )
            },
            Phase::Painting => if result.failed() {
                self.abort(result.reason(OverlayError::Rasterizer))
            } else {
                (OverlayView { phase: Phase::Freeing, ..self }, FrameStep::FreeTextures)
            },
            Phase::Freeing => if result.failed() {
                self.abort(result.reason(OverlayError::Rasterizer))
            } else {
                (OverlayView { textures: DeltaView::empty(), ..self }).leave()
            },
            Phase::Leaving => if result.failed() {
                self.fail(result.reason(OverlayError::ContextCreation))
            } else {
                self.finish()
            },
        }
    }
}

/// The state that the render side and the message side of the overlay
/// share. `F` is the type of the UI builder.
pub struct Overlay<F> {
    context: ShadowContext,
    surface: Option<isize>,
    window_procedure: Option<usize>,
    builder: Option<F>,
    input: InputHandler,
    textures: egui::TexturesDelta,
    phase: Phase,
    frame_surface: isize,
    last_error: Option<OverlayError>,
}

impl<F> View for Overlay<F> {
    type V = OverlayView<F>;

    closed spec fn view(&self) -> OverlayView<F> {
        OverlayView {
            context: self.context,
            surface: self.surface,
            window_procedure: self.window_procedure,
            builder: self.builder,
            events: self.input.pending(),
            textures: delta_view(self.textures),
            phase: self.phase,
            frame_surface: self.frame_surface,
            last_error: self.last_error,
        }
    }
}

/// Offers `fun` as the UI builder of the overlay. The first builder
/// offered is kept; every later one is dropped.
pub fn set_render_fn<F>(overlay: &mut Overlay<F>, fun: F)
    ensures
        final(overlay)@ == old(overlay)@.registered(fun),
        old(overlay)@.wf() ==> final(overlay)@.wf(),
{
    overlay.register(fun)
}

impl<F> Overlay<F> {
    /// An overlay that has seen nothing yet.
    pub fn new() -> (overlay: Self)
        ensures
            overlay@ == OverlayView::<F>::initial(),
            overlay@.wf(),
    {
        Overlay {
            context: ShadowContext::new(),
            surface: None,
            window_procedure: None,
            builder: None,
            input: InputHandler::new(),
            textures: empty_delta(),
            phase: Phase::Idle,
            frame_surface: 0,
            last_error: None,
        }
    }

    fn register(&mut self, fun: F)
        ensures
            final(self)@ == old(self)@.registered(fun),
    {
        if self.builder.is_none() {
            self.builder = Some(fun);
        }
    }

    /// The registered UI builder.
    pub fn render_fn(&self) -> (fun: Option<&F>)
        ensures
            fun is Some <==> self@.builder is Some,
            fun matches Some(f) ==> self@.builder == Some(*f),
    {
        self.builder.as_ref()
    }

    /// The state and the dimensions of the shadow context.
    pub fn context(&self) -> (context: ShadowContext)
        ensures
            context == self@.context,
    {
        self.context
    }

    /// The surface that the shadow context belongs to, once a frame was
    /// begun.
    pub fn surface(&self) -> (surface: Option<isize>)
        ensures
            surface == self@.surface,
    {
        self.surface
    }

    /// The window procedure to forward to, once the context was created.
    pub fn window_procedure(&self) -> (procedure: Option<usize>)
        ensures
            procedure == self@.window_procedure,
    {
        self.window_procedure
    }

    /// The texture delta that waits to be applied: what earlier frames left
    /// behind and what the frame in flight added.
    pub fn textures(&self) -> (delta: &egui::TexturesDelta)
        ensures
            delta_view(*delta) == self@.textures,
    {
        &self.textures
    }

    /// The number of input events that wait for the next frame.
    pub fn pending_events(&self) -> (n: usize)
        ensures
            n == self@.events.len(),
    {
        self.input.pending_len()
    }

    /// Whether a frame is in flight.
    pub fn in_frame(&self) -> (r: bool)
        ensures
            r == (self@.phase != Phase::Idle),
    {
        self.phase != Phase::Idle
    }

    /// The step the overlay waits to hear about.
    pub fn phase(&self) -> (phase: Phase)
        ensures
            phase == self@.phase,
    {
        self.phase
    }

    /// Why the frame in flight, or else the last frame, was cut short.
    pub fn last_error(&self) -> (error: Option<OverlayError>)
        ensures
            error == self@.last_error,
    {
        self.last_error
    }

    fn forward(&self) -> (disposition: Disposition)
        ensures
            disposition == self@.forward(),
    {
        match self.window_procedure {
            Some(procedure) => Disposition::Forward { procedure },
            None => Disposition::Consume,
        }
    }

    /// Takes in one window message and says where it goes. `wants_keyboard`
    /// and `wants_pointer` tell whether the UI currently wants input of
    /// that kind.
    pub fn window_message(
        &mut self,
        umsg: u32,
        wparam: usize,
        lparam: isize,
        wants_keyboard: bool,
        wants_pointer: bool,
    ) -> (reply: Reply)
        ensures
            (final(self)@, reply) == old(self)@.message(
                umsg,
                wparam as int,
                lparam as int,
                wants_keyboard,
                wants_pointer,
            ),
            old(self)@.wf() ==> final(self)@.wf(),
    {
        match self.context.state {
            ContextState::Ready => {
                let handled = self.input.handle_message(umsg, wparam, lparam);
                let disposition = if wants_keyboard || wants_pointer {
                    Disposition::Consume
                } else {
                    self.forward()
                };
                Reply { handled, disposition }
            },
            ContextState::Uninitialized => Reply {
                handled: Handled::Nothing,
                disposition: Disposition::Consume,
            },
            ContextState::Destroyed => Reply { handled: Handled::Nothing, disposition: self.forward() },
        }
    }

    /// Stores the dimensions of the client area that was read after a
    /// resize message; `None` stands for a reading that failed.
    pub fn surface_resized(&mut self, rect: Option<ClientRect>) -> (outcome: Result<(), OverlayError>)
        ensures
            (final(self)@, outcome) == old(self)@.resized(rect),
            old(self)@.wf() ==> final(self)@.wf(),
    {
        if self.context.state != ContextState::Ready {
            return Err(OverlayError::State);
        }
        match rect {
            Some(r) => match client_dimensions(r) {
                Ok(dimensions) => self.context.resize(dimensions),
                Err(e) => Err(e),
            },
            None => Err(OverlayError::SurfaceQuery),
        }
    }

    /// Empties the queue of input events into a snapshot stamped with
    /// `time`, the system time in ticks.
    pub fn collect_input(&mut self, time: i64) -> (snapshot: InputSnapshot)
        ensures
            snapshot.events@ == old(self)@.events,
            snapshot.time == time,
            snapshot.frame_rate == PREDICTED_FRAME_RATE,
            snapshot.focused,
            final(self)@ == (OverlayView { events: Seq::empty(), ..old(self)@ }),
            old(self)@.wf() ==> final(self)@.wf(),
    {
        self.input.collect_input(time)
    }

    fn note(&mut self, error: OverlayError)
        ensures
            final(self)@ == old(self)@.noting(error),
    {
        if self.last_error.is_none() {
            self.last_error = Some(error);
        }
    }

    fn finish(&mut self) -> (step: FrameStep)
        ensures
            (final(self)@, step) == old(self)@.finish(),
    {
        self.phase = Phase::Idle;
        FrameStep::CallThrough { surface: self.frame_surface }
    }

    fn fail(&mut self, error: OverlayError) -> (step: FrameStep)
        ensures
            (final(self)@, step) == old(self)@.fail(error),
    {
        self.note(error);
        self.finish()
    }

    fn context_surface(&self) -> (surface: isize)
        ensures
            surface == self@.context_surface(),
    {
        match self.surface {
            Some(surface) => surface,
            None => self.frame_surface,
        }
    }

    fn leave(&mut self) -> (step: FrameStep)
        ensures
            (final(self)@, step) == old(self)@.leave(),
    {
        self.phase = Phase::Leaving;
        FrameStep::LeaveContext { surface: self.context_surface() }
    }

    fn abort(&mut self, error: OverlayError) -> (step: FrameStep)
        ensures
            (final(self)@, step) == old(self)@.abort(error),
    {
        self.note(error);
        self.leave()
    }

    fn enter(&mut self) -> (step: FrameStep)
        ensures
            (final(self)@, step) == old(self)@.enter(),
    {
        if self.builder.is_some() {
            self.phase = Phase::Entering;
            FrameStep::EnterContext { surface: self.context_surface() }
        } else {
            self.fail(OverlayError::UiCallbackMissing)
        }
    }

    /// Begins the frame for a presentation call on `surface` and says what
    /// to do first. The caller performs each step and reports its result to
    /// `advance`, until the step is `CallThrough`.
    pub fn begin_frame(&mut self, surface: isize) -> (step: FrameStep)
        ensures
            (final(self)@, step) == old(self)@.begin(surface),
            old(self)@.wf() ==> final(self)@.wf(),
    {
        if self.phase != Phase::Idle {
            return FrameStep::CallThrough { surface };
        }
        if self.surface.is_none() {
            self.surface = Some(surface);
        }
        self.frame_surface = surface;
        self.last_error = None;
        match self.context.state {
            ContextState::Destroyed => self.fail(OverlayError::State),
            ContextState::Uninitialized => {
                self.phase = Phase::Creating;
                FrameStep::CreateContext { surface: self.context_surface() }
            },
            ContextState::Ready => self.enter(),
        }
    }

    /// Takes the result of the step that was issued last and says what to
    /// do next. With no frame in flight there is nothing to go on with: the
    /// overlay stays as it is and the answer is the call-through that ended
    /// the last frame.
    pub fn advance(&mut self, result: StepResult) -> (step: FrameStep)
        ensures
            (final(self)@, step) == old(self)@.advance(result),
            old(self)@.wf() ==> final(self)@.wf(),
    {
        match self.phase {
            Phase::Idle => FrameStep::CallThrough { surface: self.frame_surface },
            Phase::Creating => match result {
                StepResult::ContextCreated { rect, window_procedure } => match client_dimensions(rect) {
                    Ok(dimensions) => {
                        self.context = ShadowContext { state: ContextState::Ready, dimensions };
                        self.window_procedure = Some(window_procedure);
                        self.enter()
                    },
                    Err(e) => self.fail(e),
                },
                other => self.fail(other.error_or(OverlayError::ContextCreation)),
            },
            Phase::Entering => if result.has_failed() {
                self.abort(result.error_or(OverlayError::ContextCreation))
            } else {
                self.phase = Phase::Building;
                FrameStep::BuildUi
            },
            Phase::Building => match result {
                StepResult::UiBuilt { textures } => {
                    append_delta(&mut self.textures, textures);
                    self.phase = Phase::Uploading;
                    FrameStep::UploadTextures
                },
                other => self.abort(other.error_or(OverlayError::UiBuild)),
            },
            Phase::Uploading => if result.has_failed() {
                self.abort(result.error_or(OverlayError::Rasterizer))
            } else {
                self.phase = Phase::Painting;
                FrameStep::Paint { dimensions: self.context.dimensions }
            },
            Phase::Painting => if result.has_failed() {
                self.abort(result.error_or(OverlayError::Rasterizer))
            } else {
                self.phase = Phase::Freeing;
                FrameStep::FreeTextures
            },
            Phase::Freeing => if result.has_failed() {
                self.abort(result.error_or(OverlayError::Rasterizer))
            } else {
                clear_delta(&mut self.textures);
                self.leave()
            },
            Phase::Leaving => if result.has_failed() {
                self.fail(result.error_or(OverlayError::ContextCreation))
            } else {
                self.finish()
            },
        }
    }

    /// Marks the shadow context as released, where it is ready and no frame
    /// is in flight; the caller then releases the graphics context and the
    /// rasterizer.
    pub fn destroy(&mut self) -> (outcome: Result<(), OverlayError>)
        ensures
            (final(self)@, outcome) == old(self)@.destroyed(),
            old(self)@.wf() ==> final(self)@.wf(),
    {
        if self.phase == Phase::Idle {
            self.context.destroy()
        } else {
            Err(OverlayError::State)
        }
    }
}

} // verus!
