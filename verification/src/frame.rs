//! The steps of one composed frame, in the order in which they are taken.
//!
//! The overlay decides which step comes next; the caller performs it and
//! reports how it went.

use vstd::prelude::*;
use crate::context::{ClientRect, Dimensions};
use crate::error::OverlayError;

verus! {

/// Something the caller has to do for the frame in flight.
#[derive(Clone, Copy, Debug, PartialEq, Eq, Structural)]
pub enum FrameStep {
    /// Create the shadow context on `surface` and subclass the window: read
    /// the client area of the window, save the context that is current,
    /// create the new one, make it current, set up the rasterizer, make the
    /// saved context current again, and only then replace the window
    /// procedure. Where any of this fails, nothing of it is left in place:
    /// the context that was current is current again and the window keeps
    /// its procedure.
    CreateContext { surface: isize },
    /// Save the context that is current and make the shadow context current
    /// on `surface`.
    EnterContext { surface: isize },
    /// Take the input snapshot and run the UI engine with the registered
    /// builder.
    BuildUi,
    /// Hand the textures that the pending delta sets to the rasterizer.
    UploadTextures,
    /// Tessellate the shapes of this frame and draw them on a surface of
    /// the given size.
    Paint { dimensions: Dimensions },
    /// Free the textures that the pending delta frees.
    FreeTextures,
    /// Make the context that was saved on entering current again on
    /// `surface`.
    LeaveContext { surface: isize },
    /// Call the host's own presentation function with `surface` and return
    /// what it returns. This ends the frame.
    CallThrough { surface: isize },
}

/// How a step went.
pub enum StepResult {
    /// The step could not be carried out.
    Failed,
    /// The step could not be carried out because the client area of the
    /// window could not be read, or gives no dimensions.
    SurfaceQueryFailed,
    /// The step was carried out.
    Done,
    /// The context was created: the client area of its window, and the
    /// window procedure that was in place before the window was subclassed.
    ContextCreated { rect: ClientRect, window_procedure: usize },
    /// The UI engine ran: the texture delta it gave.
    UiBuilt { textures: egui::TexturesDelta },
}

/// Which step, if any, the overlay is waiting to hear about.
#[derive(Clone, Copy, Debug, PartialEq, Eq, Structural)]
pub enum Phase {
    /// No frame is in flight.
    Idle,
    /// `CreateContext` was issued.
    Creating,
    /// `EnterContext` was issued.
    Entering,
    /// `BuildUi` was issued.
    Building,
    /// `UploadTextures` was issued.
    Uploading,
    /// `Paint` was issued.
    Painting,
    /// `FreeTextures` was issued.
    Freeing,
    /// `LeaveContext` was issued.
    Leaving,
}

impl StepResult {
    /// Whether the result reports that the step could not be carried out.
    pub open spec fn failed(self) -> bool {
        self is Failed || self is SurfaceQueryFailed
    }

    /// The error to note for a step that did not go well: a failed reading
    /// of the client area is noted as such, every other failure as
    /// `otherwise`, the error that belongs to the step.
    pub open spec fn reason(self, otherwise: OverlayError) -> OverlayError {
        if self is SurfaceQueryFailed {
            OverlayError::SurfaceQuery
        } else {
            otherwise
        }
    }

    /// Tells whether the result reports a failure.
    pub fn has_failed(&self) -> (r: bool)
        ensures
            r == self.failed(),
    {
        match self {
            StepResult::Failed => true,
            StepResult::SurfaceQueryFailed => true,
            _ => false,
        }
    }

    /// Picks the error to note for a step that did not go well, given the
    /// error that belongs to the step.
    pub fn error_or(&self, otherwise: OverlayError) -> (error: OverlayError)
        ensures
            error == self.reason(otherwise),
    {
        match self {
            StepResult::SurfaceQueryFailed => OverlayError::SurfaceQuery,
            _ => otherwise,
        }
    }
}

impl FrameStep {
    /// The place of a step in the order of a frame.
    pub open spec fn order(self) -> nat {
        match self {
            FrameStep::CreateContext { .. } => 1,
            FrameStep::EnterContext { .. } => 2,
            FrameStep::BuildUi => 3,
            FrameStep::UploadTextures => 4,
            FrameStep::Paint { .. } => 5,
            FrameStep::FreeTextures => 6,
            FrameStep::LeaveContext { .. } => 7,
            FrameStep::CallThrough { .. } => 8,
        }
    }

    /// The phase in which the overlay waits for the result of a step.
    pub open spec fn awaited_in(self) -> Phase {
        match self {
            FrameStep::CreateContext { .. } => Phase::Creating,
            FrameStep::EnterContext { .. } => Phase::Entering,
            FrameStep::BuildUi => Phase::Building,
            FrameStep::UploadTextures => Phase::Uploading,
            FrameStep::Paint { .. } => Phase::Painting,
            FrameStep::FreeTextures => Phase::Freeing,
            FrameStep::LeaveContext { .. } => Phase::Leaving,
            FrameStep::CallThrough { .. } => Phase::Idle,
        }
    }

    /// Whether the step ends the frame.
    pub fn is_call_through(&self) -> (r: bool)
        ensures
            r == (self is CallThrough),
            r == (self.order() == 8),
    {
        match self {
            FrameStep::CallThrough { .. } => true,
            _ => false,
        }
    }
}

impl Phase {
    /// The place in the order of a frame of the step that a phase waits
    /// for; for the idle phase, the place of the step that ends a frame.
    pub open spec fn rank(self) -> nat {
        match self {
            Phase::Creating => 1,
            Phase::Entering => 2,
            Phase::Building => 3,
            Phase::Uploading => 4,
            Phase::Painting => 5,
            Phase::Freeing => 6,
            Phase::Leaving => 7,
            Phase::Idle => 8,
        }
    }
}

} // verus!
