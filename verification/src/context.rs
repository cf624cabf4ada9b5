//! The shadow render context: the overlay's own graphics context on the
//! host's surface. Creating and releasing it is done by the caller; this
//! module keeps its state and the dimensions of the surface.

use vstd::prelude::*;
use crate::error::OverlayError;

verus! {

/// The client area of a window, as the windowing system reports it.
#[derive(Clone, Copy, Debug, PartialEq, Eq, Structural)]
pub struct ClientRect {
    pub left: i32,
    pub top: i32,
    pub right: i32,
    pub bottom: i32,
}

/// The size of the surface in pixels.
#[derive(Clone, Copy, Debug, PartialEq, Eq, Structural)]
pub struct Dimensions {
    pub width: u32,
    pub height: u32,
}

/// Where the shadow context is in its life.
#[derive(Clone, Copy, Debug, PartialEq, Eq, Structural)]
pub enum ContextState {
    /// No context has been created yet.
    Uninitialized,
    /// The context exists and can be drawn with.
    Ready,
    /// The context has been released.
    Destroyed,
}

/// The state of the shadow context and the dimensions it draws with.
#[derive(Clone, Copy, Debug, PartialEq, Eq, Structural)]
pub struct ShadowContext {
    /// Where the context is in its life.
    pub state: ContextState,
    /// The size of the surface; zero by zero until the context is created.
    pub dimensions: Dimensions,
}

/// The dimensions of a client area: its extent along each axis, where
/// neither is negative nor beyond what a coordinate can hold.
pub open spec fn dimensions_of(rect: ClientRect) -> Result<Dimensions, OverlayError> {
    let width = rect.right - rect.left;
    let height = rect.bottom - rect.top;
    if 0 <= width <= i32::MAX && 0 <= height <= i32::MAX {
        Ok(Dimensions { width: width as u32, height: height as u32 })
    } else {
        Err(OverlayError::SurfaceQuery)
    }
}

/// Computes the dimensions of a client area.
pub fn client_dimensions(rect: ClientRect) -> (dimensions: Result<Dimensions, OverlayError>)
    ensures
        dimensions == dimensions_of(rect),
{
    let width: i64 = rect.right as i64 - rect.left as i64;
    let height: i64 = rect.bottom as i64 - rect.top as i64;
    if 0 <= width && width <= i32::MAX as i64 && 0 <= height && height <= i32::MAX as i64 {
        Ok(Dimensions { width: width as u32, height: height as u32 })
    } else {
        Err(OverlayError::SurfaceQuery)
    }
}

impl ShadowContext {
    /// The context after `ensure_initialized` with a usable client area.
    pub open spec fn initialized(self, dimensions: Dimensions) -> Self {
        match self.state {
            ContextState::Uninitialized => ShadowContext { state: ContextState::Ready, dimensions },
            _ => self,
        }
    }

    /// A context that has not been created yet.
    pub fn new() -> (context: Self)
        ensures
            context == (ShadowContext {
                state: ContextState::Uninitialized,
                dimensions: Dimensions { width: 0, height: 0 },
            }),
    {
        ShadowContext {
            state: ContextState::Uninitialized,
            dimensions: Dimensions { width: 0, height: 0 },
        }
    }

    /// Whether the context still has to be created.
    pub fn needs_creation(&self) -> (needed: bool)
        ensures
            needed == (self.state == ContextState::Uninitialized),
    {
        self.state == ContextState::Uninitialized
    }

    /// Records that the context was created for a window with client area
    /// `rect`. On a context that is ready this changes nothing: a context
    /// is created once. Fails on a released context, and where the client
    /// area gives no dimensions.
    pub fn ensure_initialized(&mut self, rect: ClientRect) -> (outcome: Result<(), OverlayError>)
        ensures
            outcome == (match old(self).state {
                ContextState::Destroyed => Err::<(), OverlayError>(OverlayError::State),
                ContextState::Ready => Ok(()),
                ContextState::Uninitialized => match dimensions_of(rect) {
                    Ok(_) => Ok(()),
                    Err(e) => Err(e),
                },
            }),
            outcome is Ok ==> *final(self) == old(self).initialized(dimensions_of(rect)->Ok_0),
            outcome is Err ==> *final(self) == *old(self),
    {
        match self.state {
            ContextState::Destroyed => Err(OverlayError::State),
            ContextState::Ready => Ok(()),
            ContextState::Uninitialized => {
                match client_dimensions(rect) {
                    Ok(dimensions) => {
                        self.state = ContextState::Ready;
                        self.dimensions = dimensions;
                        Ok(())
                    },
                    Err(e) => Err(e),
                }
            },
        }
    }

    /// Stores new dimensions. Nothing else about the context changes. Fails,
    /// and changes nothing, unless the context is ready.
    pub fn resize(&mut self, dimensions: Dimensions) -> (outcome: Result<(), OverlayError>)
        ensures
            outcome == (if old(self).state == ContextState::Ready {
                Ok::<(), OverlayError>(())
            } else {
                Err(OverlayError::State)
            }),
            outcome is Ok ==> *final(self) == (ShadowContext { dimensions, ..*old(self) }),
            outcome is Err ==> *final(self) == *old(self),
    {
        if self.state == ContextState::Ready {
            self.dimensions = dimensions;
            Ok(())
        } else {
            Err(OverlayError::State)
        }
    }

    /// The dimensions to draw with, where the context is ready.
    pub fn current_dimensions(&self) -> (dimensions: Result<Dimensions, OverlayError>)
        ensures
            dimensions == (if self.state == ContextState::Ready {
                Ok::<Dimensions, OverlayError>(self.dimensions)
            } else {
                Err(OverlayError::State)
            }),
    {
        if self.state == ContextState::Ready {
            Ok(self.dimensions)
        } else {
            Err(OverlayError::State)
        }
    }

    /// Marks the context as released. Succeeds once, on a context that is
    /// ready; the caller then releases the graphics context and the
    /// rasterizer.
    pub fn destroy(&mut self) -> (outcome: Result<(), OverlayError>)
        ensures
            outcome == (if old(self).state == ContextState::Ready {
                Ok::<(), OverlayError>(())
            } else {
                Err(OverlayError::State)
            }),
            outcome is Ok ==> *final(self) == (ShadowContext {
                state: ContextState::Destroyed,
                ..*old(self)
            }),
            outcome is Err ==> *final(self) == *old(self),
    {
        if self.state == ContextState::Ready {
            self.state = ContextState::Destroyed;
            Ok(())
        } else {
            Err(OverlayError::State)
        }
    }
}

} // verus!
