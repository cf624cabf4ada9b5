//! The ways in which the overlay can fail.

use vstd::prelude::*;

verus! {

/// Why an operation of the overlay did not succeed.
#[derive(Clone, Copy, Debug, PartialEq, Eq, Structural)]
pub enum OverlayError {
    /// The target module does not export the symbol.
    SymbolResolution,
    /// The detour could not be installed.
    HookInstall,
    /// The detour could not be switched on or off.
    HookEnable,
    /// The shadow context could not be created or made current.
    ContextCreation,
    /// The size of the window's client area could not be found out.
    SurfaceQuery,
    /// A frame was asked for before a UI builder was registered.
    UiCallbackMissing,
    /// The UI engine failed to build the frame.
    UiBuild,
    /// The rasterizer failed to upload, paint or free.
    Rasterizer,
    /// The operation does not fit the state that its object is in.
    State,
}

} // verus!
