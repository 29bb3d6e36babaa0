//! The closed error vocabulary of the surface.
//!
//! Every failure of the native toolkit or of the graphics-state constructor
//! is mapped onto one of the five values of [`GlfwSurfaceError`] at the point
//! where it occurs, and surfaced to the caller at once: no retry, no
//! fallback, no partial success.

use vstd::prelude::*;

verus! {

/// Why the native windowing toolkit failed to initialize.
#[derive(Clone, Copy, PartialEq, Eq, Structural, Debug)]
pub enum InitError {
    /// The toolkit reported that it was already initialized.
    AlreadyInitialized,
    /// An internal toolkit error.
    Internal,
}

/// Why the shared graphics state could not be built from the current
/// context. The payloads carry the raw context value that could not be
/// interpreted.
#[derive(Clone, Copy, PartialEq, Eq, Structural, Debug)]
pub enum StateQueryFailure {
    /// No graphics state can be allocated on this thread; one may exist
    /// already.
    UnavailableGraphicsState,
    /// Corrupted blending state.
    UnknownBlendingState(u8),
    /// Corrupted blending equation.
    UnknownBlendingEquation(u32),
    /// Corrupted blending source factor.
    UnknownBlendingSrcFactor(u32),
    /// Corrupted blending destination factor.
    UnknownBlendingDstFactor(u32),
    /// Corrupted depth test state.
    UnknownDepthTestState(u8),
    /// Corrupted face culling state.
    UnknownFaceCullingState(u8),
    /// Corrupted face culling order.
    UnknownFaceCullingOrder(u32),
    /// Corrupted face culling mode.
    UnknownFaceCullingMode(u32),
    /// Corrupted vertex restart state.
    UnknownVertexRestartState(u8),
}

/// What can go wrong while constructing a surface.
///
/// Each variant names the single construction step it comes from; every
/// failure aborts the whole attempt.
#[derive(Clone, Copy, PartialEq, Eq, Structural, Debug)]
pub enum GlfwSurfaceError {
    /// The native toolkit failed to initialize; carries the native detail.
    InitError(InitError),
    /// The window or its context could not be created.
    WindowCreationFailed,
    /// Fullscreen was requested and no primary monitor is available.
    NoPrimaryMonitor,
    /// Fullscreen was requested and the monitor reports no usable video
    /// mode.
    NoVideoMode,
    /// The shared graphics state failed to initialize.
    GraphicsStateError(StateQueryFailure),
}

impl GlfwSurfaceError {
    /// Map a native initialization failure onto the surface error set.
    pub fn of_init_error(e: InitError) -> (r: GlfwSurfaceError)
        ensures
            r == GlfwSurfaceError::InitError(e),
    {
        GlfwSurfaceError::InitError(e)
    }
}

} // verus!
