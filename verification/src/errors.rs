//! Error taxonomy of the presentation loop.

use vstd::prelude::*;

verus! {

/// Errors that may arise while building an application: acquiring the
/// surface, adapter and device, or negotiating the surface configuration.
/// All are terminal for construction; no partial application is returned.
#[derive(Clone, Copy, PartialEq, Eq, Structural, Debug)]
pub enum AppError {
    /// The backend could not create a surface for the window.
    Surface,
    /// No compatible adapter was found.
    Adapter,
    /// The adapter refused the device request.
    Device,
    /// The surface reported no supported texture formats.
    NoSurfaceFormats,
    /// The surface reported no supported present modes.
    NoPresentMode,
    /// The surface reported no supported alpha modes.
    NoAlphaMode,
}

/// Errors that may arise from resizing the surface.
#[derive(Clone, Copy, PartialEq, Eq, Structural, Debug)]
pub enum ResizeError {
    /// One of the given dimensions was zero.
    ZeroDimension,
}

/// Reasons the next surface texture could not be acquired for a frame.
/// `Lost` is the only reason the dispatcher treats as recoverable.
#[derive(Clone, Copy, PartialEq, Eq, Structural, Debug)]
pub enum SurfaceError {
    /// Acquiring the texture timed out.
    Timeout,
    /// The surface no longer matches its configuration.
    Outdated,
    /// The surface was lost and must be reconfigured.
    Lost,
    /// The backend ran out of memory.
    OutOfMemory,
    /// Any other acquisition failure.
    Other,
}

/// Conditions the dispatcher treats as programming errors rather than
/// recoverable failures; the host program aborts on them.
#[derive(Clone, Copy, PartialEq, Eq, Structural, Debug)]
pub enum InvariantViolation {
    /// A window-scoped event referenced a window other than the one the
    /// application was created for.
    WrongWindow,
    /// A user event arrived although no producer of user events exists.
    UnexpectedUserEvent,
    /// The platform reported a size with a zero dimension, so the surface
    /// could not be reconfigured.
    InvalidResize,
}

} // verus!
