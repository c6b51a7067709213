//! The error taxonomy of the lifecycle layer.

use vstd::prelude::*;

verus! {

/// Everything that can go wrong in the lifecycle layer.
///
/// The variants carrying an `i32` hold the raw CGL error code that the native
/// call reported; `0` means no error, so these codes are always nonzero.
#[derive(Clone, Copy, Debug, PartialEq, Eq, Structural)]
pub enum Error {
    /// The native pixel-format selection call failed outright.
    PixelFormatSelectionFailed(i32),
    /// The native pixel-format selection succeeded but matched zero formats.
    NoPixelFormatFound,
    /// The native context-creation call failed.
    ContextCreationFailed(i32),
    /// The native call that makes a context current failed.
    MakeCurrentFailed(i32),
    /// The operation is illegal on a context whose render target is managed
    /// outside this library (a context adopted from the outside).
    ExternalRenderTarget,
    /// The context already holds a bound surface.
    SurfaceAlreadyBound,
    /// The surface belongs to a different context.
    IncompatibleSurface,
}

} // verus!
