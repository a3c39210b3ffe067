//! Error kinds of the rendering pipeline.

use vstd::prelude::*;

verus! {

/// Everything that can go wrong during a render request.  Each failure is
/// typed and catchable; none of the library's verified functions panics.
#[derive(Clone, Copy, Debug, PartialEq, Eq, Structural)]
pub enum RenderError {
    /// The requested identifier names no catalog entry.
    UnknownFractal,
    /// The requested iteration count lies above the entry's ceiling.
    IterationLimitExceeded,
    /// The symbol sequence pops the cursor stack while it is empty.
    MalformedSequence,
    /// A color string is not a 6-hex-digit RGB triplet.
    InvalidColor,
    /// The embedding could not provide a drawing surface.
    SurfaceUnavailable,
}

} // verus!
