//! The drawable surface as the lifecycle layer sees it.
//!
//! Surfaces are created and destroyed by the surface subsystem, an external
//! collaborator; this layer consumes them only through their owning-context
//! tag and the info-query projection below.

use vstd::prelude::*;

use crate::context::ContextID;

verus! {

/// An opaque drawable render target, tied by identity to the one context that
/// owns it.
#[derive(Clone, Copy, Debug, PartialEq, Eq, Structural)]
pub struct Surface {
    /// Identifier of the surface itself.
    pub id: u64,
    /// Identifier of the context this surface was created for. Binding the
    /// surface to any other context is refused.
    pub context_id: ContextID,
    /// Width in pixels.
    pub width: i32,
    /// Height in pixels.
    pub height: i32,
}

impl Surface {
    /// Builds a surface record for the given owning context.
    pub fn new(id: u64, context_id: ContextID, width: i32, height: i32) -> (s: Surface)
        ensures
            s == (Surface { id, context_id, width, height }),
    {
        Surface { id, context_id, width, height }
    }
}

/// The descriptive record the info query reports of a surface.
#[derive(Clone, Copy, Debug, PartialEq, Eq, Structural)]
pub struct SurfaceInfo {
    /// Identifier of the surface.
    pub id: u64,
    /// Identifier of the owning context.
    pub context_id: ContextID,
    /// Width in pixels.
    pub width: i32,
    /// Height in pixels.
    pub height: i32,
}

/// The info record of a surface: a field-for-field projection.
pub open spec fn info_of(s: Surface) -> SurfaceInfo {
    SurfaceInfo { id: s.id, context_id: s.context_id, width: s.width, height: s.height }
}

} // verus!
