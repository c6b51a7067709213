//! Verified model of an OpenGL context and drawable-surface lifecycle over the
//! Core OpenGL (CGL) platform API.
//!
//! The library holds the logic of the lifecycle layer: pixel-format (context
//! descriptor) selection and its attribute round-trip, context creation and
//! explicit destruction, the framebuffer-binding state machine, and the
//! current-context bookkeeping with its scoped guard. The native CGL calls
//! themselves cannot be verified; their outcomes enter the library as plain
//! event values, and every decision the library takes on them is verified.

pub mod attributes;
pub mod context;
pub mod device;
pub mod error;
pub mod registry;
pub mod surface;

pub use attributes::{ContextAttributeFlags, ContextAttributes, ContextDescriptor, GLVersion};
pub use context::{Context, ContextID, Framebuffer, NativeContext};
pub use device::{ContextCreationEvent, CurrentContextGuard, Device, PixelFormatSelection};
pub use error::Error;
pub use registry::ContextRegistry;
pub use surface::{Surface, SurfaceInfo};
