//! A verified bridge between an immediate-mode 2D drawing contract and a
//! retained-mode host scene graph.
//!
//! The library keeps the drawing state (an affine transform, an optional
//! clip rectangle and a save/restore stack), turns draw calls into a
//! deferred command buffer addressed at host-owned nodes, and rebuilds
//! line structure and hit-testing data from the flat glyph list returned
//! by an external shaping oracle. All coordinates are integers in logical
//! units; the host adapter converts at the boundary.

use vstd::prelude::*;

pub mod affine;
pub mod geom;
pub mod hit;
pub mod layout;
pub mod scene;
pub mod stack;
pub mod text;

verus! {

/// Errors reported by the drawing and text-layout operations.
#[derive(Clone, Copy, Debug, PartialEq, Eq, Structural)]
pub enum Error {
    /// A shape or feature the backend does not handle.
    Unsupported,
    /// An operation that is deliberately not built.
    NotImplemented,
    /// A `restore` without a matching `save`.
    StackUnderflow,
    /// The requested font asset is not ready yet; callers may retry.
    FontNotReady,
    /// An opaque fatal failure reported by the shaping oracle.
    BackendError,
    /// An argument outside the accepted domain, e.g. an offset that is
    /// not on a character boundary.
    InvalidArgument,
}

} // verus!
