//! The error taxonomy. Every kind is unrecoverable: it is surfaced at the
//! point of failure, never retried, and a caller is expected to treat it as
//! fatal to the rendering session.

use vstd::prelude::*;

verus! {

/// Why a drawing operation failed.
#[derive(Debug)]
pub enum Error {
    /// The backend rejected creating a resource: a vertex buffer, a shader
    /// program, or a texture upload (for instance a pixel buffer whose
    /// length does not match the stated dimensions).
    ResourceCreationFailure,
    /// No known shader-language tier is supported by the context. Carries
    /// the capability the context reported, for diagnostics.
    UnsupportedCapability(String),
    /// The backend reported an error finalizing a frame.
    PresentationFailure,
}

} // verus!
