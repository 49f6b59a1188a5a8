//! Shader-variant selection.
//!
//! The backend's shader language has mutually incompatible version dialects.
//! When a device is built, the context is queried once for the known tiers,
//! in descending priority order — tier 1.5 first, then tier 1.2 — and the
//! first supported tier's precompiled source pair is used for both geometry
//! sets. If neither tier is supported, device construction fails rather
//! than degrading silently.

use vstd::prelude::*;
use crate::error::Error;

verus! {

/// The shader-source dialect a geometry set was compiled with.
#[derive(Clone, Copy, PartialEq, Eq, Structural, Debug)]
pub enum ShaderVariant {
    /// Sources written for shader-language tier 1.2.
    Glsl120,
    /// Sources written for shader-language tier 1.5.
    Glsl150,
}

/// What the graphics context reports about its shader-language support:
/// one flag per known tier, and the version string it reports, kept for the
/// diagnostic when no known tier is supported.
pub struct Capabilities {
    pub supports_glsl_120: bool,
    pub supports_glsl_150: bool,
    pub reported_version: String,
}

/// Picks the shader variant for a context: the highest supported tier from
/// the descending priority order 1.5, 1.2. Fails with
/// `UnsupportedCapability`, naming the reported version, exactly when the
/// context supports neither known tier.
pub fn select_variant(caps: Capabilities) -> (r: Result<ShaderVariant, Error>)
    ensures
        caps.supports_glsl_150 ==> r == Ok::<ShaderVariant, Error>(ShaderVariant::Glsl150),
        !caps.supports_glsl_150 && caps.supports_glsl_120
            ==> r == Ok::<ShaderVariant, Error>(ShaderVariant::Glsl120),
        !caps.supports_glsl_150 && !caps.supports_glsl_120
            ==> r == Err::<ShaderVariant, Error>(Error::UnsupportedCapability(caps.reported_version)),
{
    if caps.supports_glsl_150 {
        Ok(ShaderVariant::Glsl150)
    } else if caps.supports_glsl_120 {
        Ok(ShaderVariant::Glsl120)
    } else {
        Err(Error::UnsupportedCapability(caps.reported_version))
    }
}

} // verus!
