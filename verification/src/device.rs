//! The device: owner of the long-lived GPU resources and factory for
//! drawers and textures.
//!
//! A device is created once per application from the context's reported
//! capabilities. Construction selects the shader variant for both geometry
//! sets — or fails with `UnsupportedCapability` before anything is
//! allocated — and fixes the geometry sets for good: they are immutable
//! afterwards. The backend context itself is shared between the device and
//! everything derived from it, and is held by the backend adapter.

use vstd::prelude::*;
use crate::drawer::Drawer;
use crate::error::Error;
use crate::geometry::GeometrySet;
use crate::geometry::PrimitiveKind;
use crate::shader::Capabilities;
use crate::shader::ShaderVariant;
use crate::shader::select_variant;
use crate::texture::Texture;

verus! {

/// The long-lived drawing state: one geometry set per primitive kind, and
/// the number the next created texture's backend handle will get.
#[derive(Clone, Copy, PartialEq, Eq, Structural, Debug)]
pub struct Device {
    pub rect_geometry: GeometrySet,
    pub image_geometry: GeometrySet,
    pub next_texture_id: u64,
}

/// The device a context with shader variant `variant` gets: both geometry
/// sets compiled from that variant's sources, no textures created yet.
pub open spec fn device_for(variant: ShaderVariant) -> Device {
    Device {
        rect_geometry: GeometrySet { kind: PrimitiveKind::Rectangle, variant },
        image_geometry: GeometrySet { kind: PrimitiveKind::Image, variant },
        next_texture_id: 0,
    }
}

impl Device {
    /// The device after a texture-creation attempt: the next handle number
    /// advances exactly when a texture was created; nothing else changes.
    pub open spec fn with_textures_after(self, created: bool) -> Device {
        Device {
            rect_geometry: self.rect_geometry,
            image_geometry: self.image_geometry,
            next_texture_id: if created {
                (self.next_texture_id + 1) as u64
            } else {
                self.next_texture_id
            },
        }
    }

    /// Builds a device for a context with the given capabilities. The
    /// shader variant is the highest supported tier, 1.5 before 1.2; if the
    /// context supports neither, construction fails with
    /// `UnsupportedCapability` naming the reported version, and no resource
    /// is allocated.
    pub fn new(caps: Capabilities) -> (r: Result<Device, Error>)
        ensures
            caps.supports_glsl_150 ==> r == Ok::<Device, Error>(
                device_for(ShaderVariant::Glsl150),
            ),
            !caps.supports_glsl_150 && caps.supports_glsl_120 ==> r == Ok::<Device, Error>(
                device_for(ShaderVariant::Glsl120),
            ),
            !caps.supports_glsl_150 && !caps.supports_glsl_120 ==> r == Err::<Device, Error>(
                Error::UnsupportedCapability(caps.reported_version),
            ),
    {
        match select_variant(caps) {
            Ok(variant) => Ok(
                Device {
                    rect_geometry: GeometrySet { kind: PrimitiveKind::Rectangle, variant },
                    image_geometry: GeometrySet { kind: PrimitiveKind::Image, variant },
                    next_texture_id: 0,
                },
            ),
            Err(e) => Err(e),
        }
    }

    /// Starts recording a frame against a target of the given current
    /// framebuffer dimensions: a fresh drawer with the full-target viewport
    /// and the projection recomputed for those dimensions.
    pub fn begin<C>(&self, width: u32, height: u32) -> (d: Drawer<C>)
        ensures
            d.fresh(width, height),
    {
        Drawer::new(width, height)
    }

    /// Validates and records a texture upload: raw RGBA8 pixel data of the
    /// given dimensions. Succeeds, handing out the next handle number, if
    /// and only if the pixel buffer holds exactly `width * height * 4`
    /// bytes; otherwise the upload is rejected and the device unchanged.
    pub fn create_texture(&mut self, pixels: &Vec<u8>, dimensions: (u32, u32)) -> (r: Result<
        Texture,
        Error,
    >)
        requires
            old(self).next_texture_id < u64::MAX,
        ensures
            pixels@.len() == dimensions.0 as int * dimensions.1 as int * 4 ==> r == Ok::<
                Texture,
                Error,
            >(
                Texture {
                    id: old(self).next_texture_id,
                    width: dimensions.0,
                    height: dimensions.1,
                },
            ),
            pixels@.len() != dimensions.0 as int * dimensions.1 as int * 4 ==> r == Err::<
                Texture,
                Error,
            >(Error::ResourceCreationFailure),
            *final(self) == old(self).with_textures_after(r is Ok),
    {
        let (width, height) = dimensions;
        proof {
            assert((width as int) * (height as int) * 4 <= 0xffff_ffff * 0xffff_ffff * 4)
                by (nonlinear_arith)
                requires
                    0 <= width as int <= 0xffff_ffff,
                    0 <= height as int <= 0xffff_ffff,
            ;
        }
        let expected: u128 = (width as u128) * (height as u128) * 4;
        if (pixels.len() as u128) == expected {
            let id: u64 = self.next_texture_id;
            self.next_texture_id = id + 1;
            Ok(Texture { id, width, height })
        } else {
            Err(Error::ResourceCreationFailure)
        }
    }
}

} // verus!
