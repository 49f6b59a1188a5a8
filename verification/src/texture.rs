//! GPU-resident images.
//!
//! A texture is created by a device from raw RGBA8 pixel data. The library
//! validates the upload — the pixel buffer must hold exactly
//! `width * height * 4` bytes — and models the backend-resident image as a
//! handle number plus its dimensions; identity is by handle. The handle is
//! only valid while the originating device's context is alive, a lifetime
//! invariant the caller must respect.

use vstd::prelude::*;
use crate::device::Device;
use crate::error::Error;

verus! {

/// A GPU-resident image: its backend handle and its pixel dimensions.
#[derive(Clone, Copy, PartialEq, Eq, Structural, Debug)]
pub struct Texture {
    /// The backend image resource this texture stands for, numbered by the
    /// device that created it.
    pub id: u64,
    pub width: u32,
    pub height: u32,
}

impl Texture {
    /// Creates a texture from raw RGBA8 pixel data; delegates to
    /// [`Device::create_texture`].
    pub fn new(device: &mut Device, pixels: &Vec<u8>, dimensions: (u32, u32)) -> (r: Result<
        Texture,
        Error,
    >)
        requires
            old(device).next_texture_id < u64::MAX,
        ensures
            pixels@.len() == dimensions.0 as int * dimensions.1 as int * 4 ==> r == Ok::<
                Texture,
                Error,
            >(
                Texture {
                    id: old(device).next_texture_id,
                    width: dimensions.0,
                    height: dimensions.1,
                },
            ),
            pixels@.len() != dimensions.0 as int * dimensions.1 as int * 4 ==> r == Err::<
                Texture,
                Error,
            >(Error::ResourceCreationFailure),
            *final(device) == old(device).with_textures_after(r is Ok),
    {
        device.create_texture(pixels, dimensions)
    }
}

} // verus!
