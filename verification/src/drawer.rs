//! The drawer: a single-frame recording session, and the frame it hands to
//! the backend.
//!
//! A drawer is created at frame start with the framebuffer dimensions
//! current at that instant: its viewport is the full target and its
//! projection is recomputed then, never cached across frames. Until it is
//! submitted, any clear or draw call appends one command to the recording;
//! `submit` consumes the drawer and yields the finished [`Frame`] for the
//! backend to execute and present. A submitted drawer is gone — ownership
//! makes further calls impossible — and creating a second drawer before the
//! first is submitted is a caller error the library does not police, since
//! only one live frame target per context is well-defined.

use vstd::prelude::*;
use crate::command::Color;
use crate::command::Command;
use crate::command::PixelValue;
use crate::command::image_command;
use crate::command::pixel_after;
use crate::command::rect_command;
use crate::matrix::make_model_mat;
use crate::projection::Projection;
use crate::texture::Texture;

verus! {

/// The target region draws are rasterized into: always the full frame
/// target, anchored at the origin.
#[derive(Clone, Copy, PartialEq, Eq, Structural, Debug)]
pub struct Viewport {
    pub x: u32,
    pub y: u32,
    pub width: u32,
    pub height: u32,
}

/// One frame's recording state. `C` is the color-component type handed
/// through to the backend (its shading language's scalar); the library
/// never computes with color values.
#[derive(Debug)]
pub struct Drawer<C> {
    pub projection: Projection,
    pub viewport: Viewport,
    pub commands: Vec<Command<C>>,
}

/// A finished frame: the recorded commands in issue order, with the
/// viewport and projection they were recorded under, ready for the backend
/// to execute and present.
#[derive(Debug)]
pub struct Frame<C> {
    pub projection: Projection,
    pub viewport: Viewport,
    pub commands: Vec<Command<C>>,
}

impl<C> Frame<C> {
    /// What pixel `(px, py)` shows once the backend has executed this
    /// frame: painter's-algorithm compositing of the recorded commands.
    pub open spec fn pixel(self, px: int, py: int) -> PixelValue<C> {
        pixel_after(self.commands@, px, py)
    }
}

impl<C> Drawer<C> {
    /// What a just-created drawer for framebuffer dimensions
    /// `(width, height)` looks like: full-target viewport, projection for
    /// exactly those dimensions, nothing recorded.
    pub open spec fn fresh(self, width: u32, height: u32) -> bool {
        &&& self.projection == (Projection { width, height })
        &&& self.viewport == (Viewport { x: 0, y: 0, width, height })
        &&& self.commands@ == Seq::<Command<C>>::empty()
    }

    /// Starts recording a frame against a target whose current framebuffer
    /// dimensions are `(width, height)`.
    pub fn new(width: u32, height: u32) -> (d: Drawer<C>)
        ensures
            d.fresh(width, height),
    {
        Drawer {
            projection: Projection { width, height },
            viewport: Viewport { x: 0, y: 0, width, height },
            commands: Vec::new(),
        }
    }

    /// Records clearing the color buffer to `(r, g, b)` with alpha 1.
    pub fn clear(&mut self, r: C, g: C, b: C)
        ensures
            final(self).commands@ == old(self).commands@.push(
                Command::Clear { color: Color { r, g, b } },
            ),
            final(self).projection == old(self).projection,
            final(self).viewport == old(self).viewport,
    {
        self.commands.push(Command::Clear { color: Color { r, g, b } });
    }

    /// Records a filled rectangle at pixel position `(x, y)` of size
    /// `width` by `height`: the unit quad under the model matrix
    /// `translate(x, y, 0) * scale(width, height, 1)`, every covered pixel
    /// written with `color`.
    pub fn draw_rectangle(&mut self, x: i32, y: i32, width: i32, height: i32, color: Color<C>)
        ensures
            final(self).commands@ == old(self).commands@.push(
                rect_command(x, y, width, height, color),
            ),
            final(self).projection == old(self).projection,
            final(self).viewport == old(self).viewport,
    {
        let model = make_model_mat(x as i64, y as i64, width as i64, height as i64);
        self.commands.push(Command::Rectangle { x, y, width, height, color, model });
    }

    /// Records drawing `image` at pixel position `(x, y)` magnified by
    /// `scale`; see the free function [`draw_image`].
    pub fn draw_image(&mut self, image: &Texture, x: i32, y: i32, scale: i32)
        requires
            0 <= scale,
            image.width as int * scale as int <= u32::MAX,
            image.height as int * scale as int <= u32::MAX,
        ensures
            final(self).commands@ == old(self).commands@.push(
                image_command(*image, x, y, scale),
            ),
            final(self).projection == old(self).projection,
            final(self).viewport == old(self).viewport,
    {
        draw_image(self, image, x, y, scale)
    }

    /// Finalizes the recording: consumes the drawer and hands the recorded
    /// frame over for the backend to execute and present.
    pub fn submit(self) -> (f: Frame<C>)
        ensures
            f.commands@ == self.commands@,
            f.projection == self.projection,
            f.viewport == self.viewport,
    {
        Frame { projection: self.projection, viewport: self.viewport, commands: self.commands }
    }
}

/// Records drawing `image` at pixel position `(x, y)` magnified by `scale`:
/// the unit quad under the model matrix
/// `translate(x, y, 0) * scale(width * scale, height * scale, 1)` for the
/// texture's dimensions, sampled with nearest-neighbour magnification and
/// edge smoothing disabled. The scaled dimensions must fit the backend's
/// 32-bit extent.
pub fn draw_image<C>(drawer: &mut Drawer<C>, image: &Texture, x: i32, y: i32, scale: i32)
    requires
        0 <= scale,
        image.width as int * scale as int <= u32::MAX,
        image.height as int * scale as int <= u32::MAX,
    ensures
        final(drawer).commands@ == old(drawer).commands@.push(image_command(*image, x, y, scale)),
        final(drawer).projection == old(drawer).projection,
        final(drawer).viewport == old(drawer).viewport,
{
    let scaled_width: i64 = (image.width as i64) * (scale as i64);
    let scaled_height: i64 = (image.height as i64) * (scale as i64);
    let model = make_model_mat(x as i64, y as i64, scaled_width, scaled_height);
    drawer.commands.push(
        Command::Image {
            x,
            y,
            scale,
            texture: *image,
            filter: crate::command::MagFilter::Nearest,
            smooth: false,
            model,
        },
    );
}

} // verus!
