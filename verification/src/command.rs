//! Recorded draw commands and their observable pixel semantics.
//!
//! A drawer records one frame as a sequence of commands; the backend
//! executes them in exactly the order issued, with no depth test, so the
//! frame composites by the painter's algorithm: at every pixel, the last
//! command covering it wins. That semantics is written down here as
//! [`pixel_after`] and proved for the cases the library promises — a clear
//! fills the whole target, repeated clears are indistinguishable, a later
//! rectangle occludes an earlier one, and image draws sample their texture
//! with nearest-neighbour magnification in constant blocks of `scale`
//! pixels.
//!
//! Color components are an opaque type parameter `C`: the library passes
//! them through to the backend bit for bit and never computes with them.

use vstd::arithmetic::div_mod::lemma_fundamental_div_mod_converse;
use vstd::prelude::*;
use crate::matrix::Mat4;
use crate::matrix::lemma_model_mat_is_translate_times_scale;
use crate::matrix::mat_mul;
use crate::matrix::model_mat;
use crate::matrix::nonuniform_scale;
use crate::matrix::translation;
use crate::texture::Texture;

verus! {

/// An opaque color triple, handed through to the backend unchanged. The
/// alpha channel is not carried: every drawn color is opaque (alpha 1).
#[derive(Clone, Copy, PartialEq, Eq, Debug)]
pub struct Color<C> {
    pub r: C,
    pub g: C,
    pub b: C,
}

/// The magnification filter a texture is sampled with when drawn larger
/// than its native resolution.
#[derive(Clone, Copy, PartialEq, Eq, Structural, Debug)]
pub enum MagFilter {
    /// Nearest-neighbour: hard pixel edges, no interpolation.
    Nearest,
    /// Bilinear interpolation.
    Linear,
}

/// One recorded request against the frame target, in issue order.
#[derive(Clone, Copy, PartialEq, Eq, Debug)]
pub enum Command<C> {
    /// Clear the whole color buffer to `color` with alpha 1.
    Clear { color: Color<C> },
    /// Draw the unit quad under `model` with the rectangle geometry set:
    /// a filled axis-aligned rectangle at pixel position `(x, y)` of size
    /// `width` by `height`, every covered pixel written with `color`.
    /// Rasterizer state is the backend default.
    Rectangle { x: i32, y: i32, width: i32, height: i32, color: Color<C>, model: Mat4 },
    /// Draw the unit quad under `model` with the image geometry set:
    /// `texture` at pixel position `(x, y)`, magnified by `scale`, sampled
    /// with `filter`. `smooth` is the rasterizer's edge-smoothing switch,
    /// always disabled for image draws.
    Image { x: i32, y: i32, scale: i32, texture: Texture, filter: MagFilter, smooth: bool, model: Mat4 },
}

/// The command a call `draw_rectangle(x, y, width, height, color)` records.
pub open spec fn rect_command<C>(x: i32, y: i32, width: i32, height: i32, color: Color<C>) -> Command<C> {
    Command::Rectangle {
        x,
        y,
        width,
        height,
        color,
        model: model_mat(x as int, y as int, width as int, height as int),
    }
}

/// The command a call `draw_image(texture, x, y, scale)` records: the model
/// places the quad at `(x, y)` sized to the scaled texture dimensions, and
/// sampling is always nearest-neighbour with edge smoothing disabled.
pub open spec fn image_command<C>(texture: Texture, x: i32, y: i32, scale: i32) -> Command<C> {
    Command::Image {
        x,
        y,
        scale,
        texture,
        filter: MagFilter::Nearest,
        smooth: false,
        model: model_mat(
            x as int,
            y as int,
            texture.width as int * scale as int,
            texture.height as int * scale as int,
        ),
    }
}

/// The model matrix of every recorded rectangle draw is exactly
/// `translate(x, y, 0) * scale(width, height, 1)`.
pub proof fn lemma_rectangle_model<C>(x: i32, y: i32, width: i32, height: i32, color: Color<C>)
    ensures
        rect_command(x, y, width, height, color)->Rectangle_model@ == mat_mul(
            translation(x as int, y as int, 0),
            nonuniform_scale(width as int, height as int, 1),
        ),
{
    lemma_model_mat_is_translate_times_scale(x as int, y as int, width as int, height as int);
}

/// The model matrix of every recorded image draw is exactly
/// `translate(x, y, 0) * scale(width * scale, height * scale, 1)` for the
/// texture's dimensions `(width, height)`.
pub proof fn lemma_image_model<C>(texture: Texture, x: i32, y: i32, scale: i32)
    requires
        0 <= scale,
        texture.width as int * scale as int <= u32::MAX,
        texture.height as int * scale as int <= u32::MAX,
    ensures
        image_command::<C>(texture, x, y, scale)->Image_model@ == mat_mul(
            translation(x as int, y as int, 0),
            nonuniform_scale(
                texture.width as int * scale as int,
                texture.height as int * scale as int,
                1,
            ),
        ),
{
    assert(texture.width as int * scale as int >= 0) by (nonlinear_arith)
        requires
            0 <= scale,
            0 <= texture.width,
    ;
    assert(texture.height as int * scale as int >= 0) by (nonlinear_arith)
        requires
            0 <= scale,
            0 <= texture.height,
    ;
    lemma_model_mat_is_translate_times_scale(
        x as int,
        y as int,
        texture.width as int * scale as int,
        texture.height as int * scale as int,
    );
}

/// What a pixel of the finished frame shows.
pub enum PixelValue<C> {
    /// No command covered the pixel: the target's initial contents.
    Undefined,
    /// A clear or rectangle wrote this color, with alpha 1.
    Solid(Color<C>),
    /// An image draw put texel `(tx, ty)` of the texture with backend
    /// handle `texture` here.
    Sampled { texture: u64, tx: int, ty: int },
}

/// Whether a command writes pixel `(px, py)`. A clear covers everything; a
/// rectangle covers `[x, x + width) x [y, y + height)`; an image covers its
/// scaled extent `[x, x + width * scale) x [y, y + height * scale)`.
pub open spec fn covers<C>(cmd: Command<C>, px: int, py: int) -> bool {
    match cmd {
        Command::Clear { .. } => true,
        Command::Rectangle { x, y, width, height, .. } => {
            &&& x as int <= px < x as int + width as int
            &&& y as int <= py < y as int + height as int
        },
        Command::Image { x, y, scale, texture, .. } => {
            &&& x as int <= px < x as int + texture.width as int * scale as int
            &&& y as int <= py < y as int + texture.height as int * scale as int
        },
    }
}

/// What a command writes at pixel `(px, py)`, assuming it covers it. An
/// image draw magnified by `scale` shows texel
/// `((px - x) / scale, (py - y) / scale)`: nearest-neighbour sampling.
pub open spec fn pixel_of<C>(cmd: Command<C>, px: int, py: int) -> PixelValue<C> {
    match cmd {
        Command::Clear { color } => PixelValue::Solid(color),
        Command::Rectangle { color, .. } => PixelValue::Solid(color),
        Command::Image { x, y, scale, texture, .. } => PixelValue::Sampled {
            texture: texture.id,
            tx: (px - x as int) / (scale as int),
            ty: (py - y as int) / (scale as int),
        },
    }
}

/// The painter's algorithm: what pixel `(px, py)` shows after the commands
/// run in order — the last command covering the pixel wins.
pub open spec fn pixel_after<C>(cmds: Seq<Command<C>>, px: int, py: int) -> PixelValue<C>
    decreases cmds.len(),
{
    if cmds.len() == 0 {
        PixelValue::Undefined
    } else if covers(cmds.last(), px, py) {
        pixel_of(cmds.last(), px, py)
    } else {
        pixel_after(cmds.drop_last(), px, py)
    }
}

/// Painter's-algorithm ordering: the last command of a frame decides every
/// pixel it covers, whatever was drawn before.
pub proof fn lemma_last_covering_command_wins<C>(cmds: Seq<Command<C>>, px: int, py: int)
    requires
        cmds.len() > 0,
        covers(cmds.last(), px, py),
    ensures
        pixel_after(cmds, px, py) == pixel_of(cmds.last(), px, py),
{
}

/// The complement: a command leaves every pixel it does not cover exactly
/// as the commands before it left it.
pub proof fn lemma_uncovered_pixel_unchanged<C>(cmds: Seq<Command<C>>, px: int, py: int)
    requires
        cmds.len() > 0,
        !covers(cmds.last(), px, py),
    ensures
        pixel_after(cmds, px, py) == pixel_after(cmds.drop_last(), px, py),
{
}

/// A clear followed by no further draws leaves the whole color buffer equal
/// to the cleared color (with alpha 1), whatever was recorded before it.
pub proof fn lemma_clear_fills_frame<C>(prefix: Seq<Command<C>>, color: Color<C>, px: int, py: int)
    ensures
        pixel_after(prefix.push(Command::Clear { color }), px, py) == PixelValue::Solid(color),
{
}

/// Repeated clears with the same color are indistinguishable: a frame that
/// clears twice shows the same value at every pixel as one that clears
/// once, whatever follows.
pub proof fn lemma_clear_idempotent<C>(
    prefix: Seq<Command<C>>,
    color: Color<C>,
    rest: Seq<Command<C>>,
    px: int,
    py: int,
)
    ensures
        pixel_after(prefix.push(Command::Clear { color }).push(Command::Clear { color }).add(rest), px, py)
            == pixel_after(prefix.push(Command::Clear { color }).add(rest), px, py),
    decreases rest.len(),
{
    let once = prefix.push(Command::Clear { color });
    let twice = once.push(Command::Clear { color });
    if rest.len() == 0 {
        assert(twice.add(rest) =~= twice);
        assert(once.add(rest) =~= once);
    } else {
        let head = rest.drop_last();
        assert(twice.add(rest).last() == rest.last());
        assert(once.add(rest).last() == rest.last());
        if !covers(rest.last(), px, py) {
            assert(twice.add(rest).drop_last() =~= twice.add(head));
            assert(once.add(rest).drop_last() =~= once.add(head));
            lemma_clear_idempotent(prefix, color, head, px, py);
        }
    }
}

/// Two `draw_rectangle` calls in one frame at overlapping positions: every
/// pixel in the overlap shows the second call's color, whatever was
/// recorded before either.
pub proof fn lemma_second_rectangle_wins<C>(
    prefix: Seq<Command<C>>,
    first: Command<C>,
    x: i32,
    y: i32,
    width: i32,
    height: i32,
    color: Color<C>,
    px: int,
    py: int,
)
    requires
        first is Rectangle,
        covers(first, px, py),
        covers(rect_command(x, y, width, height, color), px, py),
    ensures
        pixel_after(prefix.push(first).push(rect_command(x, y, width, height, color)), px, py)
            == PixelValue::Solid(color),
{
}

/// Nearest-neighbour magnification has hard block boundaries: an image draw
/// at `(x, y)` magnified by `scale` shows one texel, unchanged, across each
/// whole block of `scale` by `scale` pixels — block `(k, j)` spans pixel x
/// in `[x + k * scale, x + (k + 1) * scale)` and likewise in y — with no
/// intermediate values, whatever the scale.
pub proof fn lemma_nearest_sampling_blocks<C>(
    texture: Texture,
    x: i32,
    y: i32,
    scale: i32,
    k: int,
    j: int,
    px: int,
    py: int,
)
    requires
        scale >= 1,
        x as int + k * scale as int <= px < x as int + (k + 1) * scale as int,
        y as int + j * scale as int <= py < y as int + (j + 1) * scale as int,
    ensures
        pixel_of(image_command::<C>(texture, x, y, scale), px, py) == (PixelValue::<C>::Sampled {
            texture: texture.id,
            tx: k,
            ty: j,
        }),
{
    let s = scale as int;
    let dx = px - x as int;
    let dy = py - y as int;
    assert((k + 1) * s == k * s + s) by (nonlinear_arith);
    assert((j + 1) * s == j * s + s) by (nonlinear_arith);
    lemma_fundamental_div_mod_converse(dx, s, k, dx - k * s);
    lemma_fundamental_div_mod_converse(dy, s, j, dy - j * s);
}

} // verus!
