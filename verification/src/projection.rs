//! The orthographic pixel-to-clip-space projection.
//!
//! A drawer addresses the target in pixel coordinates with the origin at the
//! top-left and y increasing downward. Its projection is the orthographic
//! matrix `ortho(left = 0, right = w, bottom = h, top = 0, near = 0,
//! far = 100)` for the framebuffer dimensions `(w, h)` current when the
//! drawer is created. The matrix has rational entries, so it is modelled
//! here with exact rationals; the backend adapter evaluates the same formula
//! in its floating-point format from the stored dimensions.

use vstd::prelude::*;

verus! {

/// A rational number `num / den`, used in specifications. A value is only
/// meaningful where `den != 0`; every denominator built below is a positive
/// framebuffer dimension or a constant.
pub struct Rat {
    pub num: int,
    pub den: int,
}

/// The rational with value `i`.
pub open spec fn rat_int(i: int) -> Rat {
    Rat { num: i, den: 1 }
}

/// Equality of rationals by cross-multiplication.
pub open spec fn rat_eq(a: Rat, b: Rat) -> bool {
    a.num * b.den == b.num * a.den
}

/// Rational addition.
pub open spec fn rat_add(a: Rat, b: Rat) -> Rat {
    Rat { num: a.num * b.den + b.num * a.den, den: a.den * b.den }
}

/// Rational multiplication.
pub open spec fn rat_mul(a: Rat, b: Rat) -> Rat {
    Rat { num: a.num * b.num, den: a.den * b.den }
}

/// A 4x4 matrix with rational entries, column-major.
pub struct RatMat4 {
    pub c0r0: Rat, pub c0r1: Rat, pub c0r2: Rat, pub c0r3: Rat,
    pub c1r0: Rat, pub c1r1: Rat, pub c1r2: Rat, pub c1r3: Rat,
    pub c2r0: Rat, pub c2r1: Rat, pub c2r2: Rat, pub c2r3: Rat,
    pub c3r0: Rat, pub c3r1: Rat, pub c3r2: Rat, pub c3r3: Rat,
}

/// A homogeneous coordinate vector with rational components.
pub struct RatVec4 {
    pub x: Rat,
    pub y: Rat,
    pub z: Rat,
    pub w: Rat,
}

/// The homogeneous position of pixel `(px, py)` at depth zero.
pub open spec fn pixel_point(px: int, py: int) -> RatVec4 {
    RatVec4 { x: rat_int(px), y: rat_int(py), z: rat_int(0), w: rat_int(1) }
}

/// The orthographic projection matrix for the planes `left`, `right`,
/// `bottom`, `top`, `near`, `far`.
pub open spec fn ortho(left: int, right: int, bottom: int, top: int, near: int, far: int) -> RatMat4 {
    RatMat4 {
        c0r0: Rat { num: 2, den: right - left }, c0r1: rat_int(0), c0r2: rat_int(0), c0r3: rat_int(0),
        c1r0: rat_int(0), c1r1: Rat { num: 2, den: top - bottom }, c1r2: rat_int(0), c1r3: rat_int(0),
        c2r0: rat_int(0), c2r1: rat_int(0), c2r2: Rat { num: -2, den: far - near }, c2r3: rat_int(0),
        c3r0: Rat { num: -(right + left), den: right - left },
        c3r1: Rat { num: -(top + bottom), den: top - bottom },
        c3r2: Rat { num: -(far + near), den: far - near },
        c3r3: rat_int(1),
    }
}

/// Applies a matrix to a homogeneous vector.
pub open spec fn mat_apply(m: RatMat4, v: RatVec4) -> RatVec4 {
    RatVec4 {
        x: rat_add(rat_add(rat_add(rat_mul(m.c0r0, v.x), rat_mul(m.c1r0, v.y)), rat_mul(m.c2r0, v.z)), rat_mul(m.c3r0, v.w)),
        y: rat_add(rat_add(rat_add(rat_mul(m.c0r1, v.x), rat_mul(m.c1r1, v.y)), rat_mul(m.c2r1, v.z)), rat_mul(m.c3r1, v.w)),
        z: rat_add(rat_add(rat_add(rat_mul(m.c0r2, v.x), rat_mul(m.c1r2, v.y)), rat_mul(m.c2r2, v.z)), rat_mul(m.c3r2, v.w)),
        w: rat_add(rat_add(rat_add(rat_mul(m.c0r3, v.x), rat_mul(m.c1r3, v.y)), rat_mul(m.c2r3, v.z)), rat_mul(m.c3r3, v.w)),
    }
}

/// The projection a drawer holds: the orthographic matrix for a framebuffer
/// of `width` by `height` pixels, recomputed whenever a drawer is created.
#[derive(Clone, Copy, PartialEq, Eq, Structural, Debug)]
pub struct Projection {
    pub width: u32,
    pub height: u32,
}

impl Projection {
    /// The matrix this projection stands for:
    /// `ortho(0, width, height, 0, 0, 100)`, mapping pixel x in `[0, width]`
    /// to clip x in `[-1, 1]` and pixel y in `[0, height]` to clip y in
    /// `[1, -1]`, so that pixel y grows downward on the screen.
    pub open spec fn matrix(self) -> RatMat4 {
        ortho(0, self.width as int, self.height as int, 0, 0, 100)
    }
}

/// The projection of pixel `(px, py)` has clip coordinates
/// `x = (2 px - w) / w` and `y = (h - 2 py) / h`.
pub proof fn lemma_projection_pixel(p: Projection, px: int, py: int)
    requires
        p.width > 0,
        p.height > 0,
    ensures
        rat_eq(mat_apply(p.matrix(), pixel_point(px, py)).x, Rat { num: 2 * px - p.width as int, den: p.width as int }),
        rat_eq(mat_apply(p.matrix(), pixel_point(px, py)).y, Rat { num: p.height as int - 2 * py, den: p.height as int }),
{
    let w = p.width as int;
    let h = p.height as int;
    let r = mat_apply(p.matrix(), pixel_point(px, py));
    assert(rat_eq(r.x, Rat { num: 2 * px - w, den: w })) by (nonlinear_arith)
        requires r == mat_apply(p.matrix(), pixel_point(px, py)), w > 0, h > 0,
            p.matrix() == ortho(0, w, h, 0, 0, 100);
    assert(rat_eq(r.y, Rat { num: h - 2 * py, den: h })) by (nonlinear_arith)
        requires r == mat_apply(p.matrix(), pixel_point(px, py)), w > 0, h > 0,
            p.matrix() == ortho(0, w, h, 0, 0, 100);
}

/// The projection maps pixel `(0, 0)` to the top-left clip corner `(-1, 1)`
/// and pixel `(width, height)` to the bottom-right clip corner `(1, -1)`.
pub proof fn lemma_projection_corners(p: Projection)
    requires
        p.width > 0,
        p.height > 0,
    ensures
        rat_eq(mat_apply(p.matrix(), pixel_point(0, 0)).x, rat_int(-1)),
        rat_eq(mat_apply(p.matrix(), pixel_point(0, 0)).y, rat_int(1)),
        rat_eq(mat_apply(p.matrix(), pixel_point(p.width as int, p.height as int)).x, rat_int(1)),
        rat_eq(mat_apply(p.matrix(), pixel_point(p.width as int, p.height as int)).y, rat_int(-1)),
{
    let w = p.width as int;
    let h = p.height as int;
    lemma_projection_pixel(p, 0, 0);
    lemma_projection_pixel(p, w, h);
    let tl = mat_apply(p.matrix(), pixel_point(0, 0));
    let br = mat_apply(p.matrix(), pixel_point(w, h));
    assert(rat_eq(tl.x, rat_int(-1))) by (nonlinear_arith)
        requires rat_eq(tl.x, Rat { num: 2 * 0 - w, den: w }), w > 0;
    assert(rat_eq(tl.y, rat_int(1))) by (nonlinear_arith)
        requires rat_eq(tl.y, Rat { num: h - 2 * 0, den: h }), h > 0;
    assert(rat_eq(br.x, rat_int(1))) by (nonlinear_arith)
        requires rat_eq(br.x, Rat { num: 2 * w - w, den: w }), w > 0;
    assert(rat_eq(br.y, rat_int(-1))) by (nonlinear_arith)
        requires rat_eq(br.y, Rat { num: h - 2 * h, den: h }), h > 0;
}

} // verus!
