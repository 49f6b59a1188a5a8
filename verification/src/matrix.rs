//! Exact 4x4 matrices for the per-draw model transform.
//!
//! Draw calls address the screen in integer pixel coordinates, so the model
//! matrix of every draw — a translation composed with a non-uniform scale
//! applied to the unit quad — has integer entries and can be computed and
//! reasoned about exactly. Matrices are stored column-major, matching the
//! memory layout the graphics backend expects; `cNrM` is the entry in
//! column `N`, row `M`.

use vstd::prelude::*;

verus! {

/// A 4x4 matrix with mathematical-integer entries, used in specifications.
pub struct SpecMat4 {
    pub c0r0: int, pub c0r1: int, pub c0r2: int, pub c0r3: int,
    pub c1r0: int, pub c1r1: int, pub c1r2: int, pub c1r3: int,
    pub c2r0: int, pub c2r1: int, pub c2r2: int, pub c2r3: int,
    pub c3r0: int, pub c3r1: int, pub c3r2: int, pub c3r3: int,
}

/// A 4x4 matrix with `i64` entries, column-major. This is the executable
/// form of a model matrix; the backend adapter converts the entries to the
/// backend's floating-point uniform format one for one.
#[derive(Clone, Copy, PartialEq, Eq, Structural, Debug)]
pub struct Mat4 {
    pub c0r0: i64, pub c0r1: i64, pub c0r2: i64, pub c0r3: i64,
    pub c1r0: i64, pub c1r1: i64, pub c1r2: i64, pub c1r3: i64,
    pub c2r0: i64, pub c2r1: i64, pub c2r2: i64, pub c2r3: i64,
    pub c3r0: i64, pub c3r1: i64, pub c3r2: i64, pub c3r3: i64,
}

impl View for Mat4 {
    type V = SpecMat4;

    open spec fn view(&self) -> SpecMat4 {
        SpecMat4 {
            c0r0: self.c0r0 as int, c0r1: self.c0r1 as int,
            c0r2: self.c0r2 as int, c0r3: self.c0r3 as int,
            c1r0: self.c1r0 as int, c1r1: self.c1r1 as int,
            c1r2: self.c1r2 as int, c1r3: self.c1r3 as int,
            c2r0: self.c2r0 as int, c2r1: self.c2r1 as int,
            c2r2: self.c2r2 as int, c2r3: self.c2r3 as int,
            c3r0: self.c3r0 as int, c3r1: self.c3r1 as int,
            c3r2: self.c3r2 as int, c3r3: self.c3r3 as int,
        }
    }
}

/// The translation matrix `translate(tx, ty, tz)`: the identity with the
/// offset in the fourth column.
pub open spec fn translation(tx: int, ty: int, tz: int) -> SpecMat4 {
    SpecMat4 {
        c0r0: 1, c0r1: 0, c0r2: 0, c0r3: 0,
        c1r0: 0, c1r1: 1, c1r2: 0, c1r3: 0,
        c2r0: 0, c2r1: 0, c2r2: 1, c2r3: 0,
        c3r0: tx, c3r1: ty, c3r2: tz, c3r3: 1,
    }
}

/// The non-uniform scale matrix `scale(sx, sy, sz)`: a diagonal matrix.
pub open spec fn nonuniform_scale(sx: int, sy: int, sz: int) -> SpecMat4 {
    SpecMat4 {
        c0r0: sx, c0r1: 0, c0r2: 0, c0r3: 0,
        c1r0: 0, c1r1: sy, c1r2: 0, c1r3: 0,
        c2r0: 0, c2r1: 0, c2r2: sz, c2r3: 0,
        c3r0: 0, c3r1: 0, c3r2: 0, c3r3: 1,
    }
}

/// Matrix product `a * b`: entry (row r, column c) of the result is the dot
/// product of row r of `a` with column c of `b`.
pub open spec fn mat_mul(a: SpecMat4, b: SpecMat4) -> SpecMat4 {
    SpecMat4 {
        c0r0: a.c0r0 * b.c0r0 + a.c1r0 * b.c0r1 + a.c2r0 * b.c0r2 + a.c3r0 * b.c0r3,
        c0r1: a.c0r1 * b.c0r0 + a.c1r1 * b.c0r1 + a.c2r1 * b.c0r2 + a.c3r1 * b.c0r3,
        c0r2: a.c0r2 * b.c0r0 + a.c1r2 * b.c0r1 + a.c2r2 * b.c0r2 + a.c3r2 * b.c0r3,
        c0r3: a.c0r3 * b.c0r0 + a.c1r3 * b.c0r1 + a.c2r3 * b.c0r2 + a.c3r3 * b.c0r3,
        c1r0: a.c0r0 * b.c1r0 + a.c1r0 * b.c1r1 + a.c2r0 * b.c1r2 + a.c3r0 * b.c1r3,
        c1r1: a.c0r1 * b.c1r0 + a.c1r1 * b.c1r1 + a.c2r1 * b.c1r2 + a.c3r1 * b.c1r3,
        c1r2: a.c0r2 * b.c1r0 + a.c1r2 * b.c1r1 + a.c2r2 * b.c1r2 + a.c3r2 * b.c1r3,
        c1r3: a.c0r3 * b.c1r0 + a.c1r3 * b.c1r1 + a.c2r3 * b.c1r2 + a.c3r3 * b.c1r3,
        c2r0: a.c0r0 * b.c2r0 + a.c1r0 * b.c2r1 + a.c2r0 * b.c2r2 + a.c3r0 * b.c2r3,
        c2r1: a.c0r1 * b.c2r0 + a.c1r1 * b.c2r1 + a.c2r1 * b.c2r2 + a.c3r1 * b.c2r3,
        c2r2: a.c0r2 * b.c2r0 + a.c1r2 * b.c2r1 + a.c2r2 * b.c2r2 + a.c3r2 * b.c2r3,
        c2r3: a.c0r3 * b.c2r0 + a.c1r3 * b.c2r1 + a.c2r3 * b.c2r2 + a.c3r3 * b.c2r3,
        c3r0: a.c0r0 * b.c3r0 + a.c1r0 * b.c3r1 + a.c2r0 * b.c3r2 + a.c3r0 * b.c3r3,
        c3r1: a.c0r1 * b.c3r0 + a.c1r1 * b.c3r1 + a.c2r1 * b.c3r2 + a.c3r1 * b.c3r3,
        c3r2: a.c0r2 * b.c3r0 + a.c1r2 * b.c3r1 + a.c2r2 * b.c3r2 + a.c3r2 * b.c3r3,
        c3r3: a.c0r3 * b.c3r0 + a.c1r3 * b.c3r1 + a.c2r3 * b.c3r2 + a.c3r3 * b.c3r3,
    }
}

/// The model matrix placing the unit quad at pixel position `(tx, ty)` with
/// size `(sx, sy)`: translation in the fourth column, scale on the diagonal.
pub open spec fn model_mat(tx: int, ty: int, sx: int, sy: int) -> Mat4 {
    Mat4 {
        c0r0: sx as i64, c0r1: 0, c0r2: 0, c0r3: 0,
        c1r0: 0, c1r1: sy as i64, c1r2: 0, c1r3: 0,
        c2r0: 0, c2r1: 0, c2r2: 1, c2r3: 0,
        c3r0: tx as i64, c3r1: ty as i64, c3r2: 0, c3r3: 1,
    }
}

/// A model matrix is exactly the product `translate(tx, ty, 0) * scale(sx, sy, 1)`.
pub proof fn lemma_model_mat_is_translate_times_scale(tx: int, ty: int, sx: int, sy: int)
    requires
        i64::MIN <= tx <= i64::MAX,
        i64::MIN <= ty <= i64::MAX,
        i64::MIN <= sx <= i64::MAX,
        i64::MIN <= sy <= i64::MAX,
    ensures
        model_mat(tx, ty, sx, sy)@ == mat_mul(translation(tx, ty, 0), nonuniform_scale(sx, sy, 1)),
{
}

/// Builds the model matrix for a draw at pixel position `(tx, ty)` with
/// pixel size `(sx, sy)`.
pub fn make_model_mat(tx: i64, ty: i64, sx: i64, sy: i64) -> (m: Mat4)
    ensures
        m == model_mat(tx as int, ty as int, sx as int, sy as int),
{
    Mat4 {
        c0r0: sx, c0r1: 0, c0r2: 0, c0r3: 0,
        c1r0: 0, c1r1: sy, c1r2: 0, c1r3: 0,
        c2r0: 0, c2r1: 0, c2r2: 1, c2r3: 0,
        c3r0: tx, c3r1: ty, c3r2: 0, c3r3: 1,
    }
}

} // verus!
