//! The fixed unit-quad geometry and the per-primitive geometry sets.
//!
//! Every rectangle and image draw reuses one device-resident mesh: a
//! six-vertex unit quad (two triangles spanning `(0,0)`-`(1,1)`), placed and
//! sized per draw by the model matrix. The vertex coordinates are the
//! integers 0 and 1; the backend adapter converts them to its vertex format
//! one for one when it allocates the buffer.

use vstd::prelude::*;
use crate::shader::ShaderVariant;

verus! {

/// Which primitive a geometry set draws.
#[derive(Clone, Copy, PartialEq, Eq, Structural, Debug)]
pub enum PrimitiveKind {
    Rectangle,
    Image,
}

/// A vertex of the rectangle mesh: a position in quad space.
#[derive(Clone, Copy, PartialEq, Eq, Debug)]
pub struct RectVertex {
    pub position: (i32, i32),
}

/// A vertex of the image mesh: a position in quad space and the texture
/// coordinate sampled there.
#[derive(Clone, Copy, PartialEq, Eq, Debug)]
pub struct ImageVertex {
    pub position: (i32, i32),
    pub texcoord: (i32, i32),
}

/// One primitive kind's device-resident resources, as the library models
/// them: the mesh is the fixed unit quad for the kind, and the shader
/// program was compiled from the selected variant's sources. Built once at
/// device construction and never mutated.
#[derive(Clone, Copy, PartialEq, Eq, Structural, Debug)]
pub struct GeometrySet {
    pub kind: PrimitiveKind,
    pub variant: ShaderVariant,
}

/// The positions of the unit quad's six vertices: two triangles covering
/// `(0,0)`-`(1,1)`.
pub open spec fn unit_quad_positions() -> Seq<(i32, i32)> {
    seq![(0i32, 0i32), (1i32, 0i32), (0i32, 1i32), (0i32, 1i32), (1i32, 0i32), (1i32, 1i32)]
}

/// The rectangle mesh: the unit quad, positions only.
pub fn rect_vertices() -> (v: Vec<RectVertex>)
    ensures
        v@.len() == 6,
        forall|i: int| 0 <= i < 6 ==> v@[i].position == unit_quad_positions()[i],
{
    let mut v: Vec<RectVertex> = Vec::new();
    v.push(RectVertex { position: (0, 0) });
    v.push(RectVertex { position: (1, 0) });
    v.push(RectVertex { position: (0, 1) });
    v.push(RectVertex { position: (0, 1) });
    v.push(RectVertex { position: (1, 0) });
    v.push(RectVertex { position: (1, 1) });
    v
}

/// The image mesh: the unit quad with the texture coordinate of each vertex
/// equal to its position, so the whole texture maps onto the quad.
pub fn image_vertices() -> (v: Vec<ImageVertex>)
    ensures
        v@.len() == 6,
        forall|i: int| 0 <= i < 6 ==> v@[i].position == unit_quad_positions()[i],
        forall|i: int| 0 <= i < 6 ==> v@[i].texcoord == v@[i].position,
{
    let mut v: Vec<ImageVertex> = Vec::new();
    v.push(ImageVertex { position: (0, 0), texcoord: (0, 0) });
    v.push(ImageVertex { position: (1, 0), texcoord: (1, 0) });
    v.push(ImageVertex { position: (0, 1), texcoord: (0, 1) });
    v.push(ImageVertex { position: (0, 1), texcoord: (0, 1) });
    v.push(ImageVertex { position: (1, 0), texcoord: (1, 0) });
    v.push(ImageVertex { position: (1, 1), texcoord: (1, 1) });
    v
}

} // verus!
