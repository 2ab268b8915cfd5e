//! The fixed quad geometry of every full-screen pass.
//!
//! Each grading draw rasterizes the same unit quad: four corner vertices
//! whose positions span clip space and whose texture coordinates span the
//! input texture, drawn as two triangles through a six-entry index list.
//! Corner coordinates are exactly minus one, zero, or one, so they are kept
//! as small integers; the device shell widens them to the vertex format's
//! scalars on upload.

use vstd::prelude::*;

verus! {

/// Number of corner vertices of the quad.
pub const QUAD_VERTEX_COUNT: usize = 4;

/// Number of indices of the quad's two triangles: the draw count.
pub const QUAD_INDEX_COUNT: usize = 6;

/// One vertex of the full-screen quad: a clip-space corner and its texture
/// coordinate.
#[derive(Clone, Copy, Debug, PartialEq, Eq, Structural)]
pub struct QuadVertex {
    /// Clip-space x: minus one or one.
    pub x: i8,
    /// Clip-space y: minus one or one.
    pub y: i8,
    /// Texture coordinate u: zero or one.
    pub u: u8,
    /// Texture coordinate v: zero or one.
    pub v: u8,
}

/// The quad's corners, counterclockwise from the top left, each carrying
/// the texture coordinate that samples the input at that corner.
pub open spec fn unit_quad() -> Seq<QuadVertex> {
    seq![
        QuadVertex { x: -1 as i8, y: 1, u: 0, v: 1 },
        QuadVertex { x: 1, y: 1, u: 1, v: 1 },
        QuadVertex { x: 1, y: -1 as i8, u: 1, v: 0 },
        QuadVertex { x: -1 as i8, y: -1 as i8, u: 0, v: 0 },
    ]
}

/// The two triangles of the quad as corner indices.
pub open spec fn quad_index_list() -> Seq<u16> {
    seq![0u16, 1u16, 2u16, 0u16, 2u16, 3u16]
}

/// Builds the quad's vertex list for upload into the vertex buffer.
pub fn quad_vertices() -> (vs: Vec<QuadVertex>)
    ensures
        vs@ == unit_quad(),
        vs@.len() == QUAD_VERTEX_COUNT,
{
    let mut vs: Vec<QuadVertex> = Vec::new();
    vs.push(QuadVertex { x: -1, y: 1, u: 0, v: 1 });
    vs.push(QuadVertex { x: 1, y: 1, u: 1, v: 1 });
    vs.push(QuadVertex { x: 1, y: -1, u: 1, v: 0 });
    vs.push(QuadVertex { x: -1, y: -1, u: 0, v: 0 });
    proof {
        assert(vs@ =~= unit_quad());
    }
    vs
}

/// Builds the quad's index list for upload into the index buffer; every
/// entry names one of the four corners.
pub fn quad_indices() -> (ix: Vec<u16>)
    ensures
        ix@ == quad_index_list(),
        ix@.len() == QUAD_INDEX_COUNT,
        forall|i: int| 0 <= i < ix@.len() ==> ix@[i] < QUAD_VERTEX_COUNT,
{
    let mut ix: Vec<u16> = Vec::new();
    ix.push(0);
    ix.push(1);
    ix.push(2);
    ix.push(0);
    ix.push(2);
    ix.push(3);
    proof {
        assert(ix@ =~= quad_index_list());
    }
    ix
}

} // verus!
