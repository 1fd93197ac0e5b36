use vstd::prelude::*;

use crate::error::GeometryError;
use crate::geometry::Geometry;
use crate::mesh::{self, Mesh};
use crate::scalar::{BITS_NEG_HALF, BITS_ONE, BITS_POS_HALF, BITS_ZERO};

verus! {

/// The unit cube's vertex scalars: 36 vertices (12 triangles, two per face),
/// each a stride-5 record of position and texture coordinate, 180 words in
/// all.
pub open spec fn cube_vertex_words() -> Seq<u32> {
    seq![
        BITS_NEG_HALF, BITS_NEG_HALF, BITS_NEG_HALF, BITS_ZERO, BITS_ZERO,
        BITS_POS_HALF, BITS_NEG_HALF, BITS_NEG_HALF, BITS_ONE, BITS_ZERO,
        BITS_POS_HALF, BITS_POS_HALF, BITS_NEG_HALF, BITS_ONE, BITS_ONE,
        BITS_POS_HALF, BITS_POS_HALF, BITS_NEG_HALF, BITS_ONE, BITS_ONE,
        BITS_NEG_HALF, BITS_POS_HALF, BITS_NEG_HALF, BITS_ZERO, BITS_ONE,
        BITS_NEG_HALF, BITS_NEG_HALF, BITS_NEG_HALF, BITS_ZERO, BITS_ZERO,
        BITS_NEG_HALF, BITS_NEG_HALF, BITS_POS_HALF, BITS_ZERO, BITS_ZERO,
        BITS_POS_HALF, BITS_NEG_HALF, BITS_POS_HALF, BITS_ONE, BITS_ZERO,
        BITS_POS_HALF, BITS_POS_HALF, BITS_POS_HALF, BITS_ONE, BITS_ONE,
        BITS_POS_HALF, BITS_POS_HALF, BITS_POS_HALF, BITS_ONE, BITS_ONE,
        BITS_NEG_HALF, BITS_POS_HALF, BITS_POS_HALF, BITS_ZERO, BITS_ONE,
        BITS_NEG_HALF, BITS_NEG_HALF, BITS_POS_HALF, BITS_ZERO, BITS_ZERO,
        BITS_NEG_HALF, BITS_POS_HALF, BITS_POS_HALF, BITS_ONE, BITS_ZERO,
        BITS_NEG_HALF, BITS_POS_HALF, BITS_NEG_HALF, BITS_ONE, BITS_ONE,
        BITS_NEG_HALF, BITS_NEG_HALF, BITS_NEG_HALF, BITS_ZERO, BITS_ONE,
        BITS_NEG_HALF, BITS_NEG_HALF, BITS_NEG_HALF, BITS_ZERO, BITS_ONE,
        BITS_NEG_HALF, BITS_NEG_HALF, BITS_POS_HALF, BITS_ZERO, BITS_ZERO,
        BITS_NEG_HALF, BITS_POS_HALF, BITS_POS_HALF, BITS_ONE, BITS_ZERO,
        BITS_POS_HALF, BITS_POS_HALF, BITS_POS_HALF, BITS_ONE, BITS_ZERO,
        BITS_POS_HALF, BITS_POS_HALF, BITS_NEG_HALF, BITS_ONE, BITS_ONE,
        BITS_POS_HALF, BITS_NEG_HALF, BITS_NEG_HALF, BITS_ZERO, BITS_ONE,
        BITS_POS_HALF, BITS_NEG_HALF, BITS_NEG_HALF, BITS_ZERO, BITS_ONE,
        BITS_POS_HALF, BITS_NEG_HALF, BITS_POS_HALF, BITS_ZERO, BITS_ZERO,
        BITS_POS_HALF, BITS_POS_HALF, BITS_POS_HALF, BITS_ONE, BITS_ZERO,
        BITS_NEG_HALF, BITS_NEG_HALF, BITS_NEG_HALF, BITS_ZERO, BITS_ONE,
        BITS_POS_HALF, BITS_NEG_HALF, BITS_NEG_HALF, BITS_ONE, BITS_ONE,
        BITS_POS_HALF, BITS_NEG_HALF, BITS_POS_HALF, BITS_ONE, BITS_ZERO,
        BITS_POS_HALF, BITS_NEG_HALF, BITS_POS_HALF, BITS_ONE, BITS_ZERO,
        BITS_NEG_HALF, BITS_NEG_HALF, BITS_POS_HALF, BITS_ZERO, BITS_ZERO,
        BITS_NEG_HALF, BITS_NEG_HALF, BITS_NEG_HALF, BITS_ZERO, BITS_ONE,
        BITS_NEG_HALF, BITS_POS_HALF, BITS_NEG_HALF, BITS_ZERO, BITS_ONE,
        BITS_POS_HALF, BITS_POS_HALF, BITS_NEG_HALF, BITS_ONE, BITS_ONE,
        BITS_POS_HALF, BITS_POS_HALF, BITS_POS_HALF, BITS_ONE, BITS_ZERO,
        BITS_POS_HALF, BITS_POS_HALF, BITS_POS_HALF, BITS_ONE, BITS_ZERO,
        BITS_NEG_HALF, BITS_POS_HALF, BITS_POS_HALF, BITS_ZERO, BITS_ZERO,
        BITS_NEG_HALF, BITS_POS_HALF, BITS_NEG_HALF, BITS_ZERO, BITS_ONE,
    ]
}

/// Builds the fixed unit-cube mesh. The result always carries exactly the
/// cube vertex table: 180 scalars, 36 vertices, 12 triangles.
pub fn create() -> (m: Mesh)
    ensures
        m.wf(),
        !m.initialized(),
        !m.draws_nothing(),
        m.vertex_words() == cube_vertex_words(),
        m.vertex_words().len() == 180,
{
    let vertices: Vec<u32> = vec![
        BITS_NEG_HALF, BITS_NEG_HALF, BITS_NEG_HALF, BITS_ZERO, BITS_ZERO,
        BITS_POS_HALF, BITS_NEG_HALF, BITS_NEG_HALF, BITS_ONE, BITS_ZERO,
        BITS_POS_HALF, BITS_POS_HALF, BITS_NEG_HALF, BITS_ONE, BITS_ONE,
        BITS_POS_HALF, BITS_POS_HALF, BITS_NEG_HALF, BITS_ONE, BITS_ONE,
        BITS_NEG_HALF, BITS_POS_HALF, BITS_NEG_HALF, BITS_ZERO, BITS_ONE,
        BITS_NEG_HALF, BITS_NEG_HALF, BITS_NEG_HALF, BITS_ZERO, BITS_ZERO,
        BITS_NEG_HALF, BITS_NEG_HALF, BITS_POS_HALF, BITS_ZERO, BITS_ZERO,
        BITS_POS_HALF, BITS_NEG_HALF, BITS_POS_HALF, BITS_ONE, BITS_ZERO,
        BITS_POS_HALF, BITS_POS_HALF, BITS_POS_HALF, BITS_ONE, BITS_ONE,
        BITS_POS_HALF, BITS_POS_HALF, BITS_POS_HALF, BITS_ONE, BITS_ONE,
        BITS_NEG_HALF, BITS_POS_HALF, BITS_POS_HALF, BITS_ZERO, BITS_ONE,
        BITS_NEG_HALF, BITS_NEG_HALF, BITS_POS_HALF, BITS_ZERO, BITS_ZERO,
        BITS_NEG_HALF, BITS_POS_HALF, BITS_POS_HALF, BITS_ONE, BITS_ZERO,
        BITS_NEG_HALF, BITS_POS_HALF, BITS_NEG_HALF, BITS_ONE, BITS_ONE,
        BITS_NEG_HALF, BITS_NEG_HALF, BITS_NEG_HALF, BITS_ZERO, BITS_ONE,
        BITS_NEG_HALF, BITS_NEG_HALF, BITS_NEG_HALF, BITS_ZERO, BITS_ONE,
        BITS_NEG_HALF, BITS_NEG_HALF, BITS_POS_HALF, BITS_ZERO, BITS_ZERO,
        BITS_NEG_HALF, BITS_POS_HALF, BITS_POS_HALF, BITS_ONE, BITS_ZERO,
        BITS_POS_HALF, BITS_POS_HALF, BITS_POS_HALF, BITS_ONE, BITS_ZERO,
        BITS_POS_HALF, BITS_POS_HALF, BITS_NEG_HALF, BITS_ONE, BITS_ONE,
        BITS_POS_HALF, BITS_NEG_HALF, BITS_NEG_HALF, BITS_ZERO, BITS_ONE,
        BITS_POS_HALF, BITS_NEG_HALF, BITS_NEG_HALF, BITS_ZERO, BITS_ONE,
        BITS_POS_HALF, BITS_NEG_HALF, BITS_POS_HALF, BITS_ZERO, BITS_ZERO,
        BITS_POS_HALF, BITS_POS_HALF, BITS_POS_HALF, BITS_ONE, BITS_ZERO,
        BITS_NEG_HALF, BITS_NEG_HALF, BITS_NEG_HALF, BITS_ZERO, BITS_ONE,
        BITS_POS_HALF, BITS_NEG_HALF, BITS_NEG_HALF, BITS_ONE, BITS_ONE,
        BITS_POS_HALF, BITS_NEG_HALF, BITS_POS_HALF, BITS_ONE, BITS_ZERO,
        BITS_POS_HALF, BITS_NEG_HALF, BITS_POS_HALF, BITS_ONE, BITS_ZERO,
        BITS_NEG_HALF, BITS_NEG_HALF, BITS_POS_HALF, BITS_ZERO, BITS_ZERO,
        BITS_NEG_HALF, BITS_NEG_HALF, BITS_NEG_HALF, BITS_ZERO, BITS_ONE,
        BITS_NEG_HALF, BITS_POS_HALF, BITS_NEG_HALF, BITS_ZERO, BITS_ONE,
        BITS_POS_HALF, BITS_POS_HALF, BITS_NEG_HALF, BITS_ONE, BITS_ONE,
        BITS_POS_HALF, BITS_POS_HALF, BITS_POS_HALF, BITS_ONE, BITS_ZERO,
        BITS_POS_HALF, BITS_POS_HALF, BITS_POS_HALF, BITS_ONE, BITS_ZERO,
        BITS_NEG_HALF, BITS_POS_HALF, BITS_POS_HALF, BITS_ZERO, BITS_ZERO,
        BITS_NEG_HALF, BITS_POS_HALF, BITS_NEG_HALF, BITS_ZERO, BITS_ONE,
    ];
    assert(vertices@ =~= cube_vertex_words());
    let r: Result<Mesh, GeometryError> = mesh::create(vertices);
    r.unwrap()
}

/// A cube mesh always reports exactly 36 vertices and 12 triangles,
/// matching `vertex_count` and `triangle_count` on any cube built by
/// `create`.
pub proof fn lemma_cube_counts(m: Mesh)
    requires
        m.vertex_words() == cube_vertex_words(),
    ensures
        m.vertex_words().len() as int / 5 == 36,
        m.vertex_words().len() as int / 5 / 3 == 12,
{
}

} // verus!
