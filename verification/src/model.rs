use vstd::prelude::*;

use crate::error::GeometryError;
use crate::geometry::VERTEX_STRIDE;

verus! {

/// A reference to a loaded two-dimensional texture, by the handle the
/// graphics layer assigned to it.
#[derive(Clone, Copy, Debug, PartialEq, Eq, Structural)]
pub struct TextureRef {
    pub id: u32,
}

/// A 4x4 transform, its sixteen entries stored column-major as the 32-bit
/// patterns of IEEE-754 single precision values.
pub struct Matrix4Words {
    pub entries: [u32; 16],
}

/// Indexed geometry: stride-5 vertex records addressed through an explicit
/// index list, so triangles may share vertices. A superset of the plain
/// vertex-list mesh, drawn by index count rather than vertex count.
pub struct IndexedMesh {
    vertices: Vec<u32>,
    indices: Vec<u32>,
}

impl IndexedMesh {
    /// The vertex scalars, as 32-bit patterns, five per record.
    pub closed spec fn vertex_words(&self) -> Seq<u32> {
        self.vertices@
    }

    /// The index list; each entry names one vertex record.
    pub closed spec fn index_list(&self) -> Seq<u32> {
        self.indices@
    }

    /// The scalar count is a whole number of vertex records and every index
    /// names an existing record.
    pub open spec fn wf(&self) -> bool {
        &&& self.vertex_words().len() % (VERTEX_STRIDE as nat) == 0
        &&& forall|i: int|
            0 <= i < self.index_list().len() ==> (self.index_list()[i] as int)
                < self.vertex_words().len() as int / (VERTEX_STRIDE as int)
    }

    /// Builds indexed geometry. Succeeds exactly when the scalar count is a
    /// whole number of stride-5 records and every index is in range; any
    /// other input is rejected as `InvalidVertexData` at construction time.
    pub fn new(vertices: Vec<u32>, indices: Vec<u32>) -> (r: Result<IndexedMesh, GeometryError>)
        ensures
            (vertices@.len() % (VERTEX_STRIDE as nat) == 0 && (forall|i: int|
                0 <= i < indices@.len() ==> (indices@[i] as int) < vertices@.len() as int / (
                VERTEX_STRIDE as int))) <==> (r is Ok),
            r matches Ok(m) ==> m.wf() && m.vertex_words() == vertices@ && m.index_list()
                == indices@,
            r is Err ==> (r matches Err(e) && e == GeometryError::InvalidVertexData),
    {
        if vertices.len() % VERTEX_STRIDE != 0 {
            return Err(GeometryError::InvalidVertexData);
        }
        let record_count: usize = vertices.len() / VERTEX_STRIDE;
        let mut i: usize = 0;
        while i < indices.len()
            invariant
                i <= indices@.len(),
                record_count as int == vertices@.len() as int / (VERTEX_STRIDE as int),
                forall|j: int| 0 <= j < i ==> (indices@[j] as int) < record_count as int,
            decreases indices@.len() - i,
        {
            if indices[i] as usize >= record_count {
                return Err(GeometryError::InvalidVertexData);
            }
            i = i + 1;
        }
        Ok(IndexedMesh { vertices, indices })
    }

    /// Number of index entries one draw of this geometry covers.
    pub fn index_count(&self) -> (n: usize)
        ensures
            n == self.index_list().len(),
    {
        self.indices.len()
    }

    /// The vertex scalars, for the layer that feeds the graphics device.
    pub fn vertex_data(&self) -> (v: &Vec<u32>)
        ensures
            v@ == self.vertex_words(),
    {
        &self.vertices
    }

    /// The index list, for the layer that feeds the graphics device.
    pub fn index_data(&self) -> (v: &Vec<u32>)
        ensures
            v@ == self.index_list(),
    {
        &self.indices
    }
}

/// One drawable piece of a model: indexed geometry paired with its base-color
/// texture and the transform that places it.
pub struct ModelMesh {
    pub base_color_texture: TextureRef,
    pub mesh: IndexedMesh,
    pub transform: Matrix4Words,
}

/// A model: an ordered sequence of drawable pieces.
pub struct Model {
    pub meshes: Vec<ModelMesh>,
}

} // verus!
