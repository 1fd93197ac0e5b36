use vstd::prelude::*;

use crate::bytes::words_to_bytes;
use crate::error::GeometryError;
use crate::geometry::{DrawStep, Geometry, GpuHandles, VERTEX_STRIDE};
use crate::resource::GeometryResource;

verus! {

/// A shape built from an arbitrary vertex list: 32-bit scalar words in
/// records of five (three position components, two texture coordinates),
/// with a lazily-created GPU resource slot of its own.
pub struct Mesh {
    vertices: Vec<u32>,
    resource: GeometryResource,
}

/// Builds a mesh from raw vertex scalars. Succeeds exactly when the scalar
/// count is a whole number of stride-5 records; any other length is rejected
/// as `InvalidVertexData` at construction time, never at draw time.
pub fn create(vertices: Vec<u32>) -> (r: Result<Mesh, GeometryError>)
    ensures
        vertices@.len() % (VERTEX_STRIDE as nat) == 0 ==> (r matches Ok(m) && m.wf()
            && !m.initialized() && !m.draws_nothing() && m.vertex_words() == vertices@),
        vertices@.len() % (VERTEX_STRIDE as nat) != 0 ==> (r matches Err(e) && e
            == GeometryError::InvalidVertexData),
{
    if vertices.len() % VERTEX_STRIDE == 0 {
        Ok(Mesh { vertices, resource: GeometryResource::new() })
    } else {
        Err(GeometryError::InvalidVertexData)
    }
}

impl Geometry for Mesh {
    /// The scalar count is a whole number of vertex records.
    closed spec fn wf(&self) -> bool {
        self.vertices@.len() % (VERTEX_STRIDE as nat) == 0
    }

    closed spec fn draws_nothing(&self) -> bool {
        false
    }

    closed spec fn initialized(&self) -> bool {
        self.resource.initialized()
    }

    closed spec fn vertex_words(&self) -> Seq<u32> {
        self.vertices@
    }

    closed spec fn handles(&self) -> GpuHandles {
        self.resource.stored()
    }

    fn draw(&self) -> (step: DrawStep) {
        match self.resource.get() {
            Some(h) => DrawStep::Submit {
                array: h.array,
                vertex_count: self.vertices.len() / VERTEX_STRIDE,
            },
            None => DrawStep::Upload { bytes: words_to_bytes(&self.vertices) },
        }
    }

    fn finish_upload(&mut self, handles: GpuHandles) {
        self.resource.install(handles);
    }

    fn is_initialized(&self) -> (b: bool) {
        self.resource.get().is_some()
    }

    fn vertex_count(&self) -> (n: usize) {
        self.vertices.len() / VERTEX_STRIDE
    }

    fn triangle_count(&self) -> (n: usize) {
        self.vertices.len() / VERTEX_STRIDE / 3
    }
}

} // verus!
