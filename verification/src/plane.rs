use vstd::prelude::*;

use crate::bytes::words_to_bytes;
use crate::geometry::{DrawStep, Geometry, GpuHandles, VERTEX_STRIDE};
use crate::resource::GeometryResource;
use crate::scalar::{BITS_HUNDRED, BITS_NEG_HALF, BITS_POS_HALF, BITS_ZERO};

verus! {

/// The flat quad's vertex scalars for a given texture-coordinate tiling
/// scale: two triangles, 6 vertices, 30 words in all. The scale appears only
/// in the texture coordinates, so the vertex and triangle counts do not
/// depend on it.
pub open spec fn plane_vertex_words(uv_scale_bits: u32) -> Seq<u32> {
    seq![
        BITS_NEG_HALF, BITS_ZERO, BITS_NEG_HALF, BITS_ZERO, BITS_ZERO,
        BITS_POS_HALF, BITS_ZERO, BITS_NEG_HALF, uv_scale_bits, BITS_ZERO,
        BITS_POS_HALF, BITS_ZERO, BITS_POS_HALF, uv_scale_bits, uv_scale_bits,
        BITS_NEG_HALF, BITS_ZERO, BITS_NEG_HALF, BITS_ZERO, BITS_ZERO,
        BITS_NEG_HALF, BITS_ZERO, BITS_POS_HALF, BITS_ZERO, uv_scale_bits,
        BITS_POS_HALF, BITS_ZERO, BITS_POS_HALF, uv_scale_bits, uv_scale_bits,
    ]
}

/// A fixed flat quad on the ground plane, with the texture-coordinate tiling
/// scale baked into its vertex data at construction, and a lazily-created GPU
/// resource slot of its own.
pub struct Plane {
    vertices: Vec<u32>,
    resource: GeometryResource,
}

/// Builds the plane with the default tiling scale of one hundred.
pub fn create() -> (p: Plane)
    ensures
        p.wf(),
        !p.initialized(),
        !p.draws_nothing(),
        p.vertex_words() == plane_vertex_words(BITS_HUNDRED),
{
    create_with_uv_scale(BITS_HUNDRED)
}

/// Builds the plane with a chosen tiling scale (as the 32-bit pattern of the
/// scale value). Whatever the scale, the plane issues exactly 6 vertices and
/// 2 triangles.
pub fn create_with_uv_scale(uv_scale_bits: u32) -> (p: Plane)
    ensures
        p.wf(),
        !p.initialized(),
        !p.draws_nothing(),
        p.vertex_words() == plane_vertex_words(uv_scale_bits),
        p.vertex_words().len() == 30,
{
    let vertices: Vec<u32> = vec![
        BITS_NEG_HALF, BITS_ZERO, BITS_NEG_HALF, BITS_ZERO, BITS_ZERO,
        BITS_POS_HALF, BITS_ZERO, BITS_NEG_HALF, uv_scale_bits, BITS_ZERO,
        BITS_POS_HALF, BITS_ZERO, BITS_POS_HALF, uv_scale_bits, uv_scale_bits,
        BITS_NEG_HALF, BITS_ZERO, BITS_NEG_HALF, BITS_ZERO, BITS_ZERO,
        BITS_NEG_HALF, BITS_ZERO, BITS_POS_HALF, BITS_ZERO, uv_scale_bits,
        BITS_POS_HALF, BITS_ZERO, BITS_POS_HALF, uv_scale_bits, uv_scale_bits,
    ];
    assert(vertices@ =~= plane_vertex_words(uv_scale_bits));
    Plane { vertices, resource: GeometryResource::new() }
}

/// Whatever tiling scale a plane was built with, it reports exactly 6
/// vertices and 2 triangles.
pub proof fn lemma_plane_counts(uv_scale_bits: u32)
    ensures
        plane_vertex_words(uv_scale_bits).len() as int / 5 == 6,
        plane_vertex_words(uv_scale_bits).len() as int / 5 / 3 == 2,
{
}

impl Geometry for Plane {
    /// The scalar count is a whole number of vertex records.
    closed spec fn wf(&self) -> bool {
        self.vertices@.len() % (VERTEX_STRIDE as nat) == 0
    }

    closed spec fn draws_nothing(&self) -> bool {
        false
    }

    closed spec fn initialized(&self) -> bool {
        self.resource.initialized()
    }

    closed spec fn vertex_words(&self) -> Seq<u32> {
        self.vertices@
    }

    closed spec fn handles(&self) -> GpuHandles {
        self.resource.stored()
    }

    fn draw(&self) -> (step: DrawStep) {
        match self.resource.get() {
            Some(h) => DrawStep::Submit {
                array: h.array,
                vertex_count: self.vertices.len() / VERTEX_STRIDE,
            },
            None => DrawStep::Upload { bytes: words_to_bytes(&self.vertices) },
        }
    }

    fn finish_upload(&mut self, handles: GpuHandles) {
        self.resource.install(handles);
    }

    fn is_initialized(&self) -> (b: bool) {
        self.resource.get().is_some()
    }

    fn vertex_count(&self) -> (n: usize) {
        self.vertices.len() / VERTEX_STRIDE
    }

    fn triangle_count(&self) -> (n: usize) {
        self.vertices.len() / VERTEX_STRIDE / 3
    }
}

} // verus!
