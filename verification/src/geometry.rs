use vstd::prelude::*;

use crate::bytes::bytes_of_words;
use crate::error::GeometryError;

verus! {

/// Number of scalar components per vertex record: three for the position and
/// two for the texture coordinate.
pub const VERTEX_STRIDE: usize = 5;

/// The pair of GPU object handles backing one shape: the vertex buffer and
/// the vertex-array binding created for it. The handles are references into
/// the graphics context, which remains the true owner of the GPU memory.
#[derive(Clone, Copy, Debug, PartialEq, Eq, Structural)]
pub struct GpuHandles {
    pub buffer: u32,
    pub array: u32,
}

/// One step the graphics layer must perform for a shape on the current frame.
pub enum DrawStep {
    /// Nothing to do: the shape issues no geometry.
    Nothing,
    /// The shape's GPU resources do not exist yet: create a buffer and a
    /// vertex-array binding, upload `bytes`, configure the attribute layout,
    /// and report the new handles back through `finish_upload`. The next
    /// `draw` then yields the submission.
    Upload { bytes: Vec<u8> },
    /// The shape's GPU resources exist: bind `array` and submit a
    /// triangle-list draw of `vertex_count` vertices.
    Submit { array: u32, vertex_count: usize },
}

/// The step asks the graphics layer to upload exactly the byte image of
/// `words`.
pub open spec fn is_upload_of(step: DrawStep, words: Seq<u32>) -> bool {
    step matches DrawStep::Upload { bytes } && bytes@ == bytes_of_words(words)
}

/// The step asks the graphics layer to bind the memoized array handle and
/// submit one triangle-list draw covering every whole vertex record of
/// `words`.
pub open spec fn is_submit_for(step: DrawStep, handles: GpuHandles, words: Seq<u32>) -> bool {
    step matches DrawStep::Submit { array, vertex_count } && array == handles.array
        && vertex_count as int == words.len() as int / VERTEX_STRIDE as int
}

/// A drawable shape. Each `draw` call yields the step the graphics layer must
/// perform; GPU resources are created lazily and at most once per instance.
pub trait Geometry: Sized {
    /// The shape's structural invariant.
    spec fn wf(&self) -> bool;

    /// Whether the shape never issues geometry.
    spec fn draws_nothing(&self) -> bool;

    /// Whether the shape's GPU resources have been created.
    spec fn initialized(&self) -> bool;

    /// The shape's vertex scalars, as 32-bit patterns, five per record.
    spec fn vertex_words(&self) -> Seq<u32>;

    /// The memoized GPU handle pair, meaningful once `initialized`.
    spec fn handles(&self) -> GpuHandles;

    /// What the graphics layer must do for this shape on this frame. Never
    /// mutates the shape: before the upload completes it keeps asking for the
    /// upload, afterwards it always yields the same submission.
    fn draw(&self) -> (step: DrawStep)
        requires
            self.wf(),
        ensures
            self.draws_nothing() ==> step is Nothing,
            !self.draws_nothing() && !self.initialized() ==> is_upload_of(
                step,
                self.vertex_words(),
            ),
            !self.draws_nothing() && self.initialized() ==> is_submit_for(
                step,
                self.handles(),
                self.vertex_words(),
            ),
    ;

    /// Record the handle pair the graphics layer created for this shape's
    /// upload. Permitted only while the resources do not exist yet, so each
    /// instance memoizes at most one allocation for its whole life.
    fn finish_upload(&mut self, handles: GpuHandles)
        requires
            old(self).wf(),
            !old(self).initialized(),
        ensures
            final(self).wf(),
            final(self).initialized(),
            final(self).handles() == handles,
            final(self).vertex_words() == old(self).vertex_words(),
            final(self).draws_nothing() == old(self).draws_nothing(),
    ;

    /// Whether the shape's GPU resources have been created, for callers
    /// outside verified code.
    fn is_initialized(&self) -> (b: bool)
        ensures
            b == self.initialized(),
    ;

    /// Number of whole vertex records the shape issues.
    fn vertex_count(&self) -> (n: usize)
        requires
            self.wf(),
        ensures
            n as int == self.vertex_words().len() as int / VERTEX_STRIDE as int,
    ;

    /// Number of triangles the shape issues, three vertices each.
    fn triangle_count(&self) -> (n: usize)
        requires
            self.wf(),
        ensures
            n as int == self.vertex_words().len() as int / VERTEX_STRIDE as int / 3,
    ;
}

/// Interprets the graphics layer's outcome of performing an `Upload` step.
/// A successful allocation is memoized into the shape, exactly once; a failed
/// one leaves the shape untouched and surfaces `ResourceCreationFailed`, so
/// the caller may skip this shape's draw and continue.
pub fn complete_upload<G: Geometry>(shape: &mut G, outcome: Option<GpuHandles>) -> (r: Result<
    (),
    GeometryError,
>)
    requires
        old(shape).wf(),
        !old(shape).initialized(),
    ensures
        outcome matches Some(h) ==> r is Ok && final(shape).wf() && final(shape).initialized()
            && final(shape).handles() == h && final(shape).vertex_words() == old(
            shape,
        ).vertex_words() && final(shape).draws_nothing() == old(shape).draws_nothing(),
        outcome is None ==> (r matches Err(e) && e == GeometryError::ResourceCreationFailed)
            && *final(shape) == *old(shape),
{
    match outcome {
        Some(h) => {
            shape.finish_upload(h);
            Ok(())
        },
        None => Err(GeometryError::ResourceCreationFailed),
    }
}

/// The empty shape: draws nothing and never touches the graphics context.
pub struct EmptyMesh;

impl Geometry for EmptyMesh {
    open spec fn wf(&self) -> bool {
        true
    }

    open spec fn draws_nothing(&self) -> bool {
        true
    }

    open spec fn initialized(&self) -> bool {
        true
    }

    open spec fn vertex_words(&self) -> Seq<u32> {
        Seq::empty()
    }

    open spec fn handles(&self) -> GpuHandles {
        GpuHandles { buffer: 0, array: 0 }
    }

    fn draw(&self) -> (step: DrawStep) {
        DrawStep::Nothing
    }

    fn finish_upload(&mut self, _handles: GpuHandles) {
    }

    fn is_initialized(&self) -> (b: bool) {
        true
    }

    fn vertex_count(&self) -> (n: usize) {
        0
    }

    fn triangle_count(&self) -> (n: usize) {
        0
    }
}

} // verus!
