use functor_runtime_common::cube;
use functor_runtime_common::error::GeometryError;
use functor_runtime_common::geometry::{complete_upload, DrawStep, EmptyMesh, Geometry, GpuHandles};
use functor_runtime_common::mesh;
use functor_runtime_common::plane;

/// A stand-in for the graphics context: counts allocations and records what
/// the library asks it to upload and submit.
struct MockContext {
    allocations: usize,
    upload_byte_lens: Vec<usize>,
    submitted_vertex_counts: Vec<usize>,
    next_handle: u32,
}

impl MockContext {
    fn new() -> MockContext {
        MockContext {
            allocations: 0,
            upload_byte_lens: Vec::new(),
            submitted_vertex_counts: Vec::new(),
            next_handle: 1,
        }
    }

    /// Performs one frame for `shape`, the way the runtime layer would.
    fn frame<G: Geometry>(&mut self, shape: &mut G) {
        match shape.draw() {
            DrawStep::Nothing => {}
            DrawStep::Upload { bytes } => {
                self.allocations += 1;
                self.upload_byte_lens.push(bytes.len());
                let handles = GpuHandles { buffer: self.next_handle, array: self.next_handle + 1 };
                self.next_handle += 2;
                complete_upload(shape, Some(handles)).expect("allocation succeeded");
                match shape.draw() {
                    DrawStep::Submit { vertex_count, .. } => {
                        self.submitted_vertex_counts.push(vertex_count)
                    }
                    _ => panic!("a freshly uploaded shape must submit"),
                }
            }
            DrawStep::Submit { vertex_count, .. } => {
                self.submitted_vertex_counts.push(vertex_count)
            }
        }
    }
}

fn bits(values: &[f32]) -> Vec<u32> {
    values.iter().map(|v| v.to_bits()).collect()
}

#[test]
fn mesh_create_valid_reports_vertex_count() {
    for records in [1usize, 2, 7, 36] {
        let floats: Vec<f32> = (0..records * 5).map(|i| i as f32).collect();
        let words: Vec<u32> = floats.iter().map(|v| v.to_bits()).collect();
        let m = mesh::create(words).expect("length divisible by 5 must be accepted");
        assert_eq!(m.vertex_count(), records);
    }
}

#[test]
fn mesh_create_invalid_lengths_rejected() {
    for len in [1usize, 2, 3, 4, 6, 9, 11, 179] {
        let words: Vec<u32> = vec![0; len];
        match mesh::create(words) {
            Err(GeometryError::InvalidVertexData) => {}
            other => panic!("length {} must be rejected as InvalidVertexData, got {:?}", len, other.is_ok()),
        }
    }
}

#[test]
fn repeated_draws_allocate_once() {
    let mut ctx = MockContext::new();
    let mut shape = cube::create();
    for _ in 0..8 {
        ctx.frame(&mut shape);
    }
    assert_eq!(ctx.allocations, 1);
    assert_eq!(ctx.submitted_vertex_counts.len(), 8);
}

#[test]
fn plane_repeated_draws_allocate_once() {
    let mut ctx = MockContext::new();
    let mut shape = plane::create();
    for _ in 0..5 {
        ctx.frame(&mut shape);
    }
    assert_eq!(ctx.allocations, 1);
    assert_eq!(ctx.submitted_vertex_counts, vec![6, 6, 6, 6, 6]);
}

#[test]
fn cube_reports_36_vertices_12_triangles() {
    let cube = cube::create();
    assert_eq!(cube.vertex_count(), 36);
    assert_eq!(cube.triangle_count(), 12);
}

#[test]
fn plane_counts_do_not_depend_on_uv_scale() {
    let plane = plane::create();
    assert_eq!(plane.vertex_count(), 6);
    assert_eq!(plane.triangle_count(), 2);
    for scale in [0.0f32, 1.0, 100.0, 12345.5] {
        let scaled = plane::create_with_uv_scale(scale.to_bits());
        assert_eq!(scaled.vertex_count(), 6);
        assert_eq!(scaled.triangle_count(), 2);
    }
}

#[test]
fn empty_mesh_never_touches_context() {
    let mut ctx = MockContext::new();
    let mut shape = EmptyMesh;
    for _ in 0..4 {
        ctx.frame(&mut shape);
    }
    assert_eq!(ctx.allocations, 0);
    assert_eq!(ctx.upload_byte_lens.len(), 0);
    assert_eq!(ctx.submitted_vertex_counts.len(), 0);
}

#[test]
fn quad_mesh_upload_and_submit_scenario() {
    let quad: Vec<f32> = vec![
        -0.5, 0.0, -0.5, 0.0, 0.0, //
        0.5, 0.0, -0.5, 1.0, 0.0, //
        0.5, 0.0, 0.5, 1.0, 1.0, //
        -0.5, 0.0, -0.5, 0.0, 0.0, //
        -0.5, 0.0, 0.5, 0.0, 1.0, //
        0.5, 0.0, 0.5, 1.0, 1.0,
    ];
    let mut shape = mesh::create(bits(&quad)).expect("30 floats form 6 records");
    let mut ctx = MockContext::new();

    ctx.frame(&mut shape);
    assert_eq!(ctx.allocations, 1);
    assert_eq!(ctx.upload_byte_lens, vec![120]);
    assert_eq!(ctx.submitted_vertex_counts, vec![6]);

    ctx.frame(&mut shape);
    assert_eq!(ctx.allocations, 1);
    assert_eq!(ctx.upload_byte_lens, vec![120]);
    assert_eq!(ctx.submitted_vertex_counts, vec![6, 6]);
}

#[test]
fn quad_mesh_upload_bytes_match_native_float_image() {
    let quad: Vec<f32> = vec![
        -0.5, 0.0, -0.5, 0.0, 0.0, //
        0.5, 0.0, -0.5, 1.0, 0.0, //
        0.5, 0.0, 0.5, 1.0, 1.0, //
        -0.5, 0.0, -0.5, 0.0, 0.0, //
        -0.5, 0.0, 0.5, 0.0, 1.0, //
        0.5, 0.0, 0.5, 1.0, 1.0,
    ];
    let shape = mesh::create(bits(&quad)).expect("30 floats form 6 records");
    match shape.draw() {
        DrawStep::Upload { bytes } => {
            let expected: Vec<u8> = quad.iter().flat_map(|v| v.to_le_bytes()).collect();
            assert_eq!(bytes, expected);
        }
        _ => panic!("the first draw of a fresh mesh must request the upload"),
    }
}

#[test]
fn failed_allocation_surfaces_resource_error() {
    let mut shape = cube::create();
    match shape.draw() {
        DrawStep::Upload { .. } => {}
        _ => panic!("the first draw of a fresh cube must request the upload"),
    }
    let r = complete_upload(&mut shape, None);
    assert_eq!(r, Err(GeometryError::ResourceCreationFailed));
    assert!(!shape.is_initialized());
    // The shape is untouched: the next frame asks for the upload again.
    match shape.draw() {
        DrawStep::Upload { bytes } => assert_eq!(bytes.len(), 720),
        _ => panic!("an uninitialized cube must still request the upload"),
    }
}

#[test]
fn submit_reuses_recorded_array_handle() {
    let mut shape = plane::create();
    let handles = GpuHandles { buffer: 41, array: 42 };
    match shape.draw() {
        DrawStep::Upload { .. } => {
            complete_upload(&mut shape, Some(handles)).expect("allocation succeeded");
        }
        _ => panic!("the first draw of a fresh plane must request the upload"),
    }
    for _ in 0..3 {
        match shape.draw() {
            DrawStep::Submit { array, vertex_count } => {
                assert_eq!(array, 42);
                assert_eq!(vertex_count, 6);
            }
            _ => panic!("an initialized plane must submit"),
        }
    }
}
