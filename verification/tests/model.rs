use functor_runtime_common::error::GeometryError;
use functor_runtime_common::model::{IndexedMesh, Matrix4Words, Model, ModelMesh, TextureRef};

fn quad_vertices() -> Vec<u32> {
    let floats: Vec<f32> = vec![
        -0.5, 0.0, -0.5, 0.0, 0.0, //
        0.5, 0.0, -0.5, 1.0, 0.0, //
        0.5, 0.0, 0.5, 1.0, 1.0, //
        -0.5, 0.0, 0.5, 0.0, 1.0,
    ];
    floats.iter().map(|v| v.to_bits()).collect()
}

#[test]
fn indexed_mesh_accepts_valid_input() {
    let mesh = IndexedMesh::new(quad_vertices(), vec![0, 1, 2, 0, 3, 2])
        .expect("four records and in-range indices must be accepted");
    assert_eq!(mesh.index_count(), 6);
    assert_eq!(mesh.vertex_data().len(), 20);
    assert_eq!(mesh.index_data(), &vec![0, 1, 2, 0, 3, 2]);
}

#[test]
fn indexed_mesh_rejects_bad_stride() {
    let mut vertices = quad_vertices();
    vertices.pop();
    match IndexedMesh::new(vertices, vec![0]) {
        Err(GeometryError::InvalidVertexData) => {}
        _ => panic!("a scalar count that is no whole number of records must be rejected"),
    }
}

#[test]
fn indexed_mesh_rejects_out_of_range_index() {
    match IndexedMesh::new(quad_vertices(), vec![0, 1, 4]) {
        Err(GeometryError::InvalidVertexData) => {}
        _ => panic!("an index past the last record must be rejected"),
    }
}

#[test]
fn model_keeps_mesh_order() {
    let identity: [u32; 16] = {
        let one = 1.0f32.to_bits();
        let zero = 0.0f32.to_bits();
        [
            one, zero, zero, zero, //
            zero, one, zero, zero, //
            zero, zero, one, zero, //
            zero, zero, zero, one,
        ]
    };
    let piece_a = ModelMesh {
        base_color_texture: TextureRef { id: 7 },
        mesh: IndexedMesh::new(quad_vertices(), vec![0, 1, 2]).expect("valid"),
        transform: Matrix4Words { entries: identity },
    };
    let piece_b = ModelMesh {
        base_color_texture: TextureRef { id: 8 },
        mesh: IndexedMesh::new(quad_vertices(), vec![0, 3, 2]).expect("valid"),
        transform: Matrix4Words { entries: identity },
    };
    let model = Model { meshes: vec![piece_a, piece_b] };
    assert_eq!(model.meshes.len(), 2);
    assert_eq!(model.meshes[0].base_color_texture, TextureRef { id: 7 });
    assert_eq!(model.meshes[1].base_color_texture, TextureRef { id: 8 });
}
