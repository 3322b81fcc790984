use frame_pacing::mesh::{load_model, Mesh, MeshError, Vertex, ONE};

fn bits(values: &[f32]) -> Vec<u32> {
    values.iter().map(|v| v.to_bits()).collect()
}

fn vertex(pos: [f32; 3], tex: [f32; 2]) -> Vertex {
    Vertex {
        pos: (pos[0].to_bits(), pos[1].to_bits(), pos[2].to_bits()),
        color: (ONE, ONE, ONE),
        tex_coord: (tex[0].to_bits(), tex[1].to_bits()),
    }
}

/// A unit square of four points.
fn square() -> Mesh {
    Mesh {
        positions: bits(&[0.0, 0.0, 0.0, 1.0, 0.0, 0.0, 1.0, 1.0, 0.0, 0.0, 1.0, 0.0]),
        texcoords: bits(&[0.0, 1.0, 1.0, 1.0, 1.0, 0.0, 0.0, 0.0]),
        indices: vec![0, 1, 2, 2, 3, 0],
    }
}

#[test]
fn one_is_the_bit_pattern_of_one() {
    assert_eq!(ONE, 1.0f32.to_bits());
    assert_eq!(f32::from_bits(ONE), 1.0);
}

#[test]
fn no_meshes_no_model() {
    let model = load_model(&Vec::new()).unwrap();
    assert!(model.vertices.is_empty());
    assert!(model.indices.is_empty());
    let empty = Mesh { positions: Vec::new(), texcoords: Vec::new(), indices: Vec::new() };
    let model = load_model(&vec![empty.clone(), empty]).unwrap();
    assert!(model.vertices.is_empty());
    assert!(model.indices.is_empty());
}

#[test]
fn shared_corners_become_one_vertex() {
    let model = load_model(&vec![square()]).unwrap();
    assert_eq!(
        model.vertices,
        vec![
            vertex([0.0, 0.0, 0.0], [0.0, 1.0]),
            vertex([1.0, 0.0, 0.0], [1.0, 1.0]),
            vertex([1.0, 1.0, 0.0], [1.0, 0.0]),
            vertex([0.0, 1.0, 0.0], [0.0, 0.0]),
        ]
    );
    assert_eq!(model.indices, vec![0, 1, 2, 2, 3, 0]);
}

#[test]
fn vertices_stand_in_the_order_of_first_use() {
    let mut mesh = square();
    mesh.indices = vec![3, 3, 1, 0, 1, 3];
    let model = load_model(&vec![mesh]).unwrap();
    assert_eq!(
        model.vertices,
        vec![
            vertex([0.0, 1.0, 0.0], [0.0, 0.0]),
            vertex([1.0, 0.0, 0.0], [1.0, 1.0]),
            vertex([0.0, 0.0, 0.0], [0.0, 1.0]),
        ]
    );
    assert_eq!(model.indices, vec![0, 0, 1, 2, 1, 0]);
}

#[test]
fn equal_points_of_different_meshes_are_one_vertex() {
    let other = Mesh {
        positions: bits(&[5.0, 5.0, 5.0, 1.0, 1.0, 0.0]),
        texcoords: bits(&[0.5, 0.5, 1.0, 0.0]),
        indices: vec![1, 0, 1],
    };
    let model = load_model(&vec![square(), other]).unwrap();
    assert_eq!(model.vertices.len(), 5);
    assert_eq!(model.vertices[4], vertex([5.0, 5.0, 5.0], [0.5, 0.5]));
    assert_eq!(model.indices, vec![0, 1, 2, 2, 3, 0, 2, 4, 2]);
}

#[test]
fn points_that_differ_in_one_number_are_different_vertices() {
    let mesh = Mesh {
        positions: bits(&[1.0, 2.0, 3.0, 1.0, 2.0, 3.0, 1.0, 2.0, 3.5, 1.0, 2.0, 3.0]),
        texcoords: bits(&[0.0, 0.0, 0.0, 0.0, 0.0, 0.0, 0.0, 0.25]),
        indices: vec![0, 1, 2, 3],
    };
    let model = load_model(&vec![mesh]).unwrap();
    assert_eq!(model.indices, vec![0, 0, 1, 2]);
    assert_eq!(model.vertices.len(), 3);
}

#[test]
fn zero_and_minus_zero_are_told_apart() {
    let mesh = Mesh {
        positions: bits(&[0.0, 0.0, 0.0, -0.0, 0.0, 0.0]),
        texcoords: bits(&[0.0, 0.0, 0.0, 0.0]),
        indices: vec![0, 1, 0],
    };
    let model = load_model(&vec![mesh]).unwrap();
    assert_eq!(model.indices, vec![0, 1, 0]);
    assert_eq!(model.vertices.len(), 2);
}

#[test]
fn every_vertex_is_white() {
    let model = load_model(&vec![square()]).unwrap();
    for v in model.vertices {
        assert_eq!(v.color, (0x3f80_0000, 0x3f80_0000, 0x3f80_0000));
    }
}

#[test]
fn corner_without_a_position_is_refused() {
    let mut mesh = square();
    mesh.indices = vec![0, 1, 4];
    assert_eq!(load_model(&vec![mesh]).err(), Some(MeshError::IndexOutOfRange));

    let mut mesh = square();
    mesh.positions.pop();
    assert_eq!(load_model(&vec![mesh]).err(), Some(MeshError::IndexOutOfRange));

    let mut mesh = square();
    mesh.positions.pop();
    mesh.indices = vec![0, 1, 2];
    assert!(load_model(&vec![mesh]).is_ok());

    let mut mesh = square();
    mesh.indices = vec![u32::MAX];
    assert_eq!(load_model(&vec![mesh]).err(), Some(MeshError::IndexOutOfRange));
}

#[test]
fn corner_without_a_texture_coordinate_is_refused() {
    let mut mesh = square();
    mesh.texcoords.pop();
    assert_eq!(load_model(&vec![mesh]).err(), Some(MeshError::IndexOutOfRange));

    let mut mesh = square();
    mesh.texcoords.clear();
    mesh.indices = vec![0];
    assert_eq!(load_model(&vec![square(), mesh]).err(), Some(MeshError::IndexOutOfRange));
}
