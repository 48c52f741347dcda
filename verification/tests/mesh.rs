use canvas::mesh::{
    create_mesh_data, cube_indices, cube_vertices, Vertex3d, VertexAttribute,
    VertexFormat, VertexStepMode, CUBE_INDEX_COUNT, CUBE_VERTEX_COUNT, TRIANGLE_VERTEX_COUNT,
};

const EXPECTED_INDICES: [u16; 36] = [
    0, 1, 2, 0, 2, 3, // front
    1, 5, 6, 1, 6, 2, // right
    5, 4, 7, 5, 7, 6, // back
    4, 0, 3, 4, 3, 7, // left
    3, 2, 6, 3, 6, 7, // top
    4, 5, 1, 4, 1, 0, // bottom
];

#[test]
fn cube_index_list() {
    assert_eq!(cube_indices(), EXPECTED_INDICES.to_vec());
}

#[test]
fn cube_counts() {
    let vertices = cube_vertices();
    let indices = cube_indices();
    assert_eq!(vertices.len(), 8);
    assert_eq!(indices.len(), 36);
    assert_eq!(indices.len() / 3, 12);
    assert_eq!(indices.len() % 3, 0);
    assert!(indices.iter().all(|i| (*i as usize) < vertices.len()));
    assert_eq!(CUBE_VERTEX_COUNT, 8);
    assert_eq!(CUBE_INDEX_COUNT, 36);
    assert_eq!(TRIANGLE_VERTEX_COUNT, 3);
}

#[test]
fn cube_vertex_values() {
    let vertices = cube_vertices();
    let as_floats: Vec<([f32; 3], [f32; 3])> = vertices
        .iter()
        .map(|v| {
            (
                [
                    v.position.0 as f32 / 10.0,
                    v.position.1 as f32 / 10.0,
                    v.position.2 as f32 / 10.0,
                ],
                [v.color.0 as f32 / 10.0, v.color.1 as f32 / 10.0, v.color.2 as f32 / 10.0],
            )
        })
        .collect();
    let expected: Vec<([f32; 3], [f32; 3])> = vec![
        ([-0.5, -0.5, 0.5], [1.0, 0.0, 0.0]),
        ([0.5, -0.5, 0.5], [0.0, 1.0, 0.0]),
        ([0.5, 0.5, 0.5], [0.0, 0.0, 1.0]),
        ([-0.5, 0.5, 0.5], [1.0, 1.0, 0.0]),
        ([-0.5, -0.5, -0.5], [1.0, 0.0, 1.0]),
        ([0.5, -0.5, -0.5], [0.0, 1.0, 1.0]),
        ([0.5, 0.5, -0.5], [1.0, 1.0, 1.0]),
        ([-0.5, 0.5, -0.5], [0.2, 0.2, 0.2]),
    ];
    assert_eq!(as_floats, expected);
}

#[test]
fn cube_colors_are_distinct() {
    let vertices = cube_vertices();
    for i in 0..vertices.len() {
        for j in (i + 1)..vertices.len() {
            assert_ne!(vertices[i].color, vertices[j].color);
            assert_ne!(vertices[i].position, vertices[j].position);
        }
    }
}

#[test]
fn cube_triangles_wind_counter_clockwise() {
    let vertices = cube_vertices();
    let indices = cube_indices();
    for triangle in indices.chunks(3) {
        let a = vertices[triangle[0] as usize].position;
        let b = vertices[triangle[1] as usize].position;
        let c = vertices[triangle[2] as usize].position;
        let triple = a.0 * (b.1 * c.2 - b.2 * c.1)
            + a.1 * (b.2 * c.0 - b.0 * c.2)
            + a.2 * (b.0 * c.1 - b.1 * c.0);
        assert_eq!(triple, 500);
        assert_ne!(triangle[0], triangle[1]);
        assert_ne!(triangle[1], triangle[2]);
        assert_ne!(triangle[0], triangle[2]);
    }
    for v in 0..8u16 {
        assert!(indices.contains(&v));
    }
}

#[test]
fn vertex_layout() {
    let layout = Vertex3d::layout();
    assert_eq!(layout.array_stride, 24);
    assert_eq!(layout.step_mode, VertexStepMode::Vertex);
    assert_eq!(
        layout.attributes,
        vec![
            VertexAttribute { offset: 0, shader_location: 0, format: VertexFormat::Float32x3 },
            VertexAttribute { offset: 12, shader_location: 1, format: VertexFormat::Float32x3 },
        ]
    );
    assert_eq!(VertexFormat::Float32x3.size(), 12);
}

#[test]
fn mesh_data_for_upload() {
    let mesh = create_mesh_data();
    assert_eq!(mesh.index_count, 36);
    assert_eq!(mesh.vertices, cube_vertices());
    assert_eq!(mesh.index_bytes.len(), 72);
    let expected: Vec<u8> = EXPECTED_INDICES.iter().flat_map(|i| i.to_ne_bytes()).collect();
    assert_eq!(mesh.index_bytes, expected);
    let pairs: Vec<u16> = mesh
        .index_bytes
        .chunks(2)
        .map(|pair| u16::from_ne_bytes([pair[0], pair[1]]))
        .collect();
    assert_eq!(pairs, EXPECTED_INDICES.to_vec());
}
