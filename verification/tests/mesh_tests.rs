use game_renderer::renderer::mesh::{MeshData, MeshId, Vec3i, Vertex};

fn sub(b: Vec3i, a: Vec3i) -> [i64; 3] {
    [(b.x - a.x) as i64, (b.y - a.y) as i64, (b.z - a.z) as i64]
}

fn cross(u: [i64; 3], v: [i64; 3]) -> [i64; 3] {
    [u[1] * v[2] - u[2] * v[1], u[2] * v[0] - u[0] * v[2], u[0] * v[1] - u[1] * v[0]]
}

fn dot(u: [i64; 3], n: Vec3i) -> i64 {
    u[0] * n.x as i64 + u[1] * n.y as i64 + u[2] * n.z as i64
}

fn as_array(v: Vec3i) -> [i64; 3] {
    [v.x as i64, v.y as i64, v.z as i64]
}

/// Checks the triangle-list facts and returns the sign of every triangle's
/// winding around its normal.
fn check_mesh(m: &MeshData, plane_offset: i64) -> Vec<i64> {
    assert_eq!(m.indices.len() % 3, 0);
    for &i in &m.indices {
        assert!((i as usize) < m.vertices.len());
    }
    for k in 0..m.vertices.len() {
        assert!(m.indices.iter().any(|&i| i as usize == k), "vertex {k} unused");
    }
    for v in &m.vertices {
        assert_eq!(dot(as_array(v.position), v.normal), plane_offset);
    }
    let mut signs = Vec::new();
    for t in m.indices.chunks(3) {
        let a = m.vertices[t[0] as usize];
        let b = m.vertices[t[1] as usize];
        let c = m.vertices[t[2] as usize];
        assert_eq!(a.normal, b.normal);
        assert_eq!(a.normal, c.normal);
        let area = cross(sub(b.position, a.position), sub(c.position, a.position));
        assert_eq!(cross(area, as_array(a.normal)), [0, 0, 0]);
        let d = dot(area, a.normal);
        assert_ne!(d, 0);
        signs.push(d.signum());
    }
    signs
}

#[test]
fn cube_has_24_vertices_and_12_triangles() {
    let cube = MeshData::cube();
    assert_eq!(cube.vertices.len(), 24);
    assert_eq!(cube.indices.len(), 36);
    assert_eq!(cube.label, "Cube");
    assert_eq!(cube.index_count(), 36);
}

#[test]
fn cube_indices_split_each_face_in_two() {
    let cube = MeshData::cube();
    let expected: Vec<u16> = vec![
        0, 1, 2, 0, 2, 3, // front
        4, 5, 6, 4, 6, 7, // back
        8, 9, 10, 8, 10, 11, // right
        12, 13, 14, 12, 14, 15, // left
        16, 17, 18, 16, 18, 19, // top
        20, 21, 22, 20, 22, 23, // bottom
    ];
    assert_eq!(cube.indices, expected);
}

#[test]
fn cube_front_face_vertices() {
    let cube = MeshData::cube();
    let n = Vec3i::new(0, 0, 1);
    assert_eq!(cube.vertices[0], Vertex::new(Vec3i::new(-1, -1, 1), n));
    assert_eq!(cube.vertices[1], Vertex::new(Vec3i::new(1, -1, 1), n));
    assert_eq!(cube.vertices[2], Vertex::new(Vec3i::new(1, 1, 1), n));
    assert_eq!(cube.vertices[3], Vertex::new(Vec3i::new(-1, 1, 1), n));
    assert_eq!(cube.vertices[23], Vertex::new(Vec3i::new(-1, -1, 1), Vec3i::new(0, -1, 0)));
}

#[test]
fn cube_triangles_face_outward() {
    let cube = MeshData::cube();
    let signs = check_mesh(&cube, 1);
    assert_eq!(signs, vec![1; 12]);
}

#[test]
fn plane_is_flat_square_at_height_zero() {
    let plane = MeshData::plane();
    assert_eq!(plane.vertices.len(), 4);
    assert_eq!(plane.indices, vec![0, 1, 2, 0, 2, 3]);
    assert_eq!(plane.label, "Plane");
    for v in &plane.vertices {
        assert_eq!(v.normal, Vec3i::new(0, 1, 0));
        assert_eq!(v.position.y, 0);
    }
    let signs = check_mesh(&plane, 0);
    assert_eq!(signs, vec![-1, -1]);
}

#[test]
fn index_buffer_holds_native_bytes() {
    let plane = MeshData::plane();
    let bytes = plane.index_buffer_contents();
    assert_eq!(bytes.len(), 12);
    let expected: Vec<u8> = plane.indices.iter().flat_map(|i| i.to_ne_bytes()).collect();
    assert_eq!(bytes, expected);
    let cube = MeshData::cube();
    let bytes = cube.index_buffer_contents();
    assert_eq!(bytes.len(), 72);
    let value = |k: usize| u16::from_ne_bytes([bytes[2 * k], bytes[2 * k + 1]]);
    assert_eq!(value(35), 23);
    assert_eq!(value(6), 4);
}

#[test]
fn index_buffer_of_empty_mesh_is_empty() {
    let m = MeshData { vertices: Vec::new(), indices: Vec::new(), label: "Empty" };
    assert!(m.index_buffer_contents().is_empty());
    assert_eq!(m.index_count(), 0);
}

#[test]
fn mesh_ids_differ() {
    assert_ne!(MeshId::Cube, MeshId::Plane);
    assert_eq!(MeshId::Cube, MeshId::Cube);
}
