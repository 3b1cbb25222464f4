use glboot::geometry::{
    check_mesh, flatten_positions, index_buffer_bytes, indices_in_range, quad_indices, quad_mesh,
    quad_vertices, same_triangle, triangle, triangle_double_area, vertex_buffer_bytes, Mesh,
    Position,
};

#[test]
fn quad_data_matches_the_fixed_mesh() {
    let m = quad_mesh();
    assert_eq!(m.indices, vec![0, 1, 3, 1, 2, 3]);
    let expected = vec![
        Position { x: 1, y: 1, z: 0 },
        Position { x: 1, y: -1, z: 0 },
        Position { x: -1, y: -1, z: 0 },
        Position { x: -1, y: 1, z: 0 },
    ];
    assert_eq!(m.vertices, expected);
    assert!(check_mesh(&m));
}

#[test]
fn quad_positions_halve_to_the_unit_quad_corners() {
    let corners: Vec<(f32, f32, f32)> = quad_vertices()
        .iter()
        .map(|p| (p.x as f32 * 0.5, p.y as f32 * 0.5, p.z as f32 * 0.5))
        .collect();
    assert_eq!(
        corners,
        vec![(0.5, 0.5, 0.0), (0.5, -0.5, 0.0), (-0.5, -0.5, 0.0), (-0.5, 0.5, 0.0)]
    );
}

#[test]
fn quad_mesh_describes_exactly_two_distinct_triangles() {
    let m = quad_mesh();
    assert_eq!(m.indices.len() / 3, 2);
    let t0 = triangle(&m, 0);
    let t1 = triangle(&m, 1);
    assert_eq!(t0, (0, 1, 3));
    assert_eq!(t1, (1, 2, 3));
    assert!(!same_triangle(t0, t1), "the quad's two triangles must not be duplicates");
    assert!(same_triangle(t0, (3, 0, 1)), "order does not distinguish triangles");
}

#[test]
fn quad_triangles_cover_the_quad_without_degeneracy() {
    let m = quad_mesh();
    let (a0, b0, c0) = triangle(&m, 0);
    let (a1, b1, c1) = triangle(&m, 1);
    let area0 = triangle_double_area(
        &m.vertices[a0 as usize],
        &m.vertices[b0 as usize],
        &m.vertices[c0 as usize],
    );
    let area1 = triangle_double_area(
        &m.vertices[a1 as usize],
        &m.vertices[b1 as usize],
        &m.vertices[c1 as usize],
    );
    assert_ne!(area0, 0, "a triangle of the cover must not be degenerate");
    assert_ne!(area1, 0, "a triangle of the cover must not be degenerate");
    // The quad spans 2 by 2 doubled units, so its doubled area is 8;
    // the two triangles' doubled areas must account for all of it.
    assert_eq!(area0.abs() + area1.abs(), 8);
    // Both triangles wind the same way, so they do not overlap-and-cancel.
    assert_eq!(area0.signum(), area1.signum());
}

#[test]
fn quad_triangles_touch_every_corner() {
    let m = quad_mesh();
    let t0 = triangle(&m, 0);
    let t1 = triangle(&m, 1);
    let mut touched = [false; 4];
    for i in [t0.0, t0.1, t0.2, t1.0, t1.1, t1.2] {
        touched[i as usize] = true;
    }
    assert_eq!(touched, [true; 4]);
}

#[test]
fn index_range_check_accepts_exactly_in_range_lists() {
    assert!(indices_in_range(&vec![0, 1, 3], 4));
    assert!(indices_in_range(&Vec::new(), 0));
    assert!(!indices_in_range(&vec![0, 4, 1], 4));
    assert!(!indices_in_range(&vec![0], 0));
}

#[test]
fn mesh_check_rejects_broken_meshes() {
    let partial_triangle = Mesh { vertices: quad_vertices(), indices: vec![0, 1] };
    assert!(!check_mesh(&partial_triangle));
    let dangling_index = Mesh { vertices: quad_vertices(), indices: vec![0, 1, 4] };
    assert!(!check_mesh(&dangling_index));
}

#[test]
fn buffer_byte_sizes_match_the_driver_layout() {
    assert_eq!(vertex_buffer_bytes(4), 4 * 3 * std::mem::size_of::<f32>());
    assert_eq!(index_buffer_bytes(6), 6 * std::mem::size_of::<u32>());
}

#[test]
fn flattening_interleaves_components_in_order() {
    let flat = flatten_positions(&quad_vertices());
    assert_eq!(flat, vec![1, 1, 0, 1, -1, 0, -1, -1, 0, -1, 1, 0]);
    assert_eq!(flat.len(), 3 * quad_vertices().len());
    assert!(flatten_positions(&Vec::new()).is_empty());
}

#[test]
fn quad_index_list_is_the_fixed_one() {
    assert_eq!(quad_indices(), vec![0, 1, 3, 1, 2, 3]);
}
