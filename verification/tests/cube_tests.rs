use paperfold::cube::rainbow_cube;

#[test]
fn cube_has_eight_corners_and_twelve_triangles() {
    let (vertices, indices) = rainbow_cube();
    assert_eq!(vertices.len(), 8);
    assert_eq!(indices.len(), 36);
}

#[test]
fn cube_matches_fixed_table() {
    let expected: [([f32; 3], [f32; 3]); 8] = [
        ([-1.0, -1.0, -1.0], [0.0, 1.0, 1.0]),
        ([1.0, -1.0, -1.0], [1.0, 0.0, 1.0]),
        ([1.0, 1.0, -1.0], [1.0, 1.0, 0.0]),
        ([-1.0, 1.0, -1.0], [0.0, 1.0, 1.0]),
        ([-1.0, -1.0, 1.0], [1.0, 0.0, 1.0]),
        ([1.0, -1.0, 1.0], [1.0, 1.0, 0.0]),
        ([1.0, 1.0, 1.0], [0.0, 1.0, 1.0]),
        ([-1.0, 1.0, 1.0], [1.0, 0.0, 1.0]),
    ];
    let (vertices, indices) = rainbow_cube();
    for (v, (pos, col)) in vertices.iter().zip(expected.iter()) {
        assert_eq!([v.x as f32, v.y as f32, v.z as f32], *pos);
        assert_eq!([v.r as f32, v.g as f32, v.b as f32], *col);
    }
    let expected_indices: Vec<u16> = vec![
        3, 1, 0, 2, 1, 3, 2, 5, 1, 6, 5, 2, 6, 4, 5, 7, 4, 6, 7, 0, 4, 3, 0, 7, 7, 2, 3, 6, 2, 7,
        0, 5, 4, 1, 5, 0,
    ];
    assert_eq!(indices, expected_indices);
}

#[test]
fn cube_indices_stay_in_bounds() {
    let (vertices, indices) = rainbow_cube();
    for &ix in &indices {
        assert!((ix as usize) < vertices.len());
    }
}
