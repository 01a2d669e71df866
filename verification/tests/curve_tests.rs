use paperfold::curve::{generate, CurveVertex};

use std::f32::consts::{FRAC_1_SQRT_2, SQRT_2};

/// The real 3D position a curve vertex stands for, as the renderer computes
/// it: the plane is embedded at height zero, with the exact vertical
/// numerator scaled by `1/sqrt(2)`.
fn position(v: &CurveVertex<[f32; 3]>) -> [f32; 3] {
    [v.x as f32, 0.0, v.y_num as f32 * FRAC_1_SQRT_2]
}

#[test]
fn depth_zero_is_empty() {
    let (vertices, indices) = generate(0, [0.0f32, 0.3, 1.0]);
    assert_eq!(vertices.len(), 0);
    assert_eq!(indices.len(), 0);
}

#[test]
fn depth_one_scenario() {
    let (vertices, indices) = generate(1, [0.0f32, 0.3, 1.0]);
    assert_eq!(vertices.len(), 2);
    assert_eq!(indices, vec![0u16, 1]);
    // Exact model values: x becomes 1, the vertical step becomes -2 units.
    assert_eq!((vertices[0].x, vertices[0].y_num), (1, -2));
    assert_eq!((vertices[1].x, vertices[1].y_num), (1, 2));
    // As rendered: (1.0, -sqrt(2)) then (1.0, sqrt(2)).
    assert_eq!(position(&vertices[0]), [1.0, 0.0, -SQRT_2]);
    assert_eq!(position(&vertices[1]), [1.0, 0.0, SQRT_2]);
}

#[test]
fn depth_two_scenario() {
    let (vertices, indices) = generate(2, [0.0f32, 0.3, 1.0]);
    assert_eq!(vertices.len(), 4);
    assert_eq!(indices, vec![0u16, 1, 2, 3]);
    // The first step's output is unchanged.
    assert_eq!((vertices[0].x, vertices[0].y_num), (1, -2));
    assert_eq!((vertices[1].x, vertices[1].y_num), (1, 2));
    // Second step, cycle now true: y becomes -sqrt(2), horiz becomes -2,
    // emitting (-1, -sqrt(2)) then (3, -sqrt(2)).
    assert_eq!((vertices[2].x, vertices[2].y_num), (-1, -2));
    assert_eq!((vertices[3].x, vertices[3].y_num), (3, -2));
    assert_eq!(position(&vertices[2]), [-1.0, 0.0, -SQRT_2]);
    assert_eq!(position(&vertices[3]), [3.0, 0.0, -SQRT_2]);
}

#[test]
fn counts_and_colors_all_depths() {
    let color = [0.25f32, 0.5, 0.75];
    for depth in 0..=60usize {
        let (vertices, indices) = generate(depth, color);
        assert_eq!(vertices.len(), 2 * depth);
        assert_eq!(indices.len(), 2 * depth);
        for v in &vertices {
            assert_eq!(v.color, color);
        }
    }
}

#[test]
fn indices_are_ascending_identity() {
    let (vertices, indices) = generate(50, [0.0f32, 0.3, 1.0]);
    for (i, &ix) in indices.iter().enumerate() {
        assert_eq!(ix, i as u16);
        assert!((ix as usize) < vertices.len());
    }
    for w in indices.windows(2) {
        assert!(w[0] < w[1]);
    }
}

#[test]
fn deterministic_across_calls() {
    let color = [0.0f32, 0.3, 1.0];
    let (va, ia) = generate(50, color);
    let (vb, ib) = generate(50, color);
    assert_eq!(ia, ib);
    assert_eq!(va.len(), vb.len());
    for (a, b) in va.iter().zip(vb.iter()) {
        assert_eq!((a.x, a.y_num), (b.x, b.y_num));
        assert_eq!(a.color.map(f32::to_bits), b.color.map(f32::to_bits));
        assert_eq!(position(a).map(f32::to_bits), position(b).map(f32::to_bits));
    }
}

#[test]
fn color_is_copied_through_any_type() {
    let (vertices, _) = generate(3, 7u8);
    assert_eq!(vertices.len(), 6);
    for v in &vertices {
        assert_eq!(v.color, 7u8);
    }
}
