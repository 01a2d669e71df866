//! The fixed rainbow cube: a unit cube with a cycling corner palette,
//! twelve triangles wound consistently. This is a constant dataset, not a
//! generated one, so it is stated and returned as a literal table.

use vstd::prelude::*;

use crate::geometry::indices_in_bounds;

verus! {

/// One cube corner: an exact position (each coordinate `-1` or `1`) and an
/// exact color (each channel `0` or `1`).
pub struct CubeVertex {
    pub x: i8,
    pub y: i8,
    pub z: i8,
    pub r: u8,
    pub g: u8,
    pub b: u8,
}

/// The cube's eight corners, in registration order.
pub open spec fn cube_vertices() -> Seq<CubeVertex> {
    seq![
        CubeVertex { x: -1i8, y: -1i8, z: -1i8, r: 0u8, g: 1u8, b: 1u8 },
        CubeVertex { x: 1i8, y: -1i8, z: -1i8, r: 1u8, g: 0u8, b: 1u8 },
        CubeVertex { x: 1i8, y: 1i8, z: -1i8, r: 1u8, g: 1u8, b: 0u8 },
        CubeVertex { x: -1i8, y: 1i8, z: -1i8, r: 0u8, g: 1u8, b: 1u8 },
        CubeVertex { x: -1i8, y: -1i8, z: 1i8, r: 1u8, g: 0u8, b: 1u8 },
        CubeVertex { x: 1i8, y: -1i8, z: 1i8, r: 1u8, g: 1u8, b: 0u8 },
        CubeVertex { x: 1i8, y: 1i8, z: 1i8, r: 0u8, g: 1u8, b: 1u8 },
        CubeVertex { x: -1i8, y: 1i8, z: 1i8, r: 1u8, g: 0u8, b: 1u8 },
    ]
}

/// The cube's thirty-six triangle-list indices.
pub open spec fn cube_indices() -> Seq<u16> {
    seq![
        3u16, 1, 0, 2, 1, 3, 2, 5, 1, 6, 5, 2, 6, 4, 5, 7, 4, 6, 7, 0, 4, 3, 0, 7, 7, 2, 3, 6, 2,
        7, 0, 5, 4, 1, 5, 0,
    ]
}

/// Return the fixed cube dataset: exactly the eight corners and thirty-six
/// indices above, and every index refers to one of the corners.
pub fn rainbow_cube() -> (r: (Vec<CubeVertex>, Vec<u16>))
    ensures
        r.0@ == cube_vertices(),
        r.1@ == cube_indices(),
        indices_in_bounds(r.0@, r.1@),
{
    let vertices: Vec<CubeVertex> = vec![
        CubeVertex { x: -1, y: -1, z: -1, r: 0, g: 1, b: 1 },
        CubeVertex { x: 1, y: -1, z: -1, r: 1, g: 0, b: 1 },
        CubeVertex { x: 1, y: 1, z: -1, r: 1, g: 1, b: 0 },
        CubeVertex { x: -1, y: 1, z: -1, r: 0, g: 1, b: 1 },
        CubeVertex { x: -1, y: -1, z: 1, r: 1, g: 0, b: 1 },
        CubeVertex { x: 1, y: -1, z: 1, r: 1, g: 1, b: 0 },
        CubeVertex { x: 1, y: 1, z: 1, r: 0, g: 1, b: 1 },
        CubeVertex { x: -1, y: 1, z: 1, r: 1, g: 0, b: 1 },
    ];
    let indices: Vec<u16> = vec![
        3, 1, 0, 2, 1, 3, 2, 5, 1, 6, 5, 2, 6, 4, 5, 7, 4, 6, 7, 0, 4, 3, 0, 7, 7, 2, 3, 6, 2, 7,
        0, 5, 4, 1, 5, 0,
    ];
    proof {
        assert(vertices@ =~= cube_vertices());
        assert(indices@ =~= cube_indices());
    }
    (vertices, indices)
}

} // verus!
