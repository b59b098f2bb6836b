//! Icosahedron face coordinates: a face number paired with a lattice
//! coordinate in that face's local frame, the static face-adjacency tables,
//! and the face-crossing ("overage") resolution they drive.

use vstd::prelude::*;

verus! {

use crate::coordijk::CoordIJK;
use crate::coordijk::canon;
use crate::coordijk::down_ap3;
use crate::coordijk::down_ap3r;
use crate::coordijk::down_ap7r;
use crate::coordijk::ijk_add;
use crate::coordijk::ijk_sub;
use crate::coordijk::in_mag;
use crate::coordijk::nonneg;
use crate::coordijk::normalized;
use crate::coordijk::rot60cw;
use crate::coordijk::rot60ccw_n;
use crate::coordijk::lemma_rot_canon_bound;
use crate::coordijk::lemma_rot_n_bound;
use crate::error::H3ErrorCode;

/// Marker for the hexagonal cell shape.
pub struct Hexagon;

/// Marker for the pentagonal cell shape.
pub struct Pentagon;

/// Index of the IJ quadrant in the face neighbor table.
pub const IJ: i32 = 1;

/// Index of the KI quadrant in the face neighbor table.
pub const KI: i32 = 2;

/// Index of the JK quadrant in the face neighbor table.
pub const JK: i32 = 3;

/// Marker for a face that no cell maps to.
pub const INVALID_FACE: i32 = -1;

/// A cell's location as an icosahedron face number and a coordinate in that
/// face's local frame.
#[derive(Clone, Copy, Debug, PartialEq, Eq, Structural)]
pub struct FaceIJK {
    pub face: i32,
    pub coord: CoordIJK,
}

impl View for FaceIJK {
    type V = (int, (int, int, int));

    open spec fn view(&self) -> (int, (int, int, int)) {
        (self.face as int, self.coord@)
    }
}

impl FaceIJK {
    /// A face coordinate from its parts.
    pub fn new(face: i32, coord: CoordIJK) -> (r: Self)
        ensures
            r.face == face,
            r.coord == coord,
    {
        Self { face, coord }
    }
}

/// How to re-express a coordinate in an adjacent face's frame: the adjacent
/// face, a translation, and a count of 60-degree rotations.
#[derive(Clone, Copy, Debug, PartialEq, Eq, Structural)]
pub struct FaceOrientIJK {
    pub face: i32,
    pub translate: CoordIJK,
    pub ccw_rot60: i32,
}

/// What a face-extent check found.
#[derive(Clone, Copy, Debug, PartialEq, Eq, Structural)]
pub enum Overage {
    /// No overage: the coordinate lies on its original face.
    NoOverage,
    /// The coordinate lies exactly on a face edge (substrate grids only).
    FaceEdge,
    /// The coordinate lies in a new face's interior.
    NewFace,
}

/// The icosahedron edge length in grid units at each Class II resolution;
/// a coordinate whose component sum exceeds this lies off its face. The odd
/// slots are unused (-1): overage is only ever resolved on a Class II grid.
#[verifier::opaque]
pub open spec fn spec_max_dim(res: int) -> int {
    if res == 0 {
        2
    } else if res == 1 {
        -1
    } else if res == 2 {
        14
    } else if res == 3 {
        -1
    } else if res == 4 {
        98
    } else if res == 5 {
        -1
    } else if res == 6 {
        686
    } else if res == 7 {
        -1
    } else if res == 8 {
        4802
    } else if res == 9 {
        -1
    } else if res == 10 {
        33614
    } else if res == 11 {
        -1
    } else if res == 12 {
        235298
    } else if res == 13 {
        -1
    } else if res == 14 {
        1647086
    } else if res == 15 {
        -1
    } else {
        11529602
    }
}

/// The number of grid units one resolution-0 unit spans at each Class II
/// resolution. The odd slots are unused (-1).
#[verifier::opaque]
pub open spec fn spec_unit_scale(res: int) -> int {
    if res == 0 {
        1
    } else if res == 1 {
        -1
    } else if res == 2 {
        7
    } else if res == 3 {
        -1
    } else if res == 4 {
        49
    } else if res == 5 {
        -1
    } else if res == 6 {
        343
    } else if res == 7 {
        -1
    } else if res == 8 {
        2401
    } else if res == 9 {
        -1
    } else if res == 10 {
        16807
    } else if res == 11 {
        -1
    } else if res == 12 {
        117649
    } else if res == 13 {
        -1
    } else if res == 14 {
        823543
    } else if res == 15 {
        -1
    } else {
        5764801
    }
}

/// How to re-express a coordinate in the frame of the neighboring face in
/// the given quadrant (0 the face itself, then the IJ, KI and JK quadrants):
/// target face, translation in resolution-0 units, and count of 60-degree
/// counter-clockwise rotations.
#[verifier::opaque]
pub open spec fn spec_face_neighbor(face: int, dir: int) -> (int, (int, int, int), int) {
    if face == 0 {
        if dir == 0 { (0, (0, 0, 0), 0) } else if dir == 1 { (4, (2, 0, 2), 1) } else if dir == 2 { (1, (2, 2, 0), 5) } else { (5, (0, 2, 2), 3) }
    } else if face == 1 {
        if dir == 0 { (1, (0, 0, 0), 0) } else if dir == 1 { (0, (2, 0, 2), 1) } else if dir == 2 { (2, (2, 2, 0), 5) } else { (6, (0, 2, 2), 3) }
    } else if face == 2 {
        if dir == 0 { (2, (0, 0, 0), 0) } else if dir == 1 { (1, (2, 0, 2), 1) } else if dir == 2 { (3, (2, 2, 0), 5) } else { (7, (0, 2, 2), 3) }
    } else if face == 3 {
        if dir == 0 { (3, (0, 0, 0), 0) } else if dir == 1 { (2, (2, 0, 2), 1) } else if dir == 2 { (4, (2, 2, 0), 5) } else { (8, (0, 2, 2), 3) }
    } else if face == 4 {
        if dir == 0 { (4, (0, 0, 0), 0) } else if dir == 1 { (3, (2, 0, 2), 1) } else if dir == 2 { (0, (2, 2, 0), 5) } else { (9, (0, 2, 2), 3) }
    } else if face == 5 {
        if dir == 0 { (5, (0, 0, 0), 0) } else if dir == 1 { (10, (2, 2, 0), 3) } else if dir == 2 { (14, (2, 0, 2), 3) } else { (0, (0, 2, 2), 3) }
    } else if face == 6 {
        if dir == 0 { (6, (0, 0, 0), 0) } else if dir == 1 { (11, (2, 2, 0), 3) } else if dir == 2 { (10, (2, 0, 2), 3) } else { (1, (0, 2, 2), 3) }
    } else if face == 7 {
        if dir == 0 { (7, (0, 0, 0), 0) } else if dir == 1 { (12, (2, 2, 0), 3) } else if dir == 2 { (11, (2, 0, 2), 3) } else { (2, (0, 2, 2), 3) }
    } else if face == 8 {
        if dir == 0 { (8, (0, 0, 0), 0) } else if dir == 1 { (13, (2, 2, 0), 3) } else if dir == 2 { (12, (2, 0, 2), 3) } else { (3, (0, 2, 2), 3) }
    } else if face == 9 {
        if dir == 0 { (9, (0, 0, 0), 0) } else if dir == 1 { (14, (2, 2, 0), 3) } else if dir == 2 { (13, (2, 0, 2), 3) } else { (4, (0, 2, 2), 3) }
    } else if face == 10 {
        if dir == 0 { (10, (0, 0, 0), 0) } else if dir == 1 { (5, (2, 2, 0), 3) } else if dir == 2 { (6, (2, 0, 2), 3) } else { (15, (0, 2, 2), 3) }
    } else if face == 11 {
        if dir == 0 { (11, (0, 0, 0), 0) } else if dir == 1 { (6, (2, 2, 0), 3) } else if dir == 2 { (7, (2, 0, 2), 3) } else { (16, (0, 2, 2), 3) }
    } else if face == 12 {
        if dir == 0 { (12, (0, 0, 0), 0) } else if dir == 1 { (7, (2, 2, 0), 3) } else if dir == 2 { (8, (2, 0, 2), 3) } else { (17, (0, 2, 2), 3) }
    } else if face == 13 {
        if dir == 0 { (13, (0, 0, 0), 0) } else if dir == 1 { (8, (2, 2, 0), 3) } else if dir == 2 { (9, (2, 0, 2), 3) } else { (18, (0, 2, 2), 3) }
    } else if face == 14 {
        if dir == 0 { (14, (0, 0, 0), 0) } else if dir == 1 { (9, (2, 2, 0), 3) } else if dir == 2 { (5, (2, 0, 2), 3) } else { (19, (0, 2, 2), 3) }
    } else if face == 15 {
        if dir == 0 { (15, (0, 0, 0), 0) } else if dir == 1 { (16, (2, 0, 2), 1) } else if dir == 2 { (19, (2, 2, 0), 5) } else { (10, (0, 2, 2), 3) }
    } else if face == 16 {
        if dir == 0 { (16, (0, 0, 0), 0) } else if dir == 1 { (17, (2, 0, 2), 1) } else if dir == 2 { (15, (2, 2, 0), 5) } else { (11, (0, 2, 2), 3) }
    } else if face == 17 {
        if dir == 0 { (17, (0, 0, 0), 0) } else if dir == 1 { (18, (2, 0, 2), 1) } else if dir == 2 { (16, (2, 2, 0), 5) } else { (12, (0, 2, 2), 3) }
    } else if face == 18 {
        if dir == 0 { (18, (0, 0, 0), 0) } else if dir == 1 { (19, (2, 0, 2), 1) } else if dir == 2 { (17, (2, 2, 0), 5) } else { (13, (0, 2, 2), 3) }
    } else {
        if dir == 0 { (19, (0, 0, 0), 0) } else if dir == 1 { (15, (2, 0, 2), 1) } else if dir == 2 { (18, (2, 2, 0), 5) } else { (14, (0, 2, 2), 3) }
    }
}

/// The quadrant direction from one face to an adjacent face (1 = IJ,
/// 2 = KI, 3 = JK), 0 for the face itself, and -1 for faces that are not
/// adjacent.
#[verifier::opaque]
pub open spec fn spec_adjacent_face_dir(a: int, b: int) -> int {
    if a == 0 {
        if b == 0 { 0 } else if b == 1 { 2 } else if b == 4 { 1 } else if b == 5 { 3 } else {
            -1
        }
    } else if a == 1 {
        if b == 0 { 1 } else if b == 1 { 0 } else if b == 2 { 2 } else if b == 6 { 3 } else {
            -1
        }
    } else if a == 2 {
        if b == 1 { 1 } else if b == 2 { 0 } else if b == 3 { 2 } else if b == 7 { 3 } else {
            -1
        }
    } else if a == 3 {
        if b == 2 { 1 } else if b == 3 { 0 } else if b == 4 { 2 } else if b == 8 { 3 } else {
            -1
        }
    } else if a == 4 {
        if b == 0 { 2 } else if b == 3 { 1 } else if b == 4 { 0 } else if b == 9 { 3 } else {
            -1
        }
    } else if a == 5 {
        if b == 0 { 3 } else if b == 5 { 0 } else if b == 10 { 1 } else if b == 14 { 2 } else {
            -1
        }
    } else if a == 6 {
        if b == 1 { 3 } else if b == 6 { 0 } else if b == 10 { 2 } else if b == 11 { 1 } else {
            -1
        }
    } else if a == 7 {
        if b == 2 { 3 } else if b == 7 { 0 } else if b == 11 { 2 } else if b == 12 { 1 } else {
            -1
        }
    } else if a == 8 {
        if b == 3 { 3 } else if b == 8 { 0 } else if b == 12 { 2 } else if b == 13 { 1 } else {
            -1
        }
    } else if a == 9 {
        if b == 4 { 3 } else if b == 9 { 0 } else if b == 13 { 2 } else if b == 14 { 1 } else {
            -1
        }
    } else if a == 10 {
        if b == 5 { 1 } else if b == 6 { 2 } else if b == 10 { 0 } else if b == 15 { 3 } else {
            -1
        }
    } else if a == 11 {
        if b == 6 { 1 } else if b == 7 { 2 } else if b == 11 { 0 } else if b == 16 { 3 } else {
            -1
        }
    } else if a == 12 {
        if b == 7 { 1 } else if b == 8 { 2 } else if b == 12 { 0 } else if b == 17 { 3 } else {
            -1
        }
    } else if a == 13 {
        if b == 8 { 1 } else if b == 9 { 2 } else if b == 13 { 0 } else if b == 18 { 3 } else {
            -1
        }
    } else if a == 14 {
        if b == 5 { 2 } else if b == 9 { 1 } else if b == 14 { 0 } else if b == 19 { 3 } else {
            -1
        }
    } else if a == 15 {
        if b == 10 { 3 } else if b == 15 { 0 } else if b == 16 { 1 } else if b == 19 { 2 } else {
            -1
        }
    } else if a == 16 {
        if b == 11 { 3 } else if b == 15 { 2 } else if b == 16 { 0 } else if b == 17 { 1 } else {
            -1
        }
    } else if a == 17 {
        if b == 12 { 3 } else if b == 16 { 2 } else if b == 17 { 0 } else if b == 18 { 1 } else {
            -1
        }
    } else if a == 18 {
        if b == 13 { 3 } else if b == 17 { 2 } else if b == 18 { 0 } else if b == 19 { 1 } else {
            -1
        }
    } else {
        if b == 14 { 3 } else if b == 15 { 1 } else if b == 18 { 2 } else if b == 19 { 0 } else {
            -1
        }
    }
}

/// The maximum coordinate extent of a face at a Class II resolution.
pub fn max_dim_by_cii_res(res: usize) -> (r: i32)
    requires
        res <= 16,
    ensures
        r as int == spec_max_dim(res as int),
        res % 2 == 0 ==> 2 <= r <= 11529602,
{
    proof {
        reveal(spec_max_dim);
    }
    match res {
        0 => 2,
        1 => -1,
        2 => 14,
        3 => -1,
        4 => 98,
        5 => -1,
        6 => 686,
        7 => -1,
        8 => 4802,
        9 => -1,
        10 => 33614,
        11 => -1,
        12 => 235298,
        13 => -1,
        14 => 1647086,
        15 => -1,
        _ => 11529602,
    }
}

/// The per-resolution unit scale of a face at a Class II resolution.
pub fn unit_scale_by_cii_res(res: usize) -> (r: i32)
    requires
        res <= 16,
    ensures
        r as int == spec_unit_scale(res as int),
        res % 2 == 0 ==> 1 <= r <= 5764801,
{
    proof {
        reveal(spec_unit_scale);
    }
    match res {
        0 => 1,
        1 => -1,
        2 => 7,
        3 => -1,
        4 => 49,
        5 => -1,
        6 => 343,
        7 => -1,
        8 => 2401,
        9 => -1,
        10 => 16807,
        11 => -1,
        12 => 117649,
        13 => -1,
        14 => 823543,
        15 => -1,
        _ => 5764801,
    }
}

/// The neighbor-frame record for a face and quadrant.
pub fn face_neighbors(face: usize, dir: usize) -> (r: FaceOrientIJK)
    requires
        face < 20,
        dir < 4,
    ensures
        ({
            let o = spec_face_neighbor(face as int, dir as int);
            &&& r.face as int == o.0
            &&& r.translate@ == o.1
            &&& r.ccw_rot60 as int == o.2
        }),
        0 <= r.face < 20,
        0 <= r.translate.i <= 2,
        0 <= r.translate.j <= 2,
        0 <= r.translate.k <= 2,
        0 <= r.ccw_rot60 <= 5,
{
    proof {
        reveal(spec_face_neighbor);
    }
    match (face, dir) {
        (0, 0) => FaceOrientIJK { face: 0, translate: CoordIJK { i: 0, j: 0, k: 0 }, ccw_rot60: 0 },
        (0, 1) => FaceOrientIJK { face: 4, translate: CoordIJK { i: 2, j: 0, k: 2 }, ccw_rot60: 1 },
        (0, 2) => FaceOrientIJK { face: 1, translate: CoordIJK { i: 2, j: 2, k: 0 }, ccw_rot60: 5 },
        (0, 3) => FaceOrientIJK { face: 5, translate: CoordIJK { i: 0, j: 2, k: 2 }, ccw_rot60: 3 },
        (1, 0) => FaceOrientIJK { face: 1, translate: CoordIJK { i: 0, j: 0, k: 0 }, ccw_rot60: 0 },
        (1, 1) => FaceOrientIJK { face: 0, translate: CoordIJK { i: 2, j: 0, k: 2 }, ccw_rot60: 1 },
        (1, 2) => FaceOrientIJK { face: 2, translate: CoordIJK { i: 2, j: 2, k: 0 }, ccw_rot60: 5 },
        (1, 3) => FaceOrientIJK { face: 6, translate: CoordIJK { i: 0, j: 2, k: 2 }, ccw_rot60: 3 },
        (2, 0) => FaceOrientIJK { face: 2, translate: CoordIJK { i: 0, j: 0, k: 0 }, ccw_rot60: 0 },
        (2, 1) => FaceOrientIJK { face: 1, translate: CoordIJK { i: 2, j: 0, k: 2 }, ccw_rot60: 1 },
        (2, 2) => FaceOrientIJK { face: 3, translate: CoordIJK { i: 2, j: 2, k: 0 }, ccw_rot60: 5 },
        (2, 3) => FaceOrientIJK { face: 7, translate: CoordIJK { i: 0, j: 2, k: 2 }, ccw_rot60: 3 },
        (3, 0) => FaceOrientIJK { face: 3, translate: CoordIJK { i: 0, j: 0, k: 0 }, ccw_rot60: 0 },
        (3, 1) => FaceOrientIJK { face: 2, translate: CoordIJK { i: 2, j: 0, k: 2 }, ccw_rot60: 1 },
        (3, 2) => FaceOrientIJK { face: 4, translate: CoordIJK { i: 2, j: 2, k: 0 }, ccw_rot60: 5 },
        (3, 3) => FaceOrientIJK { face: 8, translate: CoordIJK { i: 0, j: 2, k: 2 }, ccw_rot60: 3 },
        (4, 0) => FaceOrientIJK { face: 4, translate: CoordIJK { i: 0, j: 0, k: 0 }, ccw_rot60: 0 },
        (4, 1) => FaceOrientIJK { face: 3, translate: CoordIJK { i: 2, j: 0, k: 2 }, ccw_rot60: 1 },
        (4, 2) => FaceOrientIJK { face: 0, translate: CoordIJK { i: 2, j: 2, k: 0 }, ccw_rot60: 5 },
        (4, 3) => FaceOrientIJK { face: 9, translate: CoordIJK { i: 0, j: 2, k: 2 }, ccw_rot60: 3 },
        (5, 0) => FaceOrientIJK { face: 5, translate: CoordIJK { i: 0, j: 0, k: 0 }, ccw_rot60: 0 },
        (5, 1) => FaceOrientIJK { face: 10, translate: CoordIJK { i: 2, j: 2, k: 0 }, ccw_rot60: 3 },
        (5, 2) => FaceOrientIJK { face: 14, translate: CoordIJK { i: 2, j: 0, k: 2 }, ccw_rot60: 3 },
        (5, 3) => FaceOrientIJK { face: 0, translate: CoordIJK { i: 0, j: 2, k: 2 }, ccw_rot60: 3 },
        (6, 0) => FaceOrientIJK { face: 6, translate: CoordIJK { i: 0, j: 0, k: 0 }, ccw_rot60: 0 },
        (6, 1) => FaceOrientIJK { face: 11, translate: CoordIJK { i: 2, j: 2, k: 0 }, ccw_rot60: 3 },
        (6, 2) => FaceOrientIJK { face: 10, translate: CoordIJK { i: 2, j: 0, k: 2 }, ccw_rot60: 3 },
        (6, 3) => FaceOrientIJK { face: 1, translate: CoordIJK { i: 0, j: 2, k: 2 }, ccw_rot60: 3 },
        (7, 0) => FaceOrientIJK { face: 7, translate: CoordIJK { i: 0, j: 0, k: 0 }, ccw_rot60: 0 },
        (7, 1) => FaceOrientIJK { face: 12, translate: CoordIJK { i: 2, j: 2, k: 0 }, ccw_rot60: 3 },
        (7, 2) => FaceOrientIJK { face: 11, translate: CoordIJK { i: 2, j: 0, k: 2 }, ccw_rot60: 3 },
        (7, 3) => FaceOrientIJK { face: 2, translate: CoordIJK { i: 0, j: 2, k: 2 }, ccw_rot60: 3 },
        (8, 0) => FaceOrientIJK { face: 8, translate: CoordIJK { i: 0, j: 0, k: 0 }, ccw_rot60: 0 },
        (8, 1) => FaceOrientIJK { face: 13, translate: CoordIJK { i: 2, j: 2, k: 0 }, ccw_rot60: 3 },
        (8, 2) => FaceOrientIJK { face: 12, translate: CoordIJK { i: 2, j: 0, k: 2 }, ccw_rot60: 3 },
        (8, 3) => FaceOrientIJK { face: 3, translate: CoordIJK { i: 0, j: 2, k: 2 }, ccw_rot60: 3 },
        (9, 0) => FaceOrientIJK { face: 9, translate: CoordIJK { i: 0, j: 0, k: 0 }, ccw_rot60: 0 },
        (9, 1) => FaceOrientIJK { face: 14, translate: CoordIJK { i: 2, j: 2, k: 0 }, ccw_rot60: 3 },
        (9, 2) => FaceOrientIJK { face: 13, translate: CoordIJK { i: 2, j: 0, k: 2 }, ccw_rot60: 3 },
        (9, 3) => FaceOrientIJK { face: 4, translate: CoordIJK { i: 0, j: 2, k: 2 }, ccw_rot60: 3 },
        (10, 0) => FaceOrientIJK { face: 10, translate: CoordIJK { i: 0, j: 0, k: 0 }, ccw_rot60: 0 },
        (10, 1) => FaceOrientIJK { face: 5, translate: CoordIJK { i: 2, j: 2, k: 0 }, ccw_rot60: 3 },
        (10, 2) => FaceOrientIJK { face: 6, translate: CoordIJK { i: 2, j: 0, k: 2 }, ccw_rot60: 3 },
        (10, 3) => FaceOrientIJK { face: 15, translate: CoordIJK { i: 0, j: 2, k: 2 }, ccw_rot60: 3 },
        (11, 0) => FaceOrientIJK { face: 11, translate: CoordIJK { i: 0, j: 0, k: 0 }, ccw_rot60: 0 },
        (11, 1) => FaceOrientIJK { face: 6, translate: CoordIJK { i: 2, j: 2, k: 0 }, ccw_rot60: 3 },
        (11, 2) => FaceOrientIJK { face: 7, translate: CoordIJK { i: 2, j: 0, k: 2 }, ccw_rot60: 3 },
        (11, 3) => FaceOrientIJK { face: 16, translate: CoordIJK { i: 0, j: 2, k: 2 }, ccw_rot60: 3 },
        (12, 0) => FaceOrientIJK { face: 12, translate: CoordIJK { i: 0, j: 0, k: 0 }, ccw_rot60: 0 },
        (12, 1) => FaceOrientIJK { face: 7, translate: CoordIJK { i: 2, j: 2, k: 0 }, ccw_rot60: 3 },
        (12, 2) => FaceOrientIJK { face: 8, translate: CoordIJK { i: 2, j: 0, k: 2 }, ccw_rot60: 3 },
        (12, 3) => FaceOrientIJK { face: 17, translate: CoordIJK { i: 0, j: 2, k: 2 }, ccw_rot60: 3 },
        (13, 0) => FaceOrientIJK { face: 13, translate: CoordIJK { i: 0, j: 0, k: 0 }, ccw_rot60: 0 },
        (13, 1) => FaceOrientIJK { face: 8, translate: CoordIJK { i: 2, j: 2, k: 0 }, ccw_rot60: 3 },
        (13, 2) => FaceOrientIJK { face: 9, translate: CoordIJK { i: 2, j: 0, k: 2 }, ccw_rot60: 3 },
        (13, 3) => FaceOrientIJK { face: 18, translate: CoordIJK { i: 0, j: 2, k: 2 }, ccw_rot60: 3 },
        (14, 0) => FaceOrientIJK { face: 14, translate: CoordIJK { i: 0, j: 0, k: 0 }, ccw_rot60: 0 },
        (14, 1) => FaceOrientIJK { face: 9, translate: CoordIJK { i: 2, j: 2, k: 0 }, ccw_rot60: 3 },
        (14, 2) => FaceOrientIJK { face: 5, translate: CoordIJK { i: 2, j: 0, k: 2 }, ccw_rot60: 3 },
        (14, 3) => FaceOrientIJK { face: 19, translate: CoordIJK { i: 0, j: 2, k: 2 }, ccw_rot60: 3 },
        (15, 0) => FaceOrientIJK { face: 15, translate: CoordIJK { i: 0, j: 0, k: 0 }, ccw_rot60: 0 },
        (15, 1) => FaceOrientIJK { face: 16, translate: CoordIJK { i: 2, j: 0, k: 2 }, ccw_rot60: 1 },
        (15, 2) => FaceOrientIJK { face: 19, translate: CoordIJK { i: 2, j: 2, k: 0 }, ccw_rot60: 5 },
        (15, 3) => FaceOrientIJK { face: 10, translate: CoordIJK { i: 0, j: 2, k: 2 }, ccw_rot60: 3 },
        (16, 0) => FaceOrientIJK { face: 16, translate: CoordIJK { i: 0, j: 0, k: 0 }, ccw_rot60: 0 },
        (16, 1) => FaceOrientIJK { face: 17, translate: CoordIJK { i: 2, j: 0, k: 2 }, ccw_rot60: 1 },
        (16, 2) => FaceOrientIJK { face: 15, translate: CoordIJK { i: 2, j: 2, k: 0 }, ccw_rot60: 5 },
        (16, 3) => FaceOrientIJK { face: 11, translate: CoordIJK { i: 0, j: 2, k: 2 }, ccw_rot60: 3 },
        (17, 0) => FaceOrientIJK { face: 17, translate: CoordIJK { i: 0, j: 0, k: 0 }, ccw_rot60: 0 },
        (17, 1) => FaceOrientIJK { face: 18, translate: CoordIJK { i: 2, j: 0, k: 2 }, ccw_rot60: 1 },
        (17, 2) => FaceOrientIJK { face: 16, translate: CoordIJK { i: 2, j: 2, k: 0 }, ccw_rot60: 5 },
        (17, 3) => FaceOrientIJK { face: 12, translate: CoordIJK { i: 0, j: 2, k: 2 }, ccw_rot60: 3 },
        (18, 0) => FaceOrientIJK { face: 18, translate: CoordIJK { i: 0, j: 0, k: 0 }, ccw_rot60: 0 },
        (18, 1) => FaceOrientIJK { face: 19, translate: CoordIJK { i: 2, j: 0, k: 2 }, ccw_rot60: 1 },
        (18, 2) => FaceOrientIJK { face: 17, translate: CoordIJK { i: 2, j: 2, k: 0 }, ccw_rot60: 5 },
        (18, 3) => FaceOrientIJK { face: 13, translate: CoordIJK { i: 0, j: 2, k: 2 }, ccw_rot60: 3 },
        (19, 0) => FaceOrientIJK { face: 19, translate: CoordIJK { i: 0, j: 0, k: 0 }, ccw_rot60: 0 },
        (19, 1) => FaceOrientIJK { face: 15, translate: CoordIJK { i: 2, j: 0, k: 2 }, ccw_rot60: 1 },
        (19, 2) => FaceOrientIJK { face: 18, translate: CoordIJK { i: 2, j: 2, k: 0 }, ccw_rot60: 5 },
        _ => FaceOrientIJK { face: 14, translate: CoordIJK { i: 0, j: 2, k: 2 }, ccw_rot60: 3 },
    }
}

/// The quadrant direction from one face to another, or -1 if not adjacent.
pub fn adjacent_face_dir(a: usize, b: usize) -> (r: i32)
    requires
        a < 20,
        b < 20,
    ensures
        r as int == spec_adjacent_face_dir(a as int, b as int),
        -1 <= r <= 3,
{
    proof {
        reveal(spec_adjacent_face_dir);
    }
    match a {
        0 => match b {
            0 => 0,
            1 => 2,
            4 => 1,
            5 => 3,
            _ => -1,
        },
        1 => match b {
            0 => 1,
            1 => 0,
            2 => 2,
            6 => 3,
            _ => -1,
        },
        2 => match b {
            1 => 1,
            2 => 0,
            3 => 2,
            7 => 3,
            _ => -1,
        },
        3 => match b {
            2 => 1,
            3 => 0,
            4 => 2,
            8 => 3,
            _ => -1,
        },
        4 => match b {
            0 => 2,
            3 => 1,
            4 => 0,
            9 => 3,
            _ => -1,
        },
        5 => match b {
            0 => 3,
            5 => 0,
            10 => 1,
            14 => 2,
            _ => -1,
        },
        6 => match b {
            1 => 3,
            6 => 0,
            10 => 2,
            11 => 1,
            _ => -1,
        },
        7 => match b {
            2 => 3,
            7 => 0,
            11 => 2,
            12 => 1,
            _ => -1,
        },
        8 => match b {
            3 => 3,
            8 => 0,
            12 => 2,
            13 => 1,
            _ => -1,
        },
        9 => match b {
            4 => 3,
            9 => 0,
            13 => 2,
            14 => 1,
            _ => -1,
        },
        10 => match b {
            5 => 1,
            6 => 2,
            10 => 0,
            15 => 3,
            _ => -1,
        },
        11 => match b {
            6 => 1,
            7 => 2,
            11 => 0,
            16 => 3,
            _ => -1,
        },
        12 => match b {
            7 => 1,
            8 => 2,
            12 => 0,
            17 => 3,
            _ => -1,
        },
        13 => match b {
            8 => 1,
            9 => 2,
            13 => 0,
            18 => 3,
            _ => -1,
        },
        14 => match b {
            5 => 2,
            9 => 1,
            14 => 0,
            19 => 3,
            _ => -1,
        },
        15 => match b {
            10 => 3,
            15 => 0,
            16 => 1,
            19 => 2,
            _ => -1,
        },
        16 => match b {
            11 => 3,
            15 => 2,
            16 => 0,
            17 => 1,
            _ => -1,
        },
        17 => match b {
            12 => 3,
            16 => 2,
            17 => 0,
            18 => 1,
            _ => -1,
        },
        18 => match b {
            13 => 3,
            17 => 2,
            18 => 0,
            19 => 1,
            _ => -1,
        },
        19 => match b {
            14 => 3,
            15 => 1,
            18 => 2,
            19 => 0,
            _ => -1,
        },
        _ => -1,
    }
}

/// Component-wise scaling of an ijk triple.
pub open spec fn ijk_scale(v: (int, int, int), f: int) -> (int, int, int) {
    (v.0 * f, v.1 * f, v.2 * f)
}

/// The full overage adjustment of a face coordinate at a Class II
/// resolution: if the component sum exceeds the face's extent, pick the
/// quadrant from which components are positive, apply the pentagon
/// missing-wedge rotation if asked to, then rotate and translate into the
/// neighboring face's frame. On a substrate grid a sum exactly at the
/// extent is reported as a face-edge overage and the coordinate is left
/// alone.
#[verifier::opaque]
pub open spec fn spec_adjust_overage(
    f: (int, (int, int, int)),
    res: int,
    pl4: bool,
    sub: bool,
) -> (int, (int, int, int), Overage) {
    let v = f.1;
    let max_dim = if sub {
        3 * spec_max_dim(res)
    } else {
        spec_max_dim(res)
    };
    let s = v.0 + v.1 + v.2;
    if sub && s == max_dim {
        (f.0, v, Overage::FaceEdge)
    } else if s > max_dim {
        let quad = if v.2 > 0 {
            if v.1 > 0 {
                3int
            } else {
                2int
            }
        } else {
            1int
        };
        let v1 = if quad == 2 && pl4 {
            ijk_add(rot60cw(ijk_sub(v, (max_dim, 0, 0))), (max_dim, 0, 0))
        } else {
            v
        };
        let orient = spec_face_neighbor(f.0, quad);
        let rotated = rot60ccw_n(v1, orient.2);
        let us = if sub {
            3 * spec_unit_scale(res)
        } else {
            spec_unit_scale(res)
        };
        let translated = canon(ijk_add(rotated, ijk_scale(orient.1, us)));
        let s2 = translated.0 + translated.1 + translated.2;
        if sub && s2 == max_dim {
            (orient.0, translated, Overage::FaceEdge)
        } else {
            (orient.0, translated, Overage::NewFace)
        }
    } else {
        (f.0, v, Overage::NoOverage)
    }
}

/// Iterated overage adjustment for a pentagon's substrate vertex: hop faces
/// until the coordinate settles, giving up (None) when the iteration bound
/// or the tractable coordinate range is exceeded.
#[verifier::opaque]
pub open spec fn spec_pent_vert_adjust(
    f: (int, (int, int, int)),
    res: int,
    fuel: int,
) -> Option<(int, (int, int, int), Overage)>
    decreases fuel,
{
    if fuel <= 0 {
        None
    } else {
        let a = spec_adjust_overage(f, res, false, true);
        if a.2 != Overage::NewFace {
            Some(a)
        } else if !in_mag(a.1, 400_000_000) {
            None
        } else {
            spec_pent_vert_adjust((a.0, a.1), res, fuel - 1)
        }
    }
}

/// The substrate-grid coordinate of a cell center: two aperture-3 steps,
/// plus one clockwise aperture-7 step to land Class III resolutions on a
/// Class II grid.
pub open spec fn spec_substrate_center(v: (int, int, int), class3: bool) -> (int, int, int) {
    if class3 {
        down_ap7r(down_ap3r(down_ap3(v)))
    } else {
        down_ap3r(down_ap3(v))
    }
}

/// The substrate offsets of an origin-centered cell's vertices, listed
/// counter-clockwise from the i axis. The Class II list comes from the
/// aperture sequence 3-3r; the Class III list from 3-3r-7r. A pentagon uses
/// the first five of the six.
pub open spec fn hex_vert_offset(class3: bool, n: int) -> (int, int, int) {
    if class3 {
        if n == 0 {
            (5, 4, 0)
        } else if n == 1 {
            (1, 5, 0)
        } else if n == 2 {
            (0, 5, 4)
        } else if n == 3 {
            (0, 1, 5)
        } else if n == 4 {
            (4, 0, 5)
        } else {
            (5, 0, 1)
        }
    } else {
        if n == 0 {
            (2, 1, 0)
        } else if n == 1 {
            (1, 2, 0)
        } else if n == 2 {
            (0, 2, 1)
        } else if n == 3 {
            (0, 1, 2)
        } else if n == 4 {
            (1, 0, 2)
        } else {
            (2, 0, 1)
        }
    }
}

/// The substrate offset of one cell vertex as a coordinate value.
fn vert_offset(class3: bool, n: usize) -> (r: CoordIJK)
    requires
        n < 6,
    ensures
        r@ == hex_vert_offset(class3, n as int),
{
    if class3 {
        match n {
            0 => CoordIJK { i: 5, j: 4, k: 0 },
            1 => CoordIJK { i: 1, j: 5, k: 0 },
            2 => CoordIJK { i: 0, j: 5, k: 4 },
            3 => CoordIJK { i: 0, j: 1, k: 5 },
            4 => CoordIJK { i: 4, j: 0, k: 5 },
            _ => CoordIJK { i: 5, j: 0, k: 1 },
        }
    } else {
        match n {
            0 => CoordIJK { i: 2, j: 1, k: 0 },
            1 => CoordIJK { i: 1, j: 2, k: 0 },
            2 => CoordIJK { i: 0, j: 2, k: 1 },
            3 => CoordIJK { i: 0, j: 1, k: 2 },
            4 => CoordIJK { i: 1, j: 0, k: 2 },
            _ => CoordIJK { i: 2, j: 0, k: 1 },
        }
    }
}

impl FaceIJK {
    /// Adjusts the coordinate onto the correct icosahedral face when it
    /// overflows its own face's extent at a Class II resolution, reporting
    /// what kind of overage was found. `pent_leading_4` asks for the
    /// pentagon missing-wedge correction in the KI quadrant; `substrate`
    /// triples the extent and reports coordinates exactly on a face edge.
    #[verifier::rlimit(60)]
    pub fn adjust_overage_cII(
        &mut self,
        resolution: usize,
        pent_leading_4: i32,
        substrate: i32,
    ) -> (r: Overage)
        requires
            resolution <= 16,
            resolution % 2 == 0,
            0 <= old(self).face < 20,
            nonneg(old(self).coord@),
            normalized(old(self).coord@),
            in_mag(old(self).coord@, 400_000_000),
            pent_leading_4 > 0 ==> in_mag(old(self).coord@, 50_000_000),
        ensures
            ({
                let a = spec_adjust_overage(
                    old(self)@,
                    resolution as int,
                    pent_leading_4 > 0,
                    substrate > 0,
                );
                &&& final(self).face as int == a.0
                &&& final(self).coord@ == a.1
                &&& r == a.2
            }),
            0 <= final(self).face < 20,
            nonneg(final(self).coord@),
            normalized(final(self).coord@),
            in_mag(final(self).coord@, 950_000_000),
            r == Overage::NoOverage ==> *final(self) == *old(self),
    {
        proof {
            reveal(spec_adjust_overage);
        }
        let max_dim_base = max_dim_by_cii_res(resolution);
        let max_dim: i32 = if substrate > 0 {
            max_dim_base * 3
        } else {
            max_dim_base
        };
        let s: i64 = self.coord.i as i64 + self.coord.j as i64 + self.coord.k as i64;
        if substrate > 0 && s == max_dim as i64 {
            return Overage::FaceEdge;
        }
        if s > max_dim as i64 {
            let quadrant: usize = if self.coord.k > 0 {
                if self.coord.j > 0 {
                    3
                } else {
                    2
                }
            } else {
                1
            };
            if quadrant == 2 && pent_leading_4 > 0 {
                // translate the origin to the pentagon center, rotate to
                // make up for the missing wedge, translate back
                let mut tmp = CoordIJK::new(self.coord.i - max_dim, self.coord.j, self.coord.k);
                tmp.rotate_60cw();
                self.coord = CoordIJK::new(tmp.i + max_dim, tmp.j, tmp.k);
            }
            let ghost v2: (int, int, int) = self.coord@;
            let orient = face_neighbors(self.face as usize, quadrant);
            self.face = orient.face;
            let rot = orient.ccw_rot60;
            let mut n: i32 = 0;
            while n < rot
                invariant
                    0 <= n <= rot,
                    rot <= 5,
                    self.face == orient.face,
                    0 <= self.face < 20,
                    self.coord@ == rot60ccw_n(v2, n as int),
                    nonneg(v2),
                    in_mag(v2, 450_000_000),
                    nonneg(self.coord@),
                    in_mag(self.coord@, 900_000_000),
                    n > 0 ==> normalized(self.coord@),
                decreases rot - n,
            {
                proof {
                    if n > 0 {
                        lemma_rot_canon_bound(self.coord@, 900_000_000);
                    }
                }
                self.coord.rotate_60ccw();
                n = n + 1;
            }
            let us_base = unit_scale_by_cii_res(resolution);
            let us: i32 = if substrate > 0 {
                us_base * 3
            } else {
                us_base
            };
            let mut trans = orient.translate;
            proof {
                assert(0 <= orient.translate.i as int * us as int <= 40_000_000)
                    by (nonlinear_arith)
                    requires
                        0 <= orient.translate.i <= 2,
                        0 <= us <= 17_294_403,
                ;
                assert(0 <= orient.translate.j as int * us as int <= 40_000_000)
                    by (nonlinear_arith)
                    requires
                        0 <= orient.translate.j <= 2,
                        0 <= us <= 17_294_403,
                ;
                assert(0 <= orient.translate.k as int * us as int <= 40_000_000)
                    by (nonlinear_arith)
                    requires
                        0 <= orient.translate.k <= 2,
                        0 <= us <= 17_294_403,
                ;
            }
            trans.scale(us);
            self.coord.i = self.coord.i + trans.i;
            self.coord.j = self.coord.j + trans.j;
            self.coord.k = self.coord.k + trans.k;
            self.coord.normalize();
            let s2: i64 = self.coord.i as i64 + self.coord.j as i64 + self.coord.k as i64;
            if substrate > 0 && s2 == max_dim as i64 {
                Overage::FaceEdge
            } else {
                Overage::NewFace
            }
        } else {
            Overage::NoOverage
        }
    }

    /// Adjusts a pentagon's substrate vertex onto the correct icosahedral
    /// face, hopping faces until the coordinate settles. Pentagon vertices
    /// near icosahedron corners can cross two faces in sequence, so the
    /// adjustment iterates; it fails with a pentagon-distortion error
    /// rather than loop past a fixed bound.
    pub fn adjust_pentagon_vert_overage(&mut self, resolution: usize) -> (r: Result<
        Overage,
        H3ErrorCode,
    >)
        requires
            resolution <= 16,
            resolution % 2 == 0,
            0 <= old(self).face < 20,
            nonneg(old(self).coord@),
            normalized(old(self).coord@),
            in_mag(old(self).coord@, 400_000_000),
        ensures
            match r {
                Ok(ov) => spec_pent_vert_adjust(old(self)@, resolution as int, 4) == Some(
                    (final(self).face as int, final(self).coord@, ov),
                ),
                Err(e) => {
                    &&& e == H3ErrorCode::Pentagon
                    &&& spec_pent_vert_adjust(old(self)@, resolution as int, 4) is None
                },
            },
            0 <= final(self).face < 20,
            nonneg(final(self).coord@),
            normalized(final(self).coord@),
            in_mag(final(self).coord@, 950_000_000),
    {
        proof {
            reveal(spec_pent_vert_adjust);
        }
        let mut ov = self.adjust_overage_cII(resolution, 0, 1);
        let mut iters: usize = 1;
        while ov == Overage::NewFace
            invariant
                1 <= iters <= 4,
                resolution <= 16,
                resolution % 2 == 0,
                0 <= self.face < 20,
                nonneg(self.coord@),
                normalized(self.coord@),
                in_mag(self.coord@, 950_000_000),
                ov == Overage::NewFace ==> spec_pent_vert_adjust(
                    old(self)@,
                    resolution as int,
                    4,
                ) == (if in_mag(self.coord@, 400_000_000) {
                    spec_pent_vert_adjust(self@, resolution as int, 4 - iters)
                } else {
                    Option::<(int, (int, int, int), Overage)>::None
                }),
                ov != Overage::NewFace ==> spec_pent_vert_adjust(
                    old(self)@,
                    resolution as int,
                    4,
                ) == Some((self.face as int, self.coord@, ov)),
            decreases 5 - iters,
        {
            proof {
                reveal(spec_pent_vert_adjust);
            }
            if iters >= 4 {
                return Err(H3ErrorCode::Pentagon);
            }
            if self.coord.i > 400_000_000 || self.coord.j > 400_000_000 || self.coord.k
                > 400_000_000 {
                return Err(H3ErrorCode::Pentagon);
            }
            ov = self.adjust_overage_cII(resolution, 0, 1);
            iters = iters + 1;
        }
        Ok(ov)
    }

    /// The six vertices of a hexagonal cell as substrate-grid face
    /// coordinates: move the center into the aperture 3-3r substrate (plus
    /// an aperture-7r step for Class III resolutions, bumping the working
    /// resolution), then add each vertex offset.
    pub fn to_verts(&mut self, resolution: &mut usize) -> (verts: Vec<FaceIJK>)
        requires
            *old(resolution) <= 15,
            0 <= old(self).face < 20,
            nonneg(old(self).coord@),
            in_mag(old(self).coord@, 8_000_000),
        ensures
            *final(resolution) as int == *old(resolution) + (if *old(resolution) % 2 == 1 {
                1int
            } else {
                0int
            }),
            final(self).face == old(self).face,
            final(self).coord@ == spec_substrate_center(
                old(self).coord@,
                *old(resolution) % 2 == 1,
            ),
            verts@.len() == 6,
            forall|n: int|
                0 <= n < 6 ==> (#[trigger] verts@[n]).face == old(self).face && verts@[n].coord@
                    == canon(
                    ijk_add(
                        spec_substrate_center(old(self).coord@, *old(resolution) % 2 == 1),
                        hex_vert_offset(*old(resolution) % 2 == 1, n),
                    ),
                ),
            forall|n: int|
                0 <= n < 6 ==> nonneg((#[trigger] verts@[n]).coord@) && normalized(verts@[n].coord@)
                    && in_mag(verts@[n].coord@, 400_000_000),
    {
        let class3 = crate::is_resolution_classIII(*resolution);
        self.coord.down_aperture_3();
        self.coord.down_aperture_3r();
        if class3 {
            self.coord.down_aperture_7r();
            *resolution = *resolution + 1;
        }
        let mut out: Vec<FaceIJK> = Vec::new();
        let mut n: usize = 0;
        while n < 6
            invariant
                n <= 6,
                out@.len() == n as int,
                0 <= self.face < 20,
                nonneg(self.coord@),
                in_mag(self.coord@, 300_000_000),
                forall|x: int|
                    0 <= x < n ==> (#[trigger] out@[x]).face == self.face && out@[x].coord@
                        == canon(ijk_add(self.coord@, hex_vert_offset(class3, x))),
                forall|x: int|
                    0 <= x < n ==> nonneg((#[trigger] out@[x]).coord@) && normalized(
                        out@[x].coord@,
                    ) && in_mag(out@[x].coord@, 400_000_000),
            decreases 6 - n,
    {
            let off = vert_offset(class3, n);
            let mut c = CoordIJK::new(
                self.coord.i + off.i,
                self.coord.j + off.j,
                self.coord.k + off.k,
            );
            c.normalize();
            out.push(FaceIJK { face: self.face, coord: c });
            n = n + 1;
        }
        out
    }

    /// The five vertices of a pentagonal cell as substrate-grid face
    /// coordinates, built like the hexagon's but with the five-vertex
    /// offset list.
    pub fn pentagon_to_verts(&mut self, resolution: &mut usize) -> (verts: Vec<FaceIJK>)
        requires
            *old(resolution) <= 15,
            0 <= old(self).face < 20,
            nonneg(old(self).coord@),
            in_mag(old(self).coord@, 8_000_000),
        ensures
            *final(resolution) as int == *old(resolution) + (if *old(resolution) % 2 == 1 {
                1int
            } else {
                0int
            }),
            final(self).face == old(self).face,
            final(self).coord@ == spec_substrate_center(
                old(self).coord@,
                *old(resolution) % 2 == 1,
            ),
            verts@.len() == 5,
            forall|n: int|
                0 <= n < 5 ==> (#[trigger] verts@[n]).face == old(self).face && verts@[n].coord@
                    == canon(
                    ijk_add(
                        spec_substrate_center(old(self).coord@, *old(resolution) % 2 == 1),
                        hex_vert_offset(*old(resolution) % 2 == 1, n),
                    ),
                ),
            forall|n: int|
                0 <= n < 5 ==> nonneg((#[trigger] verts@[n]).coord@) && normalized(verts@[n].coord@)
                    && in_mag(verts@[n].coord@, 400_000_000),
    {
        let class3 = crate::is_resolution_classIII(*resolution);
        self.coord.down_aperture_3();
        self.coord.down_aperture_3r();
        if class3 {
            self.coord.down_aperture_7r();
            *resolution = *resolution + 1;
        }
        let mut out: Vec<FaceIJK> = Vec::new();
        let mut n: usize = 0;
        while n < 5
            invariant
                n <= 5,
                out@.len() == n as int,
                0 <= self.face < 20,
                nonneg(self.coord@),
                in_mag(self.coord@, 300_000_000),
                forall|x: int|
                    0 <= x < n ==> (#[trigger] out@[x]).face == self.face && out@[x].coord@
                        == canon(ijk_add(self.coord@, hex_vert_offset(class3, x))),
                forall|x: int|
                    0 <= x < n ==> nonneg((#[trigger] out@[x]).coord@) && normalized(
                        out@[x].coord@,
                    ) && in_mag(out@[x].coord@, 400_000_000),
            decreases 5 - n,
    {
            let off = vert_offset(class3, n);
            let mut c = CoordIJK::new(
                self.coord.i + off.i,
                self.coord.j + off.j,
                self.coord.k + off.k,
            );
            c.normalize();
            out.push(FaceIJK { face: self.face, coord: c });
            n = n + 1;
        }
        out
    }
}

/// One element of a cell boundary plan, for the projection stage to turn
/// into a spherical vertex: either a cell vertex on a face, or the crossing
/// of a cell edge (from coordinate `a` to `b`, both in `face`'s frame) with
/// one of that face's three icosahedron edges, picked by the adjacency
/// direction (1 the IJ edge, 3 the JK edge, 2 the KI edge).
#[derive(Clone, Copy, Debug, PartialEq, Eq, Structural)]
pub enum BoundarySeg {
    Vert { face: i32, coord: CoordIJK },
    Crossing { face: i32, a: CoordIJK, b: CoordIJK, edge: i32 },
}

/// A boundary element as a mathematical tuple: tag (0 vertex, 1 crossing),
/// projection face, first coordinate, second coordinate, edge selector.
pub open spec fn seg_view(s: BoundarySeg) -> (int, int, (int, int, int), (int, int, int), int) {
    match s {
        BoundarySeg::Vert { face, coord } => (0int, face as int, coord@, (0int, 0int, 0int), 0int),
        BoundarySeg::Crossing { face, a, b, edge } => (
            1int,
            face as int,
            a@,
            b@,
            edge as int,
        ),
    }
}

/// The Class II working resolution of a boundary computation: Class III
/// resolutions drop into the next finer Class II grid.
pub open spec fn adj_res_of(res: int) -> int {
    if res % 2 == 1 {
        res + 1
    } else {
        res
    }
}

/// The walk slot before `v`, out of `m` vertices.
pub open spec fn prev_slot(v: int, m: int) -> int {
    if v == 0 {
        m - 1
    } else {
        v - 1
    }
}

/// The raw substrate coordinate of one vertex of the cell centered at `c`.
pub open spec fn raw_vert(c: (int, (int, int, int)), res: int, v: int) -> (int, int, int) {
    canon(ijk_add(spec_substrate_center(c.1, res % 2 == 1), hex_vert_offset(res % 2 == 1, v)))
}

/// A hexagon vertex after overage adjustment, with the overage it reported.
pub open spec fn hex_adj_vert(c: (int, (int, int, int)), res: int, v: int) -> (
    int,
    (int, int, int),
    Overage,
) {
    spec_adjust_overage((c.0, raw_vert(c, res, v)), adj_res_of(res), false, true)
}

/// The boundary elements the hexagon walk emits at iteration `vert`: a
/// face-crossing element when a Class III edge moved to a new face, then
/// the vertex itself for the first six iterations.
#[verifier::opaque]
pub open spec fn hex_segs_at(c: (int, (int, int, int)), res: int, start: int, vert: int) -> Seq<
    (int, int, (int, int, int), (int, int, int), int),
> {
    let v = vert % 6;
    let pv = prev_slot(v, 6);
    let cur = hex_adj_vert(c, res, v);
    let prev = hex_adj_vert(c, res, pv);
    let cseq: Seq<(int, int, (int, int, int), (int, int, int), int)> = if res % 2 == 1 && vert
        > start && cur.0 != prev.0 && prev.2 != Overage::FaceEdge {
        let face2 = if prev.0 == c.0 {
            cur.0
        } else {
            prev.0
        };
        seq![
            (
                1int,
                c.0,
                raw_vert(c, res, pv),
                raw_vert(c, res, v),
                spec_adjacent_face_dir(c.0, face2),
            ),
        ]
    } else {
        Seq::empty()
    };
    let vseq: Seq<(int, int, (int, int, int), (int, int, int), int)> = if vert < start + 6 {
        seq![(0int, cur.0, cur.1, (0int, 0int, 0int), 0int)]
    } else {
        Seq::empty()
    };
    cseq + vseq
}

/// The boundary elements of the first `n` iterations of the hexagon walk.
pub open spec fn spec_hex_boundary_upto(
    c: (int, (int, int, int)),
    res: int,
    start: int,
    length: int,
    n: int,
) -> Seq<(int, int, (int, int, int), (int, int, int), int)>
    decreases n,
{
    if n <= 0 {
        Seq::empty()
    } else {
        spec_hex_boundary_upto(c, res, start, length, n - 1) + hex_segs_at(
            c,
            res,
            start,
            start + n - 1,
        )
    }
}

/// The whole hexagon boundary plan: `length` vertices from `start`, plus
/// one extra iteration for a possible crossing on the closing edge when the
/// whole loop is asked for.
pub open spec fn spec_hex_boundary(
    c: (int, (int, int, int)),
    res: int,
    start: int,
    length: int,
) -> Seq<(int, int, (int, int, int), (int, int, int), int)> {
    spec_hex_boundary_upto(
        c,
        res,
        start,
        length,
        length + (if length == 6 {
            1int
        } else {
            0int
        }),
    )
}

/// A pentagon vertex after its iterated overage adjustment; None when the
/// adjustment gives up.
pub open spec fn pent_adj_opt(c: (int, (int, int, int)), res: int, v: int) -> Option<
    (int, (int, int, int), Overage),
> {
    spec_pent_vert_adjust((c.0, raw_vert(c, res, v)), adj_res_of(res), 4)
}

/// The adjusted pentagon vertex, where the adjustment settles.
pub open spec fn pent_adj(c: (int, (int, int, int)), res: int, v: int) -> (
    int,
    (int, int, int),
    Overage,
) {
    match pent_adj_opt(c, res, v) {
        Some(a) => a,
        None => (0int, (0int, 0int, 0int), Overage::NoOverage),
    }
}

/// Whether every pentagon vertex adjustment settles.
pub open spec fn spec_pent_boundary_ok(c: (int, (int, int, int)), res: int) -> bool {
    forall|v: int| 0 <= v < 5 ==> (#[trigger] pent_adj_opt(c, res, v)) is Some
}

/// The boundary elements the pentagon walk emits at iteration `vert`.
/// Every Class III pentagon edge crosses an icosahedron edge, so each
/// iteration after the first re-expresses the current vertex in the
/// previous vertex's face frame and emits a crossing element there; a
/// non-adjacent face pair (which real cell data never produces) is treated
/// as the same-face orientation.
#[verifier::opaque]
pub open spec fn pent_segs_at(c: (int, (int, int, int)), res: int, start: int, vert: int) -> Seq<
    (int, int, (int, int, int), (int, int, int), int),
> {
    let v = vert % 5;
    let pv = prev_slot(v, 5);
    let cur = pent_adj(c, res, v);
    let prev = pent_adj(c, res, pv);
    let cseq: Seq<(int, int, (int, int, int), (int, int, int), int)> = if res % 2 == 1 && vert
        > start {
        let d0 = spec_adjacent_face_dir(cur.0, prev.0);
        let dir_cl = if d0 >= 0 {
            d0
        } else {
            0int
        };
        let orient = spec_face_neighbor(cur.0, dir_cl);
        let tmpc = canon(
            ijk_add(
                rot60ccw_n(cur.1, orient.2),
                ijk_scale(orient.1, 3 * spec_unit_scale(adj_res_of(res))),
            ),
        );
        seq![(1int, orient.0, prev.1, tmpc, spec_adjacent_face_dir(orient.0, cur.0))]
    } else {
        Seq::empty()
    };
    let vseq: Seq<(int, int, (int, int, int), (int, int, int), int)> = if vert < start + 5 {
        seq![(0int, cur.0, cur.1, (0int, 0int, 0int), 0int)]
    } else {
        Seq::empty()
    };
    cseq + vseq
}

/// The boundary elements of the first `n` iterations of the pentagon walk.
pub open spec fn spec_pent_boundary_upto(
    c: (int, (int, int, int)),
    res: int,
    start: int,
    length: int,
    n: int,
) -> Seq<(int, int, (int, int, int), (int, int, int), int)>
    decreases n,
{
    if n <= 0 {
        Seq::empty()
    } else {
        spec_pent_boundary_upto(c, res, start, length, n - 1) + pent_segs_at(
            c,
            res,
            start,
            start + n - 1,
        )
    }
}

/// The whole pentagon boundary plan.
pub open spec fn spec_pent_boundary(
    c: (int, (int, int, int)),
    res: int,
    start: int,
    length: int,
) -> Seq<(int, int, (int, int, int), (int, int, int), int)> {
    spec_pent_boundary_upto(
        c,
        res,
        start,
        length,
        length + (if length == 5 {
            1int
        } else {
            0int
        }),
    )
}

impl FaceIJK {
    /// The boundary plan of a hexagonal cell: the cell's substrate vertices
    /// in walk order, adjusted onto their true faces, with a crossing
    /// element wherever a Class III edge passes from one icosahedron face
    /// to another. The projection stage turns each element into a
    /// spherical vertex.
    #[verifier::rlimit(100)]
    pub fn to_cell_boundary(&self, resolution: usize, start: usize, length: usize) -> (out: Vec<
        BoundarySeg,
    >)
        requires
            resolution <= 15,
            0 <= self.face < 20,
            nonneg(self.coord@),
            in_mag(self.coord@, 8_000_000),
            start <= 6,
            length <= 6,
        ensures
            out@.len() == spec_hex_boundary(
                self@,
                resolution as int,
                start as int,
                length as int,
            ).len(),
            forall|i: int|
                0 <= i < out@.len() ==> seg_view(#[trigger] out@[i]) == spec_hex_boundary(
                    self@,
                    resolution as int,
                    start as int,
                    length as int,
                )[i],
    {
        let ghost res = resolution as int;
        let mut center = FaceIJK { face: self.face, coord: self.coord };
        let mut adj_res: usize = resolution;
        let verts = center.to_verts(&mut adj_res);
        let mut adjusted: Vec<FaceIJK> = Vec::new();
        let mut ovs: Vec<Overage> = Vec::new();
        let mut x: usize = 0;
        while x < 6
            invariant
                x <= 6,
                resolution <= 15,
                adj_res as int == adj_res_of(res),
                adj_res <= 16,
                adj_res % 2 == 0,
                res == resolution as int,
                verts@.len() == 6,
                forall|y: int|
                    0 <= y < 6 ==> (#[trigger] verts@[y]).face as int == self@.0 && verts@[y].coord@
                        == raw_vert(self@, res, y) && nonneg(verts@[y].coord@) && normalized(
                        verts@[y].coord@,
                    ) && in_mag(verts@[y].coord@, 400_000_000) && 0 <= verts@[y].face < 20,
                adjusted@.len() == x as int,
                ovs@.len() == x as int,
                forall|y: int|
                    0 <= y < x ==> ((#[trigger] adjusted@[y]).face as int, adjusted@[y].coord@, ovs@[y])
                        == hex_adj_vert(self@, res, y) && 0 <= adjusted@[y].face < 20,
            decreases 6 - x,
        {
            let mut f = verts[x];
            let ov = f.adjust_overage_cII(adj_res, 0, 1);
            proof {
                assert(verts@[x as int]@ == (self@.0, raw_vert(self@, res, x as int)));
                assert((f.face as int, f.coord@, ov) == hex_adj_vert(self@, res, x as int));
            }
            adjusted.push(f);
            ovs.push(ov);
            x = x + 1;
        }
        let extra: usize = if length == 6 {
            1
        } else {
            0
        };
        let mut out: Vec<BoundarySeg> = Vec::new();
        let mut vert: usize = start;
        while vert < start + length + extra
            invariant
                start <= vert <= start + length + extra,
                start <= 6,
                length <= 6,
                extra as int == (if length == 6 {
                    1int
                } else {
                    0int
                }),
                resolution <= 15,
                res == resolution as int,
                0 <= self.face < 20,
                verts@.len() == 6,
                forall|y: int|
                    0 <= y < 6 ==> (#[trigger] verts@[y]).face as int == self@.0 && verts@[y].coord@
                        == raw_vert(self@, res, y),
                adjusted@.len() == 6,
                ovs@.len() == 6,
                forall|y: int|
                    0 <= y < 6 ==> ((#[trigger] adjusted@[y]).face as int, adjusted@[y].coord@, ovs@[y])
                        == hex_adj_vert(self@, res, y) && 0 <= adjusted@[y].face < 20,
                out@.len() == spec_hex_boundary_upto(
                    self@,
                    res,
                    start as int,
                    length as int,
                    vert - start,
                ).len(),
                forall|i: int|
                    0 <= i < out@.len() ==> seg_view(#[trigger] out@[i]) == spec_hex_boundary_upto(
                        self@,
                        res,
                        start as int,
                        length as int,
                        vert - start,
                    )[i],
            decreases start + length + extra - vert,
        {
            let v: usize = vert % 6;
            let last_v: usize = if v == 0 {
                5
            } else {
                v - 1
            };
            let cur = adjusted[v];
            let ghost before = spec_hex_boundary_upto(
                self@,
                res,
                start as int,
                length as int,
                vert - start,
            );
            let ghost sa = hex_segs_at(self@, res, start as int, vert as int);
            proof {
                reveal(hex_segs_at);
                assert(spec_hex_boundary_upto(
                    self@,
                    res,
                    start as int,
                    length as int,
                    vert - start + 1,
                ) == before + sa);
                assert(v as int == vert as int % 6);
                assert(last_v as int == prev_slot(v as int, 6));
            }
            let cross: bool = resolution % 2 == 1 && vert > start && !(cur.face
                == adjusted[last_v].face) && !(ovs[last_v] == Overage::FaceEdge);
            let emit: bool = vert < start + 6;
            if cross {
                let face2: i32 = if adjusted[last_v].face == self.face {
                    cur.face
                } else {
                    adjusted[last_v].face
                };
                let edge = adjacent_face_dir(self.face as usize, face2 as usize);
                let c = BoundarySeg::Crossing {
                    face: self.face,
                    a: verts[last_v].coord,
                    b: verts[v].coord,
                    edge,
                };
                proof {
                    reveal(hex_segs_at);
                    assert(seg_view(c) == sa[0]);
                }
                out.push(c);
            }
            if emit {
                let w = BoundarySeg::Vert { face: cur.face, coord: cur.coord };
                proof {
                    reveal(hex_segs_at);
                    if cross {
                        assert(seg_view(w) == sa[1]);
                    } else {
                        assert(seg_view(w) == sa[0]);
                    }
                }
                out.push(w);
            }
            proof {
                reveal(hex_segs_at);
                assert(sa.len() == (if cross {
                    1int
                } else {
                    0int
                }) + (if emit {
                    1int
                } else {
                    0int
                }));
                assert(out@.len() == before.len() + sa.len());
                assert forall|i: int| 0 <= i < out@.len() implies seg_view(#[trigger] out@[i]) == (
                before + sa)[i] by {
                    if i < before.len() {
                        assert(seg_view(out@[i]) == before[i]);
                        assert((before + sa)[i] == before[i]);
                    } else {
                        assert((before + sa)[i] == sa[i - before.len()]);
                    }
                }
            }
            vert = vert + 1;
        }
        out
    }

    /// The boundary plan of a pentagonal cell: like the hexagon's, but with
    /// five vertices, the iterated pentagon vertex adjustment, and a
    /// crossing element on every Class III edge. Fails with the
    /// pentagon-distortion error when a vertex adjustment does not settle.
    #[verifier::rlimit(100)]
    pub fn pentagon_to_cell_boundary(&self, resolution: usize, start: usize, length: usize) -> (r:
        Result<Vec<BoundarySeg>, H3ErrorCode>)
        requires
            resolution <= 15,
            0 <= self.face < 20,
            nonneg(self.coord@),
            in_mag(self.coord@, 8_000_000),
            start <= 5,
            length <= 5,
        ensures
            r is Ok <==> spec_pent_boundary_ok(self@, resolution as int),
            r matches Err(e) ==> e == H3ErrorCode::Pentagon,
            r matches Ok(out) ==> out@.len() == spec_pent_boundary(
                self@,
                resolution as int,
                start as int,
                length as int,
            ).len() && forall|i: int|
                0 <= i < out@.len() ==> seg_view(#[trigger] out@[i]) == spec_pent_boundary(
                    self@,
                    resolution as int,
                    start as int,
                    length as int,
                )[i],
    {
        let ghost res = resolution as int;
        let mut center = FaceIJK { face: self.face, coord: self.coord };
        let mut adj_res: usize = resolution;
        let verts = center.pentagon_to_verts(&mut adj_res);
        let mut adjusted: Vec<FaceIJK> = Vec::new();
        let mut x: usize = 0;
        while x < 5
            invariant
                x <= 5,
                resolution <= 15,
                adj_res as int == adj_res_of(res),
                adj_res <= 16,
                adj_res % 2 == 0,
                res == resolution as int,
                verts@.len() == 5,
                forall|y: int|
                    0 <= y < 5 ==> (#[trigger] verts@[y]).face as int == self@.0 && verts@[y].coord@
                        == raw_vert(self@, res, y) && nonneg(verts@[y].coord@) && normalized(
                        verts@[y].coord@,
                    ) && in_mag(verts@[y].coord@, 400_000_000) && 0 <= verts@[y].face < 20,
                adjusted@.len() == x as int,
                forall|y: int| 0 <= y < x ==> (#[trigger] pent_adj_opt(self@, res, y)) is Some,
                forall|y: int|
                    0 <= y < x ==> ((#[trigger] adjusted@[y]).face as int, adjusted@[y].coord@) == (
                    pent_adj(self@, res, y).0,
                    pent_adj(self@, res, y).1,
                ) && 0 <= adjusted@[y].face < 20 && nonneg(adjusted@[y].coord@) && normalized(
                        adjusted@[y].coord@,
                    ) && in_mag(adjusted@[y].coord@, 950_000_000),
            decreases 5 - x,
        {
            let mut f = verts[x];
            proof {
                assert(verts@[x as int]@ == (self@.0, raw_vert(self@, res, x as int)));
            }
            match f.adjust_pentagon_vert_overage(adj_res) {
                Ok(ov) => {
                    proof {
                        assert(pent_adj_opt(self@, res, x as int) == Some(
                            (f.face as int, f.coord@, ov),
                        ));
                    }
                    adjusted.push(f);
                },
                Err(_) => {
                    proof {
                        assert(pent_adj_opt(self@, res, x as int) is None);
                    }
                    return Err(H3ErrorCode::Pentagon);
                },
            }
            x = x + 1;
        }
        let extra: usize = if length == 5 {
            1
        } else {
            0
        };
        let mut out: Vec<BoundarySeg> = Vec::new();
        let mut vert: usize = start;
        while vert < start + length + extra
            invariant
                start <= vert <= start + length + extra,
                start <= 5,
                length <= 5,
                extra as int == (if length == 5 {
                    1int
                } else {
                    0int
                }),
                resolution <= 15,
                adj_res as int == adj_res_of(res),
                adj_res <= 16,
                adj_res % 2 == 0,
                res == resolution as int,
                adjusted@.len() == 5,
                forall|y: int| 0 <= y < 5 ==> (#[trigger] pent_adj_opt(self@, res, y)) is Some,
                forall|y: int|
                    0 <= y < 5 ==> ((#[trigger] adjusted@[y]).face as int, adjusted@[y].coord@) == (
                    pent_adj(self@, res, y).0,
                    pent_adj(self@, res, y).1,
                ) && 0 <= adjusted@[y].face < 20 && nonneg(adjusted@[y].coord@) && normalized(
                        adjusted@[y].coord@,
                    ) && in_mag(adjusted@[y].coord@, 950_000_000),
                out@.len() == spec_pent_boundary_upto(
                    self@,
                    res,
                    start as int,
                    length as int,
                    vert - start,
                ).len(),
                forall|i: int|
                    0 <= i < out@.len() ==> seg_view(#[trigger] out@[i]) == spec_pent_boundary_upto(
                        self@,
                        res,
                        start as int,
                        length as int,
                        vert - start,
                    )[i],
            decreases start + length + extra - vert,
        {
            let v: usize = vert % 5;
            let last_v: usize = if v == 0 {
                4
            } else {
                v - 1
            };
            let cur = adjusted[v];
            let ghost before = spec_pent_boundary_upto(
                self@,
                res,
                start as int,
                length as int,
                vert - start,
            );
            let ghost sa = pent_segs_at(self@, res, start as int, vert as int);
            proof {
                reveal(pent_segs_at);
                assert(spec_pent_boundary_upto(
                    self@,
                    res,
                    start as int,
                    length as int,
                    vert - start + 1,
                ) == before + sa);
                assert(v as int == vert as int % 5);
                assert(last_v as int == prev_slot(v as int, 5));
            }
            let cross: bool = resolution % 2 == 1 && vert > start;
            let emit: bool = vert < start + 5;
            if cross {
                let d0 = adjacent_face_dir(cur.face as usize, adjusted[last_v].face as usize);
                let dir_cl: usize = if d0 >= 0 {
                    d0 as usize
                } else {
                    0
                };
                let orient = face_neighbors(cur.face as usize, dir_cl);
                let ghost v2 = cur.coord@;
                let mut tmp = FaceIJK { face: orient.face, coord: cur.coord };
                let rot = orient.ccw_rot60;
                let mut n: i32 = 0;
                while n < rot
                    invariant
                        0 <= n <= rot,
                        rot <= 5,
                        tmp.face == orient.face,
                        tmp.coord@ == rot60ccw_n(v2, n as int),
                        nonneg(v2),
                        normalized(v2),
                        in_mag(v2, 950_000_000),
                        nonneg(tmp.coord@),
                        normalized(tmp.coord@),
                        in_mag(tmp.coord@, 950_000_000),
                    decreases rot - n,
                {
                    proof {
                        lemma_rot_canon_bound(tmp.coord@, 950_000_000);
                    }
                    tmp.coord.rotate_60ccw();
                    n = n + 1;
                }
                proof {
                    lemma_rot_n_bound(v2, 950_000_000, rot as int);
                }
                let us_base = unit_scale_by_cii_res(adj_res);
                let us: i32 = us_base * 3;
                let mut trans = orient.translate;
                proof {
                    assert(0 <= orient.translate.i as int * us as int <= 40_000_000)
                        by (nonlinear_arith)
                        requires
                            0 <= orient.translate.i <= 2,
                            0 <= us <= 17_294_403,
                    ;
                    assert(0 <= orient.translate.j as int * us as int <= 40_000_000)
                        by (nonlinear_arith)
                        requires
                            0 <= orient.translate.j <= 2,
                            0 <= us <= 17_294_403,
                    ;
                    assert(0 <= orient.translate.k as int * us as int <= 40_000_000)
                        by (nonlinear_arith)
                        requires
                            0 <= orient.translate.k <= 2,
                            0 <= us <= 17_294_403,
                    ;
                }
                trans.scale(us);
                tmp.coord.i = tmp.coord.i + trans.i;
                tmp.coord.j = tmp.coord.j + trans.j;
                tmp.coord.k = tmp.coord.k + trans.k;
                tmp.coord.normalize();
                let edge = adjacent_face_dir(tmp.face as usize, cur.face as usize);
                let c = BoundarySeg::Crossing {
                    face: tmp.face,
                    a: adjusted[last_v].coord,
                    b: tmp.coord,
                    edge,
                };
                proof {
                    reveal(pent_segs_at);
                    assert(seg_view(c) == sa[0]);
                }
                out.push(c);
            }
            if emit {
                let w = BoundarySeg::Vert { face: cur.face, coord: cur.coord };
                proof {
                    reveal(pent_segs_at);
                    if cross {
                        assert(seg_view(w) == sa[1]);
                    } else {
                        assert(seg_view(w) == sa[0]);
                    }
                }
                out.push(w);
            }
            proof {
                reveal(pent_segs_at);
                assert(sa.len() == (if cross {
                    1int
                } else {
                    0int
                }) + (if emit {
                    1int
                } else {
                    0int
                }));
                assert(out@.len() == before.len() + sa.len());
                assert forall|i: int| 0 <= i < out@.len() implies seg_view(#[trigger] out@[i]) == (
                before + sa)[i] by {
                    if i < before.len() {
                        assert(seg_view(out@[i]) == before[i]);
                        assert((before + sa)[i] == before[i]);
                    } else {
                        assert((before + sa)[i] == sa[i - before.len()]);
                    }
                }
            }
            vert = vert + 1;
        }
        Ok(out)
    }
}


/// At a Class II resolution no cell edge crosses an icosahedron face
/// boundary, so the hexagon boundary plan holds exactly `length` elements
/// and every one is a plain vertex.
pub proof fn lemma_class_ii_hex_boundary(
    c: (int, (int, int, int)),
    res: int,
    start: int,
    length: int,
)
    requires
        res % 2 == 0,
        0 <= start,
        0 <= length <= 6,
    ensures
        spec_hex_boundary(c, res, start, length).len() == length,
        forall|i: int| 0 <= i < length ==> (#[trigger] spec_hex_boundary(c, res, start, length)[i]).0
            == 0,
{
    let n = length + (if length == 6 {
        1int
    } else {
        0int
    });
    lemma_class_ii_hex_boundary_upto(c, res, start, length, n);
}

/// Induction helper for the hexagon Class II boundary length.
proof fn lemma_class_ii_hex_boundary_upto(
    c: (int, (int, int, int)),
    res: int,
    start: int,
    length: int,
    n: int,
)
    requires
        res % 2 == 0,
        0 <= start,
        0 <= length <= 6,
        0 <= n <= length + 1,
        n <= 7,
    ensures
        spec_hex_boundary_upto(c, res, start, length, n).len() == (if n <= 6 {
            n
        } else {
            6int
        }),
        forall|i: int|
            0 <= i < spec_hex_boundary_upto(c, res, start, length, n).len() ==> (
            #[trigger] spec_hex_boundary_upto(c, res, start, length, n)[i]).0 == 0,
    decreases n,
{
    reveal(hex_segs_at);
    if n > 0 {
        lemma_class_ii_hex_boundary_upto(c, res, start, length, n - 1);
    }
}

/// At a Class II resolution the pentagon boundary plan holds exactly
/// `length` elements and every one is a plain vertex.
pub proof fn lemma_class_ii_pent_boundary(
    c: (int, (int, int, int)),
    res: int,
    start: int,
    length: int,
)
    requires
        res % 2 == 0,
        0 <= start,
        0 <= length <= 5,
    ensures
        spec_pent_boundary(c, res, start, length).len() == length,
        forall|i: int| 0 <= i < length ==> (#[trigger] spec_pent_boundary(c, res, start, length)[i]).0
            == 0,
{
    let n = length + (if length == 5 {
        1int
    } else {
        0int
    });
    lemma_class_ii_pent_boundary_upto(c, res, start, length, n);
}

/// Induction helper for the pentagon Class II boundary length.
proof fn lemma_class_ii_pent_boundary_upto(
    c: (int, (int, int, int)),
    res: int,
    start: int,
    length: int,
    n: int,
)
    requires
        res % 2 == 0,
        0 <= start,
        0 <= length <= 5,
        0 <= n <= length + 1,
        n <= 6,
    ensures
        spec_pent_boundary_upto(c, res, start, length, n).len() == (if n <= 5 {
            n
        } else {
            5int
        }),
        forall|i: int|
            0 <= i < spec_pent_boundary_upto(c, res, start, length, n).len() ==> (
            #[trigger] spec_pent_boundary_upto(c, res, start, length, n)[i]).0 == 0,
    decreases n,
{
    reveal(pent_segs_at);
    if n > 0 {
        lemma_class_ii_pent_boundary_upto(c, res, start, length, n - 1);
    }
}

} // verus!
