//! The 122 resolution-0 base cells: each one's home icosahedron face and
//! coordinate on that face, its pentagon flag, and, for pentagons, the two
//! clockwise-offset adjacent faces (-1 where none apply).

use vstd::prelude::*;

verus! {

use crate::coordijk::CoordIJK;
use crate::coordijk::normalized;
use crate::faceijk::FaceIJK;

/// One base cell's compiled-in record: home face and coordinate at
/// resolution 0, pentagon flag, and the pentagon's two clockwise-offset
/// adjacent faces (-1 where not applicable).
#[derive(Clone, Copy, Debug)]
pub struct BaseCellData {
    pub home_fijk: FaceIJK,
    pub is_pentagon: bool,
    pub cw_offset_pent: (i32, i32),
}

/// A base cell reached through a face-local lookup, together with the number
/// of 60-degree counter-clockwise rotations into its orientation.
#[derive(Clone, Copy, Debug, PartialEq, Eq, Structural)]
pub struct BaseCellRotation {
    /// Base cell number.
    pub base_cell: isize,
    /// Number of counter-clockwise 60-degree rotations relative to the
    /// current face.
    pub ccw_rotation_60: isize,
}

/// The base-cell record as a mathematical tuple: home face, home coordinate,
/// pentagon flag, clockwise-offset faces.
#[verifier::opaque]
pub open spec fn spec_base_cell_data(bc: int) -> (int, (int, int, int), bool, (int, int)) {
    if bc == 0 {
        (1, (1, 0, 0), false, (0, 0))
    } else if bc == 1 {
        (2, (1, 1, 0), false, (0, 0))
    } else if bc == 2 {
        (1, (0, 0, 0), false, (0, 0))
    } else if bc == 3 {
        (2, (1, 0, 0), false, (0, 0))
    } else if bc == 4 {
        (0, (2, 0, 0), true, (-1, -1))
    } else if bc == 5 {
        (1, (1, 1, 0), false, (0, 0))
    } else if bc == 6 {
        (1, (0, 0, 1), false, (0, 0))
    } else if bc == 7 {
        (2, (0, 0, 0), false, (0, 0))
    } else if bc == 8 {
        (0, (1, 0, 0), false, (0, 0))
    } else if bc == 9 {
        (2, (0, 1, 0), false, (0, 0))
    } else if bc == 10 {
        (1, (0, 1, 0), false, (0, 0))
    } else if bc == 11 {
        (1, (0, 1, 1), false, (0, 0))
    } else if bc == 12 {
        (3, (1, 0, 0), false, (0, 0))
    } else if bc == 13 {
        (3, (1, 1, 0), false, (0, 0))
    } else if bc == 14 {
        (11, (2, 0, 0), true, (2, 6))
    } else if bc == 15 {
        (4, (1, 0, 0), false, (0, 0))
    } else if bc == 16 {
        (0, (0, 0, 0), false, (0, 0))
    } else if bc == 17 {
        (6, (0, 1, 0), false, (0, 0))
    } else if bc == 18 {
        (0, (0, 0, 1), false, (0, 0))
    } else if bc == 19 {
        (2, (0, 1, 1), false, (0, 0))
    } else if bc == 20 {
        (7, (0, 0, 1), false, (0, 0))
    } else if bc == 21 {
        (2, (0, 0, 1), false, (0, 0))
    } else if bc == 22 {
        (0, (1, 1, 0), false, (0, 0))
    } else if bc == 23 {
        (6, (0, 0, 1), false, (0, 0))
    } else if bc == 24 {
        (10, (2, 0, 0), true, (1, 5))
    } else if bc == 25 {
        (6, (0, 0, 0), false, (0, 0))
    } else if bc == 26 {
        (3, (0, 0, 0), false, (0, 0))
    } else if bc == 27 {
        (11, (1, 0, 0), false, (0, 0))
    } else if bc == 28 {
        (4, (1, 1, 0), false, (0, 0))
    } else if bc == 29 {
        (3, (0, 1, 0), false, (0, 0))
    } else if bc == 30 {
        (0, (0, 1, 1), false, (0, 0))
    } else if bc == 31 {
        (4, (0, 0, 0), false, (0, 0))
    } else if bc == 32 {
        (5, (0, 1, 0), false, (0, 0))
    } else if bc == 33 {
        (0, (0, 1, 0), false, (0, 0))
    } else if bc == 34 {
        (7, (0, 1, 0), false, (0, 0))
    } else if bc == 35 {
        (11, (1, 1, 0), false, (0, 0))
    } else if bc == 36 {
        (7, (0, 0, 0), false, (0, 0))
    } else if bc == 37 {
        (10, (1, 0, 0), false, (0, 0))
    } else if bc == 38 {
        (12, (2, 0, 0), true, (3, 7))
    } else if bc == 39 {
        (6, (1, 0, 1), false, (0, 0))
    } else if bc == 40 {
        (7, (1, 0, 1), false, (0, 0))
    } else if bc == 41 {
        (4, (0, 0, 1), false, (0, 0))
    } else if bc == 42 {
        (3, (0, 0, 1), false, (0, 0))
    } else if bc == 43 {
        (3, (0, 1, 1), false, (0, 0))
    } else if bc == 44 {
        (4, (0, 1, 0), false, (0, 0))
    } else if bc == 45 {
        (6, (1, 0, 0), false, (0, 0))
    } else if bc == 46 {
        (11, (0, 0, 0), false, (0, 0))
    } else if bc == 47 {
        (8, (0, 0, 1), false, (0, 0))
    } else if bc == 48 {
        (5, (0, 0, 1), false, (0, 0))
    } else if bc == 49 {
        (14, (2, 0, 0), true, (0, 9))
    } else if bc == 50 {
        (5, (0, 0, 0), false, (0, 0))
    } else if bc == 51 {
        (12, (1, 0, 0), false, (0, 0))
    } else if bc == 52 {
        (10, (1, 1, 0), false, (0, 0))
    } else if bc == 53 {
        (4, (0, 1, 1), false, (0, 0))
    } else if bc == 54 {
        (12, (1, 1, 0), false, (0, 0))
    } else if bc == 55 {
        (7, (1, 0, 0), false, (0, 0))
    } else if bc == 56 {
        (11, (0, 1, 0), false, (0, 0))
    } else if bc == 57 {
        (10, (0, 0, 0), false, (0, 0))
    } else if bc == 58 {
        (13, (2, 0, 0), true, (4, 8))
    } else if bc == 59 {
        (10, (0, 0, 1), false, (0, 0))
    } else if bc == 60 {
        (11, (0, 0, 1), false, (0, 0))
    } else if bc == 61 {
        (9, (0, 1, 0), false, (0, 0))
    } else if bc == 62 {
        (8, (0, 1, 0), false, (0, 0))
    } else if bc == 63 {
        (6, (2, 0, 0), true, (11, 15))
    } else if bc == 64 {
        (8, (0, 0, 0), false, (0, 0))
    } else if bc == 65 {
        (9, (0, 0, 1), false, (0, 0))
    } else if bc == 66 {
        (14, (1, 0, 0), false, (0, 0))
    } else if bc == 67 {
        (5, (1, 0, 1), false, (0, 0))
    } else if bc == 68 {
        (16, (0, 1, 1), false, (0, 0))
    } else if bc == 69 {
        (8, (1, 0, 1), false, (0, 0))
    } else if bc == 70 {
        (5, (1, 0, 0), false, (0, 0))
    } else if bc == 71 {
        (12, (0, 0, 0), false, (0, 0))
    } else if bc == 72 {
        (7, (2, 0, 0), true, (12, 16))
    } else if bc == 73 {
        (12, (0, 1, 0), false, (0, 0))
    } else if bc == 74 {
        (10, (0, 1, 0), false, (0, 0))
    } else if bc == 75 {
        (9, (0, 0, 0), false, (0, 0))
    } else if bc == 76 {
        (13, (1, 0, 0), false, (0, 0))
    } else if bc == 77 {
        (16, (0, 0, 1), false, (0, 0))
    } else if bc == 78 {
        (15, (0, 1, 1), false, (0, 0))
    } else if bc == 79 {
        (15, (0, 1, 0), false, (0, 0))
    } else if bc == 80 {
        (16, (0, 1, 0), false, (0, 0))
    } else if bc == 81 {
        (14, (1, 1, 0), false, (0, 0))
    } else if bc == 82 {
        (13, (1, 1, 0), false, (0, 0))
    } else if bc == 83 {
        (5, (2, 0, 0), true, (10, 19))
    } else if bc == 84 {
        (8, (1, 0, 0), false, (0, 0))
    } else if bc == 85 {
        (14, (0, 0, 0), false, (0, 0))
    } else if bc == 86 {
        (9, (1, 0, 1), false, (0, 0))
    } else if bc == 87 {
        (14, (0, 0, 1), false, (0, 0))
    } else if bc == 88 {
        (17, (0, 0, 1), false, (0, 0))
    } else if bc == 89 {
        (12, (0, 0, 1), false, (0, 0))
    } else if bc == 90 {
        (16, (0, 0, 0), false, (0, 0))
    } else if bc == 91 {
        (17, (0, 1, 1), false, (0, 0))
    } else if bc == 92 {
        (15, (0, 0, 1), false, (0, 0))
    } else if bc == 93 {
        (16, (1, 0, 1), false, (0, 0))
    } else if bc == 94 {
        (9, (1, 0, 0), false, (0, 0))
    } else if bc == 95 {
        (15, (0, 0, 0), false, (0, 0))
    } else if bc == 96 {
        (13, (0, 0, 0), false, (0, 0))
    } else if bc == 97 {
        (8, (2, 0, 0), true, (13, 17))
    } else if bc == 98 {
        (13, (0, 1, 0), false, (0, 0))
    } else if bc == 99 {
        (17, (1, 0, 1), false, (0, 0))
    } else if bc == 100 {
        (19, (0, 1, 0), false, (0, 0))
    } else if bc == 101 {
        (14, (0, 1, 0), false, (0, 0))
    } else if bc == 102 {
        (19, (0, 1, 1), false, (0, 0))
    } else if bc == 103 {
        (17, (0, 1, 0), false, (0, 0))
    } else if bc == 104 {
        (13, (0, 0, 1), false, (0, 0))
    } else if bc == 105 {
        (17, (0, 0, 0), false, (0, 0))
    } else if bc == 106 {
        (16, (1, 0, 0), false, (0, 0))
    } else if bc == 107 {
        (9, (2, 0, 0), true, (14, 18))
    } else if bc == 108 {
        (15, (1, 0, 1), false, (0, 0))
    } else if bc == 109 {
        (15, (1, 0, 0), false, (0, 0))
    } else if bc == 110 {
        (18, (0, 1, 1), false, (0, 0))
    } else if bc == 111 {
        (18, (0, 0, 1), false, (0, 0))
    } else if bc == 112 {
        (19, (0, 0, 1), false, (0, 0))
    } else if bc == 113 {
        (17, (1, 0, 0), false, (0, 0))
    } else if bc == 114 {
        (19, (0, 0, 0), false, (0, 0))
    } else if bc == 115 {
        (18, (0, 1, 0), false, (0, 0))
    } else if bc == 116 {
        (18, (1, 0, 1), false, (0, 0))
    } else if bc == 117 {
        (19, (2, 0, 0), true, (-1, -1))
    } else if bc == 118 {
        (19, (1, 0, 0), false, (0, 0))
    } else if bc == 119 {
        (18, (0, 0, 0), false, (0, 0))
    } else if bc == 120 {
        (19, (1, 0, 1), false, (0, 0))
    } else {
        (18, (1, 0, 0), false, (0, 0))
    }
}

/// Whether a base cell is one of the twelve pentagons; false outside the
/// valid range.
pub open spec fn spec_is_base_cell_pentagon(bc: int) -> bool {
    0 <= bc < 122 && spec_base_cell_data(bc).2
}

/// The compiled-in record of the given base cell.
pub fn base_cell_data(bc: usize) -> (r: BaseCellData)
    requires
        bc < 122,
    ensures
        ({
            let d = spec_base_cell_data(bc as int);
            &&& r.home_fijk.face as int == d.0
            &&& r.home_fijk.coord@ == d.1
            &&& r.is_pentagon == d.2
            &&& (r.cw_offset_pent.0 as int, r.cw_offset_pent.1 as int) == d.3
        }),
        0 <= r.home_fijk.face < 20,
        0 <= r.home_fijk.coord.i <= 2,
        0 <= r.home_fijk.coord.j <= 2,
        0 <= r.home_fijk.coord.k <= 2,
        normalized(r.home_fijk.coord@),
{
    proof {
        reveal(spec_base_cell_data);
    }
    match bc {
        0 => BaseCellData { home_fijk: FaceIJK { face: 1, coord: CoordIJK { i: 1, j: 0, k: 0 } }, is_pentagon: false, cw_offset_pent: (0, 0) },
        1 => BaseCellData { home_fijk: FaceIJK { face: 2, coord: CoordIJK { i: 1, j: 1, k: 0 } }, is_pentagon: false, cw_offset_pent: (0, 0) },
        2 => BaseCellData { home_fijk: FaceIJK { face: 1, coord: CoordIJK { i: 0, j: 0, k: 0 } }, is_pentagon: false, cw_offset_pent: (0, 0) },
        3 => BaseCellData { home_fijk: FaceIJK { face: 2, coord: CoordIJK { i: 1, j: 0, k: 0 } }, is_pentagon: false, cw_offset_pent: (0, 0) },
        4 => BaseCellData { home_fijk: FaceIJK { face: 0, coord: CoordIJK { i: 2, j: 0, k: 0 } }, is_pentagon: true, cw_offset_pent: (-1, -1) },
        5 => BaseCellData { home_fijk: FaceIJK { face: 1, coord: CoordIJK { i: 1, j: 1, k: 0 } }, is_pentagon: false, cw_offset_pent: (0, 0) },
        6 => BaseCellData { home_fijk: FaceIJK { face: 1, coord: CoordIJK { i: 0, j: 0, k: 1 } }, is_pentagon: false, cw_offset_pent: (0, 0) },
        7 => BaseCellData { home_fijk: FaceIJK { face: 2, coord: CoordIJK { i: 0, j: 0, k: 0 } }, is_pentagon: false, cw_offset_pent: (0, 0) },
        8 => BaseCellData { home_fijk: FaceIJK { face: 0, coord: CoordIJK { i: 1, j: 0, k: 0 } }, is_pentagon: false, cw_offset_pent: (0, 0) },
        9 => BaseCellData { home_fijk: FaceIJK { face: 2, coord: CoordIJK { i: 0, j: 1, k: 0 } }, is_pentagon: false, cw_offset_pent: (0, 0) },
        10 => BaseCellData { home_fijk: FaceIJK { face: 1, coord: CoordIJK { i: 0, j: 1, k: 0 } }, is_pentagon: false, cw_offset_pent: (0, 0) },
        11 => BaseCellData { home_fijk: FaceIJK { face: 1, coord: CoordIJK { i: 0, j: 1, k: 1 } }, is_pentagon: false, cw_offset_pent: (0, 0) },
        12 => BaseCellData { home_fijk: FaceIJK { face: 3, coord: CoordIJK { i: 1, j: 0, k: 0 } }, is_pentagon: false, cw_offset_pent: (0, 0) },
        13 => BaseCellData { home_fijk: FaceIJK { face: 3, coord: CoordIJK { i: 1, j: 1, k: 0 } }, is_pentagon: false, cw_offset_pent: (0, 0) },
        14 => BaseCellData { home_fijk: FaceIJK { face: 11, coord: CoordIJK { i: 2, j: 0, k: 0 } }, is_pentagon: true, cw_offset_pent: (2, 6) },
        15 => BaseCellData { home_fijk: FaceIJK { face: 4, coord: CoordIJK { i: 1, j: 0, k: 0 } }, is_pentagon: false, cw_offset_pent: (0, 0) },
        16 => BaseCellData { home_fijk: FaceIJK { face: 0, coord: CoordIJK { i: 0, j: 0, k: 0 } }, is_pentagon: false, cw_offset_pent: (0, 0) },
        17 => BaseCellData { home_fijk: FaceIJK { face: 6, coord: CoordIJK { i: 0, j: 1, k: 0 } }, is_pentagon: false, cw_offset_pent: (0, 0) },
        18 => BaseCellData { home_fijk: FaceIJK { face: 0, coord: CoordIJK { i: 0, j: 0, k: 1 } }, is_pentagon: false, cw_offset_pent: (0, 0) },
        19 => BaseCellData { home_fijk: FaceIJK { face: 2, coord: CoordIJK { i: 0, j: 1, k: 1 } }, is_pentagon: false, cw_offset_pent: (0, 0) },
        20 => BaseCellData { home_fijk: FaceIJK { face: 7, coord: CoordIJK { i: 0, j: 0, k: 1 } }, is_pentagon: false, cw_offset_pent: (0, 0) },
        21 => BaseCellData { home_fijk: FaceIJK { face: 2, coord: CoordIJK { i: 0, j: 0, k: 1 } }, is_pentagon: false, cw_offset_pent: (0, 0) },
        22 => BaseCellData { home_fijk: FaceIJK { face: 0, coord: CoordIJK { i: 1, j: 1, k: 0 } }, is_pentagon: false, cw_offset_pent: (0, 0) },
        23 => BaseCellData { home_fijk: FaceIJK { face: 6, coord: CoordIJK { i: 0, j: 0, k: 1 } }, is_pentagon: false, cw_offset_pent: (0, 0) },
        24 => BaseCellData { home_fijk: FaceIJK { face: 10, coord: CoordIJK { i: 2, j: 0, k: 0 } }, is_pentagon: true, cw_offset_pent: (1, 5) },
        25 => BaseCellData { home_fijk: FaceIJK { face: 6, coord: CoordIJK { i: 0, j: 0, k: 0 } }, is_pentagon: false, cw_offset_pent: (0, 0) },
        26 => BaseCellData { home_fijk: FaceIJK { face: 3, coord: CoordIJK { i: 0, j: 0, k: 0 } }, is_pentagon: false, cw_offset_pent: (0, 0) },
        27 => BaseCellData { home_fijk: FaceIJK { face: 11, coord: CoordIJK { i: 1, j: 0, k: 0 } }, is_pentagon: false, cw_offset_pent: (0, 0) },
        28 => BaseCellData { home_fijk: FaceIJK { face: 4, coord: CoordIJK { i: 1, j: 1, k: 0 } }, is_pentagon: false, cw_offset_pent: (0, 0) },
        29 => BaseCellData { home_fijk: FaceIJK { face: 3, coord: CoordIJK { i: 0, j: 1, k: 0 } }, is_pentagon: false, cw_offset_pent: (0, 0) },
        30 => BaseCellData { home_fijk: FaceIJK { face: 0, coord: CoordIJK { i: 0, j: 1, k: 1 } }, is_pentagon: false, cw_offset_pent: (0, 0) },
        31 => BaseCellData { home_fijk: FaceIJK { face: 4, coord: CoordIJK { i: 0, j: 0, k: 0 } }, is_pentagon: false, cw_offset_pent: (0, 0) },
        32 => BaseCellData { home_fijk: FaceIJK { face: 5, coord: CoordIJK { i: 0, j: 1, k: 0 } }, is_pentagon: false, cw_offset_pent: (0, 0) },
        33 => BaseCellData { home_fijk: FaceIJK { face: 0, coord: CoordIJK { i: 0, j: 1, k: 0 } }, is_pentagon: false, cw_offset_pent: (0, 0) },
        34 => BaseCellData { home_fijk: FaceIJK { face: 7, coord: CoordIJK { i: 0, j: 1, k: 0 } }, is_pentagon: false, cw_offset_pent: (0, 0) },
        35 => BaseCellData { home_fijk: FaceIJK { face: 11, coord: CoordIJK { i: 1, j: 1, k: 0 } }, is_pentagon: false, cw_offset_pent: (0, 0) },
        36 => BaseCellData { home_fijk: FaceIJK { face: 7, coord: CoordIJK { i: 0, j: 0, k: 0 } }, is_pentagon: false, cw_offset_pent: (0, 0) },
        37 => BaseCellData { home_fijk: FaceIJK { face: 10, coord: CoordIJK { i: 1, j: 0, k: 0 } }, is_pentagon: false, cw_offset_pent: (0, 0) },
        38 => BaseCellData { home_fijk: FaceIJK { face: 12, coord: CoordIJK { i: 2, j: 0, k: 0 } }, is_pentagon: true, cw_offset_pent: (3, 7) },
        39 => BaseCellData { home_fijk: FaceIJK { face: 6, coord: CoordIJK { i: 1, j: 0, k: 1 } }, is_pentagon: false, cw_offset_pent: (0, 0) },
        40 => BaseCellData { home_fijk: FaceIJK { face: 7, coord: CoordIJK { i: 1, j: 0, k: 1 } }, is_pentagon: false, cw_offset_pent: (0, 0) },
        41 => BaseCellData { home_fijk: FaceIJK { face: 4, coord: CoordIJK { i: 0, j: 0, k: 1 } }, is_pentagon: false, cw_offset_pent: (0, 0) },
        42 => BaseCellData { home_fijk: FaceIJK { face: 3, coord: CoordIJK { i: 0, j: 0, k: 1 } }, is_pentagon: false, cw_offset_pent: (0, 0) },
        43 => BaseCellData { home_fijk: FaceIJK { face: 3, coord: CoordIJK { i: 0, j: 1, k: 1 } }, is_pentagon: false, cw_offset_pent: (0, 0) },
        44 => BaseCellData { home_fijk: FaceIJK { face: 4, coord: CoordIJK { i: 0, j: 1, k: 0 } }, is_pentagon: false, cw_offset_pent: (0, 0) },
        45 => BaseCellData { home_fijk: FaceIJK { face: 6, coord: CoordIJK { i: 1, j: 0, k: 0 } }, is_pentagon: false, cw_offset_pent: (0, 0) },
        46 => BaseCellData { home_fijk: FaceIJK { face: 11, coord: CoordIJK { i: 0, j: 0, k: 0 } }, is_pentagon: false, cw_offset_pent: (0, 0) },
        47 => BaseCellData { home_fijk: FaceIJK { face: 8, coord: CoordIJK { i: 0, j: 0, k: 1 } }, is_pentagon: false, cw_offset_pent: (0, 0) },
        48 => BaseCellData { home_fijk: FaceIJK { face: 5, coord: CoordIJK { i: 0, j: 0, k: 1 } }, is_pentagon: false, cw_offset_pent: (0, 0) },
        49 => BaseCellData { home_fijk: FaceIJK { face: 14, coord: CoordIJK { i: 2, j: 0, k: 0 } }, is_pentagon: true, cw_offset_pent: (0, 9) },
        50 => BaseCellData { home_fijk: FaceIJK { face: 5, coord: CoordIJK { i: 0, j: 0, k: 0 } }, is_pentagon: false, cw_offset_pent: (0, 0) },
        51 => BaseCellData { home_fijk: FaceIJK { face: 12, coord: CoordIJK { i: 1, j: 0, k: 0 } }, is_pentagon: false, cw_offset_pent: (0, 0) },
        52 => BaseCellData { home_fijk: FaceIJK { face: 10, coord: CoordIJK { i: 1, j: 1, k: 0 } }, is_pentagon: false, cw_offset_pent: (0, 0) },
        53 => BaseCellData { home_fijk: FaceIJK { face: 4, coord: CoordIJK { i: 0, j: 1, k: 1 } }, is_pentagon: false, cw_offset_pent: (0, 0) },
        54 => BaseCellData { home_fijk: FaceIJK { face: 12, coord: CoordIJK { i: 1, j: 1, k: 0 } }, is_pentagon: false, cw_offset_pent: (0, 0) },
        55 => BaseCellData { home_fijk: FaceIJK { face: 7, coord: CoordIJK { i: 1, j: 0, k: 0 } }, is_pentagon: false, cw_offset_pent: (0, 0) },
        56 => BaseCellData { home_fijk: FaceIJK { face: 11, coord: CoordIJK { i: 0, j: 1, k: 0 } }, is_pentagon: false, cw_offset_pent: (0, 0) },
        57 => BaseCellData { home_fijk: FaceIJK { face: 10, coord: CoordIJK { i: 0, j: 0, k: 0 } }, is_pentagon: false, cw_offset_pent: (0, 0) },
        58 => BaseCellData { home_fijk: FaceIJK { face: 13, coord: CoordIJK { i: 2, j: 0, k: 0 } }, is_pentagon: true, cw_offset_pent: (4, 8) },
        59 => BaseCellData { home_fijk: FaceIJK { face: 10, coord: CoordIJK { i: 0, j: 0, k: 1 } }, is_pentagon: false, cw_offset_pent: (0, 0) },
        60 => BaseCellData { home_fijk: FaceIJK { face: 11, coord: CoordIJK { i: 0, j: 0, k: 1 } }, is_pentagon: false, cw_offset_pent: (0, 0) },
        61 => BaseCellData { home_fijk: FaceIJK { face: 9, coord: CoordIJK { i: 0, j: 1, k: 0 } }, is_pentagon: false, cw_offset_pent: (0, 0) },
        62 => BaseCellData { home_fijk: FaceIJK { face: 8, coord: CoordIJK { i: 0, j: 1, k: 0 } }, is_pentagon: false, cw_offset_pent: (0, 0) },
        63 => BaseCellData { home_fijk: FaceIJK { face: 6, coord: CoordIJK { i: 2, j: 0, k: 0 } }, is_pentagon: true, cw_offset_pent: (11, 15) },
        64 => BaseCellData { home_fijk: FaceIJK { face: 8, coord: CoordIJK { i: 0, j: 0, k: 0 } }, is_pentagon: false, cw_offset_pent: (0, 0) },
        65 => BaseCellData { home_fijk: FaceIJK { face: 9, coord: CoordIJK { i: 0, j: 0, k: 1 } }, is_pentagon: false, cw_offset_pent: (0, 0) },
        66 => BaseCellData { home_fijk: FaceIJK { face: 14, coord: CoordIJK { i: 1, j: 0, k: 0 } }, is_pentagon: false, cw_offset_pent: (0, 0) },
        67 => BaseCellData { home_fijk: FaceIJK { face: 5, coord: CoordIJK { i: 1, j: 0, k: 1 } }, is_pentagon: false, cw_offset_pent: (0, 0) },
        68 => BaseCellData { home_fijk: FaceIJK { face: 16, coord: CoordIJK { i: 0, j: 1, k: 1 } }, is_pentagon: false, cw_offset_pent: (0, 0) },
        69 => BaseCellData { home_fijk: FaceIJK { face: 8, coord: CoordIJK { i: 1, j: 0, k: 1 } }, is_pentagon: false, cw_offset_pent: (0, 0) },
        70 => BaseCellData { home_fijk: FaceIJK { face: 5, coord: CoordIJK { i: 1, j: 0, k: 0 } }, is_pentagon: false, cw_offset_pent: (0, 0) },
        71 => BaseCellData { home_fijk: FaceIJK { face: 12, coord: CoordIJK { i: 0, j: 0, k: 0 } }, is_pentagon: false, cw_offset_pent: (0, 0) },
        72 => BaseCellData { home_fijk: FaceIJK { face: 7, coord: CoordIJK { i: 2, j: 0, k: 0 } }, is_pentagon: true, cw_offset_pent: (12, 16) },
        73 => BaseCellData { home_fijk: FaceIJK { face: 12, coord: CoordIJK { i: 0, j: 1, k: 0 } }, is_pentagon: false, cw_offset_pent: (0, 0) },
        74 => BaseCellData { home_fijk: FaceIJK { face: 10, coord: CoordIJK { i: 0, j: 1, k: 0 } }, is_pentagon: false, cw_offset_pent: (0, 0) },
        75 => BaseCellData { home_fijk: FaceIJK { face: 9, coord: CoordIJK { i: 0, j: 0, k: 0 } }, is_pentagon: false, cw_offset_pent: (0, 0) },
        76 => BaseCellData { home_fijk: FaceIJK { face: 13, coord: CoordIJK { i: 1, j: 0, k: 0 } }, is_pentagon: false, cw_offset_pent: (0, 0) },
        77 => BaseCellData { home_fijk: FaceIJK { face: 16, coord: CoordIJK { i: 0, j: 0, k: 1 } }, is_pentagon: false, cw_offset_pent: (0, 0) },
        78 => BaseCellData { home_fijk: FaceIJK { face: 15, coord: CoordIJK { i: 0, j: 1, k: 1 } }, is_pentagon: false, cw_offset_pent: (0, 0) },
        79 => BaseCellData { home_fijk: FaceIJK { face: 15, coord: CoordIJK { i: 0, j: 1, k: 0 } }, is_pentagon: false, cw_offset_pent: (0, 0) },
        80 => BaseCellData { home_fijk: FaceIJK { face: 16, coord: CoordIJK { i: 0, j: 1, k: 0 } }, is_pentagon: false, cw_offset_pent: (0, 0) },
        81 => BaseCellData { home_fijk: FaceIJK { face: 14, coord: CoordIJK { i: 1, j: 1, k: 0 } }, is_pentagon: false, cw_offset_pent: (0, 0) },
        82 => BaseCellData { home_fijk: FaceIJK { face: 13, coord: CoordIJK { i: 1, j: 1, k: 0 } }, is_pentagon: false, cw_offset_pent: (0, 0) },
        83 => BaseCellData { home_fijk: FaceIJK { face: 5, coord: CoordIJK { i: 2, j: 0, k: 0 } }, is_pentagon: true, cw_offset_pent: (10, 19) },
        84 => BaseCellData { home_fijk: FaceIJK { face: 8, coord: CoordIJK { i: 1, j: 0, k: 0 } }, is_pentagon: false, cw_offset_pent: (0, 0) },
        85 => BaseCellData { home_fijk: FaceIJK { face: 14, coord: CoordIJK { i: 0, j: 0, k: 0 } }, is_pentagon: false, cw_offset_pent: (0, 0) },
        86 => BaseCellData { home_fijk: FaceIJK { face: 9, coord: CoordIJK { i: 1, j: 0, k: 1 } }, is_pentagon: false, cw_offset_pent: (0, 0) },
        87 => BaseCellData { home_fijk: FaceIJK { face: 14, coord: CoordIJK { i: 0, j: 0, k: 1 } }, is_pentagon: false, cw_offset_pent: (0, 0) },
        88 => BaseCellData { home_fijk: FaceIJK { face: 17, coord: CoordIJK { i: 0, j: 0, k: 1 } }, is_pentagon: false, cw_offset_pent: (0, 0) },
        89 => BaseCellData { home_fijk: FaceIJK { face: 12, coord: CoordIJK { i: 0, j: 0, k: 1 } }, is_pentagon: false, cw_offset_pent: (0, 0) },
        90 => BaseCellData { home_fijk: FaceIJK { face: 16, coord: CoordIJK { i: 0, j: 0, k: 0 } }, is_pentagon: false, cw_offset_pent: (0, 0) },
        91 => BaseCellData { home_fijk: FaceIJK { face: 17, coord: CoordIJK { i: 0, j: 1, k: 1 } }, is_pentagon: false, cw_offset_pent: (0, 0) },
        92 => BaseCellData { home_fijk: FaceIJK { face: 15, coord: CoordIJK { i: 0, j: 0, k: 1 } }, is_pentagon: false, cw_offset_pent: (0, 0) },
        93 => BaseCellData { home_fijk: FaceIJK { face: 16, coord: CoordIJK { i: 1, j: 0, k: 1 } }, is_pentagon: false, cw_offset_pent: (0, 0) },
        94 => BaseCellData { home_fijk: FaceIJK { face: 9, coord: CoordIJK { i: 1, j: 0, k: 0 } }, is_pentagon: false, cw_offset_pent: (0, 0) },
        95 => BaseCellData { home_fijk: FaceIJK { face: 15, coord: CoordIJK { i: 0, j: 0, k: 0 } }, is_pentagon: false, cw_offset_pent: (0, 0) },
        96 => BaseCellData { home_fijk: FaceIJK { face: 13, coord: CoordIJK { i: 0, j: 0, k: 0 } }, is_pentagon: false, cw_offset_pent: (0, 0) },
        97 => BaseCellData { home_fijk: FaceIJK { face: 8, coord: CoordIJK { i: 2, j: 0, k: 0 } }, is_pentagon: true, cw_offset_pent: (13, 17) },
        98 => BaseCellData { home_fijk: FaceIJK { face: 13, coord: CoordIJK { i: 0, j: 1, k: 0 } }, is_pentagon: false, cw_offset_pent: (0, 0) },
        99 => BaseCellData { home_fijk: FaceIJK { face: 17, coord: CoordIJK { i: 1, j: 0, k: 1 } }, is_pentagon: false, cw_offset_pent: (0, 0) },
        100 => BaseCellData { home_fijk: FaceIJK { face: 19, coord: CoordIJK { i: 0, j: 1, k: 0 } }, is_pentagon: false, cw_offset_pent: (0, 0) },
        101 => BaseCellData { home_fijk: FaceIJK { face: 14, coord: CoordIJK { i: 0, j: 1, k: 0 } }, is_pentagon: false, cw_offset_pent: (0, 0) },
        102 => BaseCellData { home_fijk: FaceIJK { face: 19, coord: CoordIJK { i: 0, j: 1, k: 1 } }, is_pentagon: false, cw_offset_pent: (0, 0) },
        103 => BaseCellData { home_fijk: FaceIJK { face: 17, coord: CoordIJK { i: 0, j: 1, k: 0 } }, is_pentagon: false, cw_offset_pent: (0, 0) },
        104 => BaseCellData { home_fijk: FaceIJK { face: 13, coord: CoordIJK { i: 0, j: 0, k: 1 } }, is_pentagon: false, cw_offset_pent: (0, 0) },
        105 => BaseCellData { home_fijk: FaceIJK { face: 17, coord: CoordIJK { i: 0, j: 0, k: 0 } }, is_pentagon: false, cw_offset_pent: (0, 0) },
        106 => BaseCellData { home_fijk: FaceIJK { face: 16, coord: CoordIJK { i: 1, j: 0, k: 0 } }, is_pentagon: false, cw_offset_pent: (0, 0) },
        107 => BaseCellData { home_fijk: FaceIJK { face: 9, coord: CoordIJK { i: 2, j: 0, k: 0 } }, is_pentagon: true, cw_offset_pent: (14, 18) },
        108 => BaseCellData { home_fijk: FaceIJK { face: 15, coord: CoordIJK { i: 1, j: 0, k: 1 } }, is_pentagon: false, cw_offset_pent: (0, 0) },
        109 => BaseCellData { home_fijk: FaceIJK { face: 15, coord: CoordIJK { i: 1, j: 0, k: 0 } }, is_pentagon: false, cw_offset_pent: (0, 0) },
        110 => BaseCellData { home_fijk: FaceIJK { face: 18, coord: CoordIJK { i: 0, j: 1, k: 1 } }, is_pentagon: false, cw_offset_pent: (0, 0) },
        111 => BaseCellData { home_fijk: FaceIJK { face: 18, coord: CoordIJK { i: 0, j: 0, k: 1 } }, is_pentagon: false, cw_offset_pent: (0, 0) },
        112 => BaseCellData { home_fijk: FaceIJK { face: 19, coord: CoordIJK { i: 0, j: 0, k: 1 } }, is_pentagon: false, cw_offset_pent: (0, 0) },
        113 => BaseCellData { home_fijk: FaceIJK { face: 17, coord: CoordIJK { i: 1, j: 0, k: 0 } }, is_pentagon: false, cw_offset_pent: (0, 0) },
        114 => BaseCellData { home_fijk: FaceIJK { face: 19, coord: CoordIJK { i: 0, j: 0, k: 0 } }, is_pentagon: false, cw_offset_pent: (0, 0) },
        115 => BaseCellData { home_fijk: FaceIJK { face: 18, coord: CoordIJK { i: 0, j: 1, k: 0 } }, is_pentagon: false, cw_offset_pent: (0, 0) },
        116 => BaseCellData { home_fijk: FaceIJK { face: 18, coord: CoordIJK { i: 1, j: 0, k: 1 } }, is_pentagon: false, cw_offset_pent: (0, 0) },
        117 => BaseCellData { home_fijk: FaceIJK { face: 19, coord: CoordIJK { i: 2, j: 0, k: 0 } }, is_pentagon: true, cw_offset_pent: (-1, -1) },
        118 => BaseCellData { home_fijk: FaceIJK { face: 19, coord: CoordIJK { i: 1, j: 0, k: 0 } }, is_pentagon: false, cw_offset_pent: (0, 0) },
        119 => BaseCellData { home_fijk: FaceIJK { face: 18, coord: CoordIJK { i: 0, j: 0, k: 0 } }, is_pentagon: false, cw_offset_pent: (0, 0) },
        120 => BaseCellData { home_fijk: FaceIJK { face: 19, coord: CoordIJK { i: 1, j: 0, k: 1 } }, is_pentagon: false, cw_offset_pent: (0, 0) },
        _ => BaseCellData { home_fijk: FaceIJK { face: 18, coord: CoordIJK { i: 1, j: 0, k: 0 } }, is_pentagon: false, cw_offset_pent: (0, 0) },
    }
}

/// Whether the indicated base cell is a pentagon; false if out of range.
pub fn is_base_cell_pentagon(base_cell: usize) -> (r: bool)
    ensures
        r == spec_is_base_cell_pentagon(base_cell as int),
{
    proof {
        reveal(spec_base_cell_data);
    }
    if base_cell >= 122 {
        return false;
    }
    base_cell_data(base_cell).is_pentagon
}

/// Whether the indicated base cell is a pentagon whose every neighbor is
/// oriented toward it: the two polar base cells.
pub fn is_base_cell_polar_pentagon(base_cell: usize) -> (r: bool)
    ensures
        r == (base_cell == 4 || base_cell == 117),
{
    base_cell == 4 || base_cell == 117
}

/// The neighboring base cell in each axis direction, paired with the number
/// of 60-degree counter-clockwise rotations into that neighbor's
/// orientation. Direction 0 is the cell itself; a pentagon's deleted K-axis
/// slot holds the invalid marker 127 with rotation -1.
#[verifier::opaque]
pub open spec fn spec_base_cell_neighbor(bc: int, dir: int) -> (int, int) {
    if bc == 0 {
        if dir == 0 { (0, 0) } else if dir == 1 { (1, 5) } else if dir == 2 { (5, 0) } else if dir == 3 { (2, 0) } else if dir == 4 { (4, 1) } else if dir == 5 { (3, 5) } else { (8, 1) }
    } else if bc == 1 {
        if dir == 0 { (1, 0) } else if dir == 1 { (7, 0) } else if dir == 2 { (6, 1) } else if dir == 3 { (9, 0) } else if dir == 4 { (0, 1) } else if dir == 5 { (3, 0) } else { (2, 1) }
    } else if bc == 2 {
        if dir == 0 { (2, 0) } else if dir == 1 { (6, 0) } else if dir == 2 { (10, 0) } else if dir == 3 { (11, 0) } else if dir == 4 { (0, 0) } else if dir == 5 { (1, 5) } else { (5, 0) }
    } else if bc == 3 {
        if dir == 0 { (3, 0) } else if dir == 1 { (13, 5) } else if dir == 2 { (1, 0) } else if dir == 3 { (7, 0) } else if dir == 4 { (4, 2) } else if dir == 5 { (12, 5) } else { (0, 1) }
    } else if bc == 4 {
        if dir == 0 { (4, 0) } else if dir == 1 { (127, -1) } else if dir == 2 { (15, 1) } else if dir == 3 { (8, 0) } else if dir == 4 { (3, 3) } else if dir == 5 { (0, 4) } else { (12, 2) }
    } else if bc == 5 {
        if dir == 0 { (5, 0) } else if dir == 1 { (2, 0) } else if dir == 2 { (18, 1) } else if dir == 3 { (10, 0) } else if dir == 4 { (8, 1) } else if dir == 5 { (0, 0) } else { (16, 1) }
    } else if bc == 6 {
        if dir == 0 { (6, 0) } else if dir == 1 { (14, 0) } else if dir == 2 { (11, 0) } else if dir == 3 { (17, 3) } else if dir == 4 { (1, 5) } else if dir == 5 { (9, 5) } else { (2, 0) }
    } else if bc == 7 {
        if dir == 0 { (7, 0) } else if dir == 1 { (21, 0) } else if dir == 2 { (9, 0) } else if dir == 3 { (19, 0) } else if dir == 4 { (3, 0) } else if dir == 5 { (13, 5) } else { (1, 0) }
    } else if bc == 8 {
        if dir == 0 { (8, 0) } else if dir == 1 { (5, 5) } else if dir == 2 { (22, 0) } else if dir == 3 { (16, 0) } else if dir == 4 { (4, 0) } else if dir == 5 { (0, 5) } else { (15, 1) }
    } else if bc == 9 {
        if dir == 0 { (9, 0) } else if dir == 1 { (19, 0) } else if dir == 2 { (14, 1) } else if dir == 3 { (20, 3) } else if dir == 4 { (1, 0) } else if dir == 5 { (7, 0) } else { (6, 1) }
    } else if bc == 10 {
        if dir == 0 { (10, 0) } else if dir == 1 { (11, 0) } else if dir == 2 { (24, 1) } else if dir == 3 { (23, 3) } else if dir == 4 { (5, 0) } else if dir == 5 { (2, 0) } else { (18, 1) }
    } else if bc == 11 {
        if dir == 0 { (11, 0) } else if dir == 1 { (17, 3) } else if dir == 2 { (23, 3) } else if dir == 3 { (25, 3) } else if dir == 4 { (2, 0) } else if dir == 5 { (6, 0) } else { (10, 0) }
    } else if bc == 12 {
        if dir == 0 { (12, 0) } else if dir == 1 { (28, 5) } else if dir == 2 { (13, 0) } else if dir == 3 { (26, 0) } else if dir == 4 { (4, 3) } else if dir == 5 { (15, 5) } else { (3, 1) }
    } else if bc == 13 {
        if dir == 0 { (13, 0) } else if dir == 1 { (26, 0) } else if dir == 2 { (21, 1) } else if dir == 3 { (29, 0) } else if dir == 4 { (3, 1) } else if dir == 5 { (12, 0) } else { (7, 1) }
    } else if bc == 14 {
        if dir == 0 { (14, 0) } else if dir == 1 { (127, -1) } else if dir == 2 { (17, 3) } else if dir == 3 { (27, 0) } else if dir == 4 { (9, 5) } else if dir == 5 { (20, 2) } else { (6, 0) }
    } else if bc == 15 {
        if dir == 0 { (15, 0) } else if dir == 1 { (22, 5) } else if dir == 2 { (28, 0) } else if dir == 3 { (31, 0) } else if dir == 4 { (4, 4) } else if dir == 5 { (8, 5) } else { (12, 1) }
    } else if bc == 16 {
        if dir == 0 { (16, 0) } else if dir == 1 { (18, 0) } else if dir == 2 { (33, 0) } else if dir == 3 { (30, 0) } else if dir == 4 { (8, 0) } else if dir == 5 { (5, 5) } else { (22, 0) }
    } else if bc == 17 {
        if dir == 0 { (17, 0) } else if dir == 1 { (11, 3) } else if dir == 2 { (14, 3) } else if dir == 3 { (6, 3) } else if dir == 4 { (35, 3) } else if dir == 5 { (25, 0) } else { (27, 3) }
    } else if bc == 18 {
        if dir == 0 { (18, 0) } else if dir == 1 { (24, 0) } else if dir == 2 { (30, 0) } else if dir == 3 { (32, 3) } else if dir == 4 { (5, 5) } else if dir == 5 { (10, 5) } else { (16, 0) }
    } else if bc == 19 {
        if dir == 0 { (19, 0) } else if dir == 1 { (34, 3) } else if dir == 2 { (20, 3) } else if dir == 3 { (36, 3) } else if dir == 4 { (7, 0) } else if dir == 5 { (21, 0) } else { (9, 0) }
    } else if bc == 20 {
        if dir == 0 { (20, 0) } else if dir == 1 { (14, 3) } else if dir == 2 { (19, 3) } else if dir == 3 { (9, 3) } else if dir == 4 { (40, 0) } else if dir == 5 { (27, 3) } else { (36, 0) }
    } else if bc == 21 {
        if dir == 0 { (21, 0) } else if dir == 1 { (38, 0) } else if dir == 2 { (19, 0) } else if dir == 3 { (34, 3) } else if dir == 4 { (13, 5) } else if dir == 5 { (29, 5) } else { (7, 0) }
    } else if bc == 22 {
        if dir == 0 { (22, 0) } else if dir == 1 { (16, 0) } else if dir == 2 { (41, 1) } else if dir == 3 { (33, 0) } else if dir == 4 { (15, 1) } else if dir == 5 { (8, 0) } else { (31, 1) }
    } else if bc == 23 {
        if dir == 0 { (23, 0) } else if dir == 1 { (24, 3) } else if dir == 2 { (11, 3) } else if dir == 3 { (10, 3) } else if dir == 4 { (39, 0) } else if dir == 5 { (37, 3) } else { (25, 0) }
    } else if bc == 24 {
        if dir == 0 { (24, 0) } else if dir == 1 { (127, -1) } else if dir == 2 { (32, 3) } else if dir == 3 { (37, 0) } else if dir == 4 { (10, 5) } else if dir == 5 { (23, 2) } else { (18, 0) }
    } else if bc == 25 {
        if dir == 0 { (25, 0) } else if dir == 1 { (23, 0) } else if dir == 2 { (17, 0) } else if dir == 3 { (11, 3) } else if dir == 4 { (45, 0) } else if dir == 5 { (39, 0) } else { (35, 3) }
    } else if bc == 26 {
        if dir == 0 { (26, 0) } else if dir == 1 { (42, 0) } else if dir == 2 { (29, 0) } else if dir == 3 { (43, 0) } else if dir == 4 { (12, 0) } else if dir == 5 { (28, 5) } else { (13, 0) }
    } else if bc == 27 {
        if dir == 0 { (27, 0) } else if dir == 1 { (40, 3) } else if dir == 2 { (35, 0) } else if dir == 3 { (46, 0) } else if dir == 4 { (14, 0) } else if dir == 5 { (20, 3) } else { (17, 3) }
    } else if bc == 28 {
        if dir == 0 { (28, 0) } else if dir == 1 { (31, 0) } else if dir == 2 { (42, 1) } else if dir == 3 { (44, 0) } else if dir == 4 { (12, 1) } else if dir == 5 { (15, 0) } else { (26, 1) }
    } else if bc == 29 {
        if dir == 0 { (29, 0) } else if dir == 1 { (43, 0) } else if dir == 2 { (38, 1) } else if dir == 3 { (47, 3) } else if dir == 4 { (13, 0) } else if dir == 5 { (26, 0) } else { (21, 1) }
    } else if bc == 30 {
        if dir == 0 { (30, 0) } else if dir == 1 { (32, 3) } else if dir == 2 { (48, 3) } else if dir == 3 { (50, 3) } else if dir == 4 { (16, 0) } else if dir == 5 { (18, 0) } else { (33, 0) }
    } else if bc == 31 {
        if dir == 0 { (31, 0) } else if dir == 1 { (41, 0) } else if dir == 2 { (44, 0) } else if dir == 3 { (53, 0) } else if dir == 4 { (15, 0) } else if dir == 5 { (22, 5) } else { (28, 0) }
    } else if bc == 32 {
        if dir == 0 { (32, 0) } else if dir == 1 { (30, 3) } else if dir == 2 { (24, 3) } else if dir == 3 { (18, 3) } else if dir == 4 { (52, 3) } else if dir == 5 { (50, 0) } else { (37, 3) }
    } else if bc == 33 {
        if dir == 0 { (33, 0) } else if dir == 1 { (30, 0) } else if dir == 2 { (49, 1) } else if dir == 3 { (48, 3) } else if dir == 4 { (22, 0) } else if dir == 5 { (16, 0) } else { (41, 1) }
    } else if bc == 34 {
        if dir == 0 { (34, 0) } else if dir == 1 { (19, 3) } else if dir == 2 { (38, 3) } else if dir == 3 { (21, 3) } else if dir == 4 { (54, 3) } else if dir == 5 { (36, 0) } else { (51, 3) }
    } else if bc == 35 {
        if dir == 0 { (35, 0) } else if dir == 1 { (46, 0) } else if dir == 2 { (45, 3) } else if dir == 3 { (56, 0) } else if dir == 4 { (17, 3) } else if dir == 5 { (27, 0) } else { (25, 3) }
    } else if bc == 36 {
        if dir == 0 { (36, 0) } else if dir == 1 { (20, 0) } else if dir == 2 { (34, 0) } else if dir == 3 { (19, 3) } else if dir == 4 { (55, 0) } else if dir == 5 { (40, 0) } else { (54, 3) }
    } else if bc == 37 {
        if dir == 0 { (37, 0) } else if dir == 1 { (39, 3) } else if dir == 2 { (52, 0) } else if dir == 3 { (57, 0) } else if dir == 4 { (24, 0) } else if dir == 5 { (23, 3) } else { (32, 3) }
    } else if bc == 38 {
        if dir == 0 { (38, 0) } else if dir == 1 { (127, -1) } else if dir == 2 { (34, 3) } else if dir == 3 { (51, 0) } else if dir == 4 { (29, 5) } else if dir == 5 { (47, 2) } else { (21, 0) }
    } else if bc == 39 {
        if dir == 0 { (39, 0) } else if dir == 1 { (37, 3) } else if dir == 2 { (25, 0) } else if dir == 3 { (23, 0) } else if dir == 4 { (59, 3) } else if dir == 5 { (57, 3) } else { (45, 0) }
    } else if bc == 40 {
        if dir == 0 { (40, 0) } else if dir == 1 { (27, 3) } else if dir == 2 { (36, 0) } else if dir == 3 { (20, 0) } else if dir == 4 { (60, 3) } else if dir == 5 { (46, 3) } else { (55, 0) }
    } else if bc == 41 {
        if dir == 0 { (41, 0) } else if dir == 1 { (49, 0) } else if dir == 2 { (53, 0) } else if dir == 3 { (61, 3) } else if dir == 4 { (22, 5) } else if dir == 5 { (33, 5) } else { (31, 0) }
    } else if bc == 42 {
        if dir == 0 { (42, 0) } else if dir == 1 { (58, 0) } else if dir == 2 { (43, 0) } else if dir == 3 { (62, 3) } else if dir == 4 { (28, 5) } else if dir == 5 { (44, 5) } else { (26, 0) }
    } else if bc == 43 {
        if dir == 0 { (43, 0) } else if dir == 1 { (62, 3) } else if dir == 2 { (47, 3) } else if dir == 3 { (64, 3) } else if dir == 4 { (26, 0) } else if dir == 5 { (42, 0) } else { (29, 0) }
    } else if bc == 44 {
        if dir == 0 { (44, 0) } else if dir == 1 { (53, 0) } else if dir == 2 { (58, 1) } else if dir == 3 { (65, 3) } else if dir == 4 { (28, 0) } else if dir == 5 { (31, 0) } else { (42, 1) }
    } else if bc == 45 {
        if dir == 0 { (45, 0) } else if dir == 1 { (39, 0) } else if dir == 2 { (35, 3) } else if dir == 3 { (25, 0) } else if dir == 4 { (63, 0) } else if dir == 5 { (59, 3) } else { (56, 3) }
    } else if bc == 46 {
        if dir == 0 { (46, 0) } else if dir == 1 { (60, 0) } else if dir == 2 { (56, 0) } else if dir == 3 { (68, 3) } else if dir == 4 { (27, 0) } else if dir == 5 { (40, 3) } else { (35, 0) }
    } else if bc == 47 {
        if dir == 0 { (47, 0) } else if dir == 1 { (38, 3) } else if dir == 2 { (43, 3) } else if dir == 3 { (29, 3) } else if dir == 4 { (69, 0) } else if dir == 5 { (51, 3) } else { (64, 0) }
    } else if bc == 48 {
        if dir == 0 { (48, 0) } else if dir == 1 { (49, 3) } else if dir == 2 { (30, 3) } else if dir == 3 { (33, 3) } else if dir == 4 { (67, 0) } else if dir == 5 { (66, 3) } else { (50, 0) }
    } else if bc == 49 {
        if dir == 0 { (49, 0) } else if dir == 1 { (127, -1) } else if dir == 2 { (61, 3) } else if dir == 3 { (66, 0) } else if dir == 4 { (33, 5) } else if dir == 5 { (48, 2) } else { (41, 0) }
    } else if bc == 50 {
        if dir == 0 { (50, 0) } else if dir == 1 { (48, 0) } else if dir == 2 { (32, 0) } else if dir == 3 { (30, 3) } else if dir == 4 { (70, 0) } else if dir == 5 { (67, 0) } else { (52, 3) }
    } else if bc == 51 {
        if dir == 0 { (51, 0) } else if dir == 1 { (69, 3) } else if dir == 2 { (54, 0) } else if dir == 3 { (71, 0) } else if dir == 4 { (38, 0) } else if dir == 5 { (47, 3) } else { (34, 3) }
    } else if bc == 52 {
        if dir == 0 { (52, 0) } else if dir == 1 { (57, 0) } else if dir == 2 { (70, 3) } else if dir == 3 { (74, 0) } else if dir == 4 { (32, 3) } else if dir == 5 { (37, 0) } else { (50, 3) }
    } else if bc == 53 {
        if dir == 0 { (53, 0) } else if dir == 1 { (61, 3) } else if dir == 2 { (65, 3) } else if dir == 3 { (75, 3) } else if dir == 4 { (31, 0) } else if dir == 5 { (41, 0) } else { (44, 0) }
    } else if bc == 54 {
        if dir == 0 { (54, 0) } else if dir == 1 { (71, 0) } else if dir == 2 { (55, 3) } else if dir == 3 { (73, 0) } else if dir == 4 { (34, 3) } else if dir == 5 { (51, 0) } else { (36, 3) }
    } else if bc == 55 {
        if dir == 0 { (55, 0) } else if dir == 1 { (40, 0) } else if dir == 2 { (54, 3) } else if dir == 3 { (36, 0) } else if dir == 4 { (72, 0) } else if dir == 5 { (60, 3) } else { (73, 3) }
    } else if bc == 56 {
        if dir == 0 { (56, 0) } else if dir == 1 { (68, 3) } else if dir == 2 { (63, 3) } else if dir == 3 { (77, 3) } else if dir == 4 { (35, 0) } else if dir == 5 { (46, 0) } else { (45, 3) }
    } else if bc == 57 {
        if dir == 0 { (57, 0) } else if dir == 1 { (59, 0) } else if dir == 2 { (74, 0) } else if dir == 3 { (78, 3) } else if dir == 4 { (37, 0) } else if dir == 5 { (39, 3) } else { (52, 0) }
    } else if bc == 58 {
        if dir == 0 { (58, 0) } else if dir == 1 { (127, -1) } else if dir == 2 { (62, 3) } else if dir == 3 { (76, 0) } else if dir == 4 { (44, 5) } else if dir == 5 { (65, 2) } else { (42, 0) }
    } else if bc == 59 {
        if dir == 0 { (59, 0) } else if dir == 1 { (63, 3) } else if dir == 2 { (78, 3) } else if dir == 3 { (79, 3) } else if dir == 4 { (39, 3) } else if dir == 5 { (45, 3) } else { (57, 0) }
    } else if bc == 60 {
        if dir == 0 { (60, 0) } else if dir == 1 { (72, 3) } else if dir == 2 { (68, 3) } else if dir == 3 { (80, 3) } else if dir == 4 { (40, 3) } else if dir == 5 { (55, 3) } else { (46, 0) }
    } else if bc == 61 {
        if dir == 0 { (61, 0) } else if dir == 1 { (53, 3) } else if dir == 2 { (49, 3) } else if dir == 3 { (41, 3) } else if dir == 4 { (81, 3) } else if dir == 5 { (75, 0) } else { (66, 3) }
    } else if bc == 62 {
        if dir == 0 { (62, 0) } else if dir == 1 { (43, 3) } else if dir == 2 { (58, 3) } else if dir == 3 { (42, 3) } else if dir == 4 { (82, 3) } else if dir == 5 { (64, 0) } else { (76, 3) }
    } else if bc == 63 {
        if dir == 0 { (63, 0) } else if dir == 1 { (127, -1) } else if dir == 2 { (56, 3) } else if dir == 3 { (45, 0) } else if dir == 4 { (79, 5) } else if dir == 5 { (59, 2) } else { (77, 0) }
    } else if bc == 64 {
        if dir == 0 { (64, 0) } else if dir == 1 { (47, 0) } else if dir == 2 { (62, 0) } else if dir == 3 { (43, 3) } else if dir == 4 { (84, 0) } else if dir == 5 { (69, 0) } else { (82, 3) }
    } else if bc == 65 {
        if dir == 0 { (65, 0) } else if dir == 1 { (58, 3) } else if dir == 2 { (53, 3) } else if dir == 3 { (44, 3) } else if dir == 4 { (86, 0) } else if dir == 5 { (76, 3) } else { (75, 0) }
    } else if bc == 66 {
        if dir == 0 { (66, 0) } else if dir == 1 { (67, 3) } else if dir == 2 { (81, 0) } else if dir == 3 { (85, 0) } else if dir == 4 { (49, 0) } else if dir == 5 { (48, 3) } else { (61, 3) }
    } else if bc == 67 {
        if dir == 0 { (67, 0) } else if dir == 1 { (66, 3) } else if dir == 2 { (50, 0) } else if dir == 3 { (48, 0) } else if dir == 4 { (87, 3) } else if dir == 5 { (85, 3) } else { (70, 0) }
    } else if bc == 68 {
        if dir == 0 { (68, 0) } else if dir == 1 { (56, 3) } else if dir == 2 { (60, 3) } else if dir == 3 { (46, 3) } else if dir == 4 { (90, 0) } else if dir == 5 { (77, 0) } else { (80, 0) }
    } else if bc == 69 {
        if dir == 0 { (69, 0) } else if dir == 1 { (51, 3) } else if dir == 2 { (64, 0) } else if dir == 3 { (47, 0) } else if dir == 4 { (89, 3) } else if dir == 5 { (71, 3) } else { (84, 0) }
    } else if bc == 70 {
        if dir == 0 { (70, 0) } else if dir == 1 { (67, 0) } else if dir == 2 { (52, 3) } else if dir == 3 { (50, 0) } else if dir == 4 { (83, 0) } else if dir == 5 { (87, 3) } else { (74, 3) }
    } else if bc == 71 {
        if dir == 0 { (71, 0) } else if dir == 1 { (89, 0) } else if dir == 2 { (73, 0) } else if dir == 3 { (91, 3) } else if dir == 4 { (51, 0) } else if dir == 5 { (69, 3) } else { (54, 0) }
    } else if bc == 72 {
        if dir == 0 { (72, 0) } else if dir == 1 { (127, -1) } else if dir == 2 { (73, 3) } else if dir == 3 { (55, 0) } else if dir == 4 { (80, 5) } else if dir == 5 { (60, 2) } else { (88, 0) }
    } else if bc == 73 {
        if dir == 0 { (73, 0) } else if dir == 1 { (91, 3) } else if dir == 2 { (72, 3) } else if dir == 3 { (88, 3) } else if dir == 4 { (54, 0) } else if dir == 5 { (71, 0) } else { (55, 3) }
    } else if bc == 74 {
        if dir == 0 { (74, 0) } else if dir == 1 { (78, 3) } else if dir == 2 { (83, 3) } else if dir == 3 { (92, 3) } else if dir == 4 { (52, 0) } else if dir == 5 { (57, 0) } else { (70, 3) }
    } else if bc == 75 {
        if dir == 0 { (75, 0) } else if dir == 1 { (65, 0) } else if dir == 2 { (61, 0) } else if dir == 3 { (53, 3) } else if dir == 4 { (94, 0) } else if dir == 5 { (86, 0) } else { (81, 3) }
    } else if bc == 76 {
        if dir == 0 { (76, 0) } else if dir == 1 { (86, 3) } else if dir == 2 { (82, 0) } else if dir == 3 { (96, 0) } else if dir == 4 { (58, 0) } else if dir == 5 { (65, 3) } else { (62, 3) }
    } else if bc == 77 {
        if dir == 0 { (77, 0) } else if dir == 1 { (63, 0) } else if dir == 2 { (68, 0) } else if dir == 3 { (56, 3) } else if dir == 4 { (93, 0) } else if dir == 5 { (79, 5) } else { (90, 0) }
    } else if bc == 78 {
        if dir == 0 { (78, 0) } else if dir == 1 { (74, 3) } else if dir == 2 { (59, 3) } else if dir == 3 { (57, 3) } else if dir == 4 { (95, 0) } else if dir == 5 { (92, 0) } else { (79, 0) }
    } else if bc == 79 {
        if dir == 0 { (79, 0) } else if dir == 1 { (78, 0) } else if dir == 2 { (63, 1) } else if dir == 3 { (59, 3) } else if dir == 4 { (93, 1) } else if dir == 5 { (95, 0) } else { (77, 1) }
    } else if bc == 80 {
        if dir == 0 { (80, 0) } else if dir == 1 { (68, 0) } else if dir == 2 { (72, 1) } else if dir == 3 { (60, 3) } else if dir == 4 { (99, 1) } else if dir == 5 { (90, 0) } else { (88, 1) }
    } else if bc == 81 {
        if dir == 0 { (81, 0) } else if dir == 1 { (85, 0) } else if dir == 2 { (94, 3) } else if dir == 3 { (101, 0) } else if dir == 4 { (61, 3) } else if dir == 5 { (66, 0) } else { (75, 3) }
    } else if bc == 82 {
        if dir == 0 { (82, 0) } else if dir == 1 { (96, 0) } else if dir == 2 { (84, 3) } else if dir == 3 { (98, 0) } else if dir == 4 { (62, 3) } else if dir == 5 { (76, 0) } else { (64, 3) }
    } else if bc == 83 {
        if dir == 0 { (83, 0) } else if dir == 1 { (127, -1) } else if dir == 2 { (74, 3) } else if dir == 3 { (70, 0) } else if dir == 4 { (100, 5) } else if dir == 5 { (87, 2) } else { (92, 0) }
    } else if bc == 84 {
        if dir == 0 { (84, 0) } else if dir == 1 { (69, 0) } else if dir == 2 { (82, 3) } else if dir == 3 { (64, 0) } else if dir == 4 { (97, 0) } else if dir == 5 { (89, 3) } else { (98, 3) }
    } else if bc == 85 {
        if dir == 0 { (85, 0) } else if dir == 1 { (87, 0) } else if dir == 2 { (101, 0) } else if dir == 3 { (102, 3) } else if dir == 4 { (66, 0) } else if dir == 5 { (67, 3) } else { (81, 0) }
    } else if bc == 86 {
        if dir == 0 { (86, 0) } else if dir == 1 { (76, 3) } else if dir == 2 { (75, 0) } else if dir == 3 { (65, 0) } else if dir == 4 { (104, 3) } else if dir == 5 { (96, 3) } else { (94, 0) }
    } else if bc == 87 {
        if dir == 0 { (87, 0) } else if dir == 1 { (83, 3) } else if dir == 2 { (102, 3) } else if dir == 3 { (100, 3) } else if dir == 4 { (67, 3) } else if dir == 5 { (70, 3) } else { (85, 0) }
    } else if bc == 88 {
        if dir == 0 { (88, 0) } else if dir == 1 { (72, 0) } else if dir == 2 { (91, 0) } else if dir == 3 { (73, 3) } else if dir == 4 { (99, 0) } else if dir == 5 { (80, 5) } else { (105, 0) }
    } else if bc == 89 {
        if dir == 0 { (89, 0) } else if dir == 1 { (97, 3) } else if dir == 2 { (91, 3) } else if dir == 3 { (103, 3) } else if dir == 4 { (69, 3) } else if dir == 5 { (84, 3) } else { (71, 0) }
    } else if bc == 90 {
        if dir == 0 { (90, 0) } else if dir == 1 { (77, 0) } else if dir == 2 { (80, 0) } else if dir == 3 { (68, 0) } else if dir == 4 { (106, 0) } else if dir == 5 { (93, 0) } else { (99, 1) }
    } else if bc == 91 {
        if dir == 0 { (91, 0) } else if dir == 1 { (73, 3) } else if dir == 2 { (89, 3) } else if dir == 3 { (71, 3) } else if dir == 4 { (105, 0) } else if dir == 5 { (88, 0) } else { (103, 0) }
    } else if bc == 92 {
        if dir == 0 { (92, 0) } else if dir == 1 { (83, 0) } else if dir == 2 { (78, 0) } else if dir == 3 { (74, 3) } else if dir == 4 { (108, 0) } else if dir == 5 { (100, 5) } else { (95, 0) }
    } else if bc == 93 {
        if dir == 0 { (93, 0) } else if dir == 1 { (79, 5) } else if dir == 2 { (90, 0) } else if dir == 3 { (77, 0) } else if dir == 4 { (109, 5) } else if dir == 5 { (95, 5) } else { (106, 0) }
    } else if bc == 94 {
        if dir == 0 { (94, 0) } else if dir == 1 { (86, 0) } else if dir == 2 { (81, 3) } else if dir == 3 { (75, 0) } else if dir == 4 { (107, 0) } else if dir == 5 { (104, 3) } else { (101, 3) }
    } else if bc == 95 {
        if dir == 0 { (95, 0) } else if dir == 1 { (92, 0) } else if dir == 2 { (79, 0) } else if dir == 3 { (78, 0) } else if dir == 4 { (109, 0) } else if dir == 5 { (108, 0) } else { (93, 1) }
    } else if bc == 96 {
        if dir == 0 { (96, 0) } else if dir == 1 { (104, 0) } else if dir == 2 { (98, 0) } else if dir == 3 { (110, 3) } else if dir == 4 { (76, 0) } else if dir == 5 { (86, 3) } else { (82, 0) }
    } else if bc == 97 {
        if dir == 0 { (97, 0) } else if dir == 1 { (127, -1) } else if dir == 2 { (98, 3) } else if dir == 3 { (84, 0) } else if dir == 4 { (103, 5) } else if dir == 5 { (89, 2) } else { (111, 0) }
    } else if bc == 98 {
        if dir == 0 { (98, 0) } else if dir == 1 { (110, 3) } else if dir == 2 { (97, 3) } else if dir == 3 { (111, 3) } else if dir == 4 { (82, 0) } else if dir == 5 { (96, 0) } else { (84, 3) }
    } else if bc == 99 {
        if dir == 0 { (99, 0) } else if dir == 1 { (80, 5) } else if dir == 2 { (105, 0) } else if dir == 3 { (88, 0) } else if dir == 4 { (106, 5) } else if dir == 5 { (90, 5) } else { (113, 0) }
    } else if bc == 100 {
        if dir == 0 { (100, 0) } else if dir == 1 { (102, 0) } else if dir == 2 { (83, 1) } else if dir == 3 { (87, 3) } else if dir == 4 { (108, 1) } else if dir == 5 { (114, 0) } else { (92, 1) }
    } else if bc == 101 {
        if dir == 0 { (101, 0) } else if dir == 1 { (102, 3) } else if dir == 2 { (107, 3) } else if dir == 3 { (112, 3) } else if dir == 4 { (81, 0) } else if dir == 5 { (85, 0) } else { (94, 3) }
    } else if bc == 102 {
        if dir == 0 { (102, 0) } else if dir == 1 { (101, 3) } else if dir == 2 { (87, 3) } else if dir == 3 { (85, 3) } else if dir == 4 { (114, 0) } else if dir == 5 { (112, 0) } else { (100, 0) }
    } else if bc == 103 {
        if dir == 0 { (103, 0) } else if dir == 1 { (91, 0) } else if dir == 2 { (97, 1) } else if dir == 3 { (89, 3) } else if dir == 4 { (116, 1) } else if dir == 5 { (105, 0) } else { (111, 1) }
    } else if bc == 104 {
        if dir == 0 { (104, 0) } else if dir == 1 { (107, 3) } else if dir == 2 { (110, 3) } else if dir == 3 { (115, 3) } else if dir == 4 { (86, 3) } else if dir == 5 { (94, 3) } else { (96, 0) }
    } else if bc == 105 {
        if dir == 0 { (105, 0) } else if dir == 1 { (88, 0) } else if dir == 2 { (103, 0) } else if dir == 3 { (91, 0) } else if dir == 4 { (113, 0) } else if dir == 5 { (99, 0) } else { (116, 1) }
    } else if bc == 106 {
        if dir == 0 { (106, 0) } else if dir == 1 { (93, 0) } else if dir == 2 { (99, 1) } else if dir == 3 { (90, 0) } else if dir == 4 { (117, 3) } else if dir == 5 { (109, 5) } else { (113, 1) }
    } else if bc == 107 {
        if dir == 0 { (107, 0) } else if dir == 1 { (127, -1) } else if dir == 2 { (101, 3) } else if dir == 3 { (94, 0) } else if dir == 4 { (115, 5) } else if dir == 5 { (104, 2) } else { (112, 0) }
    } else if bc == 108 {
        if dir == 0 { (108, 0) } else if dir == 1 { (100, 5) } else if dir == 2 { (95, 0) } else if dir == 3 { (92, 0) } else if dir == 4 { (118, 5) } else if dir == 5 { (114, 5) } else { (109, 0) }
    } else if bc == 109 {
        if dir == 0 { (109, 0) } else if dir == 1 { (108, 0) } else if dir == 2 { (93, 1) } else if dir == 3 { (95, 0) } else if dir == 4 { (117, 4) } else if dir == 5 { (118, 5) } else { (106, 1) }
    } else if bc == 110 {
        if dir == 0 { (110, 0) } else if dir == 1 { (98, 3) } else if dir == 2 { (104, 3) } else if dir == 3 { (96, 3) } else if dir == 4 { (119, 0) } else if dir == 5 { (111, 0) } else { (115, 0) }
    } else if bc == 111 {
        if dir == 0 { (111, 0) } else if dir == 1 { (97, 0) } else if dir == 2 { (110, 0) } else if dir == 3 { (98, 3) } else if dir == 4 { (116, 0) } else if dir == 5 { (103, 5) } else { (119, 0) }
    } else if bc == 112 {
        if dir == 0 { (112, 0) } else if dir == 1 { (107, 0) } else if dir == 2 { (102, 0) } else if dir == 3 { (101, 3) } else if dir == 4 { (120, 0) } else if dir == 5 { (115, 5) } else { (114, 0) }
    } else if bc == 113 {
        if dir == 0 { (113, 0) } else if dir == 1 { (99, 0) } else if dir == 2 { (116, 1) } else if dir == 3 { (105, 0) } else if dir == 4 { (117, 2) } else if dir == 5 { (106, 5) } else { (121, 1) }
    } else if bc == 114 {
        if dir == 0 { (114, 0) } else if dir == 1 { (112, 0) } else if dir == 2 { (100, 0) } else if dir == 3 { (102, 0) } else if dir == 4 { (118, 0) } else if dir == 5 { (120, 0) } else { (108, 1) }
    } else if bc == 115 {
        if dir == 0 { (115, 0) } else if dir == 1 { (110, 0) } else if dir == 2 { (107, 1) } else if dir == 3 { (104, 3) } else if dir == 4 { (120, 1) } else if dir == 5 { (119, 0) } else { (112, 1) }
    } else if bc == 116 {
        if dir == 0 { (116, 0) } else if dir == 1 { (103, 5) } else if dir == 2 { (119, 0) } else if dir == 3 { (111, 0) } else if dir == 4 { (113, 5) } else if dir == 5 { (105, 5) } else { (121, 0) }
    } else if bc == 117 {
        if dir == 0 { (117, 0) } else if dir == 1 { (127, -1) } else if dir == 2 { (109, 1) } else if dir == 3 { (118, 0) } else if dir == 4 { (113, 3) } else if dir == 5 { (121, 4) } else { (106, 2) }
    } else if bc == 118 {
        if dir == 0 { (118, 0) } else if dir == 1 { (120, 0) } else if dir == 2 { (108, 1) } else if dir == 3 { (114, 0) } else if dir == 4 { (117, 0) } else if dir == 5 { (121, 5) } else { (109, 1) }
    } else if bc == 119 {
        if dir == 0 { (119, 0) } else if dir == 1 { (111, 0) } else if dir == 2 { (115, 0) } else if dir == 3 { (110, 0) } else if dir == 4 { (121, 0) } else if dir == 5 { (116, 0) } else { (120, 1) }
    } else if bc == 120 {
        if dir == 0 { (120, 0) } else if dir == 1 { (115, 5) } else if dir == 2 { (114, 0) } else if dir == 3 { (112, 0) } else if dir == 4 { (121, 5) } else if dir == 5 { (119, 5) } else { (118, 0) }
    } else {
        if dir == 0 { (121, 0) } else if dir == 1 { (116, 0) } else if dir == 2 { (120, 1) } else if dir == 3 { (119, 0) } else if dir == 4 { (117, 1) } else if dir == 5 { (113, 5) } else { (118, 1) }
    }
}

/// The invalid-neighbor marker in the base cell adjacency table.
pub const INVALID_BASE_CELL: i32 = 127;

/// The neighboring base cell in the given axis direction, with the number
/// of 60-degree counter-clockwise rotations into its orientation. Direction
/// 0 returns the cell itself; the deleted K-axis direction of a pentagon
/// has no neighbor and returns the invalid marker.
pub fn neighbor(base_cell: usize, direction: usize) -> (r: BaseCellRotation)
    requires
        base_cell < 122,
        direction < 7,
    ensures
        r.base_cell as int == spec_base_cell_neighbor(base_cell as int, direction as int).0,
        r.ccw_rotation_60 as int == spec_base_cell_neighbor(base_cell as int, direction as int).1,
        0 <= r.base_cell < 122 || r.base_cell == 127,
        -1 <= r.ccw_rotation_60 <= 5,
        direction == 0 ==> r.base_cell as int == base_cell as int && r.ccw_rotation_60 == 0,
        (r.base_cell == 127 <==> spec_is_base_cell_pentagon(base_cell as int) && direction == 1),
        r.base_cell == 127 <==> r.ccw_rotation_60 == -1,
{
    proof {
        reveal(spec_base_cell_neighbor);
        reveal(spec_base_cell_data);
    }
    match base_cell {
        0 => match direction {
            0 => BaseCellRotation { base_cell: 0, ccw_rotation_60: 0 },
            1 => BaseCellRotation { base_cell: 1, ccw_rotation_60: 5 },
            2 => BaseCellRotation { base_cell: 5, ccw_rotation_60: 0 },
            3 => BaseCellRotation { base_cell: 2, ccw_rotation_60: 0 },
            4 => BaseCellRotation { base_cell: 4, ccw_rotation_60: 1 },
            5 => BaseCellRotation { base_cell: 3, ccw_rotation_60: 5 },
            _ => BaseCellRotation { base_cell: 8, ccw_rotation_60: 1 },
        },
        1 => match direction {
            0 => BaseCellRotation { base_cell: 1, ccw_rotation_60: 0 },
            1 => BaseCellRotation { base_cell: 7, ccw_rotation_60: 0 },
            2 => BaseCellRotation { base_cell: 6, ccw_rotation_60: 1 },
            3 => BaseCellRotation { base_cell: 9, ccw_rotation_60: 0 },
            4 => BaseCellRotation { base_cell: 0, ccw_rotation_60: 1 },
            5 => BaseCellRotation { base_cell: 3, ccw_rotation_60: 0 },
            _ => BaseCellRotation { base_cell: 2, ccw_rotation_60: 1 },
        },
        2 => match direction {
            0 => BaseCellRotation { base_cell: 2, ccw_rotation_60: 0 },
            1 => BaseCellRotation { base_cell: 6, ccw_rotation_60: 0 },
            2 => BaseCellRotation { base_cell: 10, ccw_rotation_60: 0 },
            3 => BaseCellRotation { base_cell: 11, ccw_rotation_60: 0 },
            4 => BaseCellRotation { base_cell: 0, ccw_rotation_60: 0 },
            5 => BaseCellRotation { base_cell: 1, ccw_rotation_60: 5 },
            _ => BaseCellRotation { base_cell: 5, ccw_rotation_60: 0 },
        },
        3 => match direction {
            0 => BaseCellRotation { base_cell: 3, ccw_rotation_60: 0 },
            1 => BaseCellRotation { base_cell: 13, ccw_rotation_60: 5 },
            2 => BaseCellRotation { base_cell: 1, ccw_rotation_60: 0 },
            3 => BaseCellRotation { base_cell: 7, ccw_rotation_60: 0 },
            4 => BaseCellRotation { base_cell: 4, ccw_rotation_60: 2 },
            5 => BaseCellRotation { base_cell: 12, ccw_rotation_60: 5 },
            _ => BaseCellRotation { base_cell: 0, ccw_rotation_60: 1 },
        },
        4 => match direction {
            0 => BaseCellRotation { base_cell: 4, ccw_rotation_60: 0 },
            1 => BaseCellRotation { base_cell: 127, ccw_rotation_60: -1 },
            2 => BaseCellRotation { base_cell: 15, ccw_rotation_60: 1 },
            3 => BaseCellRotation { base_cell: 8, ccw_rotation_60: 0 },
            4 => BaseCellRotation { base_cell: 3, ccw_rotation_60: 3 },
            5 => BaseCellRotation { base_cell: 0, ccw_rotation_60: 4 },
            _ => BaseCellRotation { base_cell: 12, ccw_rotation_60: 2 },
        },
        5 => match direction {
            0 => BaseCellRotation { base_cell: 5, ccw_rotation_60: 0 },
            1 => BaseCellRotation { base_cell: 2, ccw_rotation_60: 0 },
            2 => BaseCellRotation { base_cell: 18, ccw_rotation_60: 1 },
            3 => BaseCellRotation { base_cell: 10, ccw_rotation_60: 0 },
            4 => BaseCellRotation { base_cell: 8, ccw_rotation_60: 1 },
            5 => BaseCellRotation { base_cell: 0, ccw_rotation_60: 0 },
            _ => BaseCellRotation { base_cell: 16, ccw_rotation_60: 1 },
        },
        6 => match direction {
            0 => BaseCellRotation { base_cell: 6, ccw_rotation_60: 0 },
            1 => BaseCellRotation { base_cell: 14, ccw_rotation_60: 0 },
            2 => BaseCellRotation { base_cell: 11, ccw_rotation_60: 0 },
            3 => BaseCellRotation { base_cell: 17, ccw_rotation_60: 3 },
            4 => BaseCellRotation { base_cell: 1, ccw_rotation_60: 5 },
            5 => BaseCellRotation { base_cell: 9, ccw_rotation_60: 5 },
            _ => BaseCellRotation { base_cell: 2, ccw_rotation_60: 0 },
        },
        7 => match direction {
            0 => BaseCellRotation { base_cell: 7, ccw_rotation_60: 0 },
            1 => BaseCellRotation { base_cell: 21, ccw_rotation_60: 0 },
            2 => BaseCellRotation { base_cell: 9, ccw_rotation_60: 0 },
            3 => BaseCellRotation { base_cell: 19, ccw_rotation_60: 0 },
            4 => BaseCellRotation { base_cell: 3, ccw_rotation_60: 0 },
            5 => BaseCellRotation { base_cell: 13, ccw_rotation_60: 5 },
            _ => BaseCellRotation { base_cell: 1, ccw_rotation_60: 0 },
        },
        8 => match direction {
            0 => BaseCellRotation { base_cell: 8, ccw_rotation_60: 0 },
            1 => BaseCellRotation { base_cell: 5, ccw_rotation_60: 5 },
            2 => BaseCellRotation { base_cell: 22, ccw_rotation_60: 0 },
            3 => BaseCellRotation { base_cell: 16, ccw_rotation_60: 0 },
            4 => BaseCellRotation { base_cell: 4, ccw_rotation_60: 0 },
            5 => BaseCellRotation { base_cell: 0, ccw_rotation_60: 5 },
            _ => BaseCellRotation { base_cell: 15, ccw_rotation_60: 1 },
        },
        9 => match direction {
            0 => BaseCellRotation { base_cell: 9, ccw_rotation_60: 0 },
            1 => BaseCellRotation { base_cell: 19, ccw_rotation_60: 0 },
            2 => BaseCellRotation { base_cell: 14, ccw_rotation_60: 1 },
            3 => BaseCellRotation { base_cell: 20, ccw_rotation_60: 3 },
            4 => BaseCellRotation { base_cell: 1, ccw_rotation_60: 0 },
            5 => BaseCellRotation { base_cell: 7, ccw_rotation_60: 0 },
            _ => BaseCellRotation { base_cell: 6, ccw_rotation_60: 1 },
        },
        10 => match direction {
            0 => BaseCellRotation { base_cell: 10, ccw_rotation_60: 0 },
            1 => BaseCellRotation { base_cell: 11, ccw_rotation_60: 0 },
            2 => BaseCellRotation { base_cell: 24, ccw_rotation_60: 1 },
            3 => BaseCellRotation { base_cell: 23, ccw_rotation_60: 3 },
            4 => BaseCellRotation { base_cell: 5, ccw_rotation_60: 0 },
            5 => BaseCellRotation { base_cell: 2, ccw_rotation_60: 0 },
            _ => BaseCellRotation { base_cell: 18, ccw_rotation_60: 1 },
        },
        11 => match direction {
            0 => BaseCellRotation { base_cell: 11, ccw_rotation_60: 0 },
            1 => BaseCellRotation { base_cell: 17, ccw_rotation_60: 3 },
            2 => BaseCellRotation { base_cell: 23, ccw_rotation_60: 3 },
            3 => BaseCellRotation { base_cell: 25, ccw_rotation_60: 3 },
            4 => BaseCellRotation { base_cell: 2, ccw_rotation_60: 0 },
            5 => BaseCellRotation { base_cell: 6, ccw_rotation_60: 0 },
            _ => BaseCellRotation { base_cell: 10, ccw_rotation_60: 0 },
        },
        12 => match direction {
            0 => BaseCellRotation { base_cell: 12, ccw_rotation_60: 0 },
            1 => BaseCellRotation { base_cell: 28, ccw_rotation_60: 5 },
            2 => BaseCellRotation { base_cell: 13, ccw_rotation_60: 0 },
            3 => BaseCellRotation { base_cell: 26, ccw_rotation_60: 0 },
            4 => BaseCellRotation { base_cell: 4, ccw_rotation_60: 3 },
            5 => BaseCellRotation { base_cell: 15, ccw_rotation_60: 5 },
            _ => BaseCellRotation { base_cell: 3, ccw_rotation_60: 1 },
        },
        13 => match direction {
            0 => BaseCellRotation { base_cell: 13, ccw_rotation_60: 0 },
            1 => BaseCellRotation { base_cell: 26, ccw_rotation_60: 0 },
            2 => BaseCellRotation { base_cell: 21, ccw_rotation_60: 1 },
            3 => BaseCellRotation { base_cell: 29, ccw_rotation_60: 0 },
            4 => BaseCellRotation { base_cell: 3, ccw_rotation_60: 1 },
            5 => BaseCellRotation { base_cell: 12, ccw_rotation_60: 0 },
            _ => BaseCellRotation { base_cell: 7, ccw_rotation_60: 1 },
        },
        14 => match direction {
            0 => BaseCellRotation { base_cell: 14, ccw_rotation_60: 0 },
            1 => BaseCellRotation { base_cell: 127, ccw_rotation_60: -1 },
            2 => BaseCellRotation { base_cell: 17, ccw_rotation_60: 3 },
            3 => BaseCellRotation { base_cell: 27, ccw_rotation_60: 0 },
            4 => BaseCellRotation { base_cell: 9, ccw_rotation_60: 5 },
            5 => BaseCellRotation { base_cell: 20, ccw_rotation_60: 2 },
            _ => BaseCellRotation { base_cell: 6, ccw_rotation_60: 0 },
        },
        15 => match direction {
            0 => BaseCellRotation { base_cell: 15, ccw_rotation_60: 0 },
            1 => BaseCellRotation { base_cell: 22, ccw_rotation_60: 5 },
            2 => BaseCellRotation { base_cell: 28, ccw_rotation_60: 0 },
            3 => BaseCellRotation { base_cell: 31, ccw_rotation_60: 0 },
            4 => BaseCellRotation { base_cell: 4, ccw_rotation_60: 4 },
            5 => BaseCellRotation { base_cell: 8, ccw_rotation_60: 5 },
            _ => BaseCellRotation { base_cell: 12, ccw_rotation_60: 1 },
        },
        16 => match direction {
            0 => BaseCellRotation { base_cell: 16, ccw_rotation_60: 0 },
            1 => BaseCellRotation { base_cell: 18, ccw_rotation_60: 0 },
            2 => BaseCellRotation { base_cell: 33, ccw_rotation_60: 0 },
            3 => BaseCellRotation { base_cell: 30, ccw_rotation_60: 0 },
            4 => BaseCellRotation { base_cell: 8, ccw_rotation_60: 0 },
            5 => BaseCellRotation { base_cell: 5, ccw_rotation_60: 5 },
            _ => BaseCellRotation { base_cell: 22, ccw_rotation_60: 0 },
        },
        17 => match direction {
            0 => BaseCellRotation { base_cell: 17, ccw_rotation_60: 0 },
            1 => BaseCellRotation { base_cell: 11, ccw_rotation_60: 3 },
            2 => BaseCellRotation { base_cell: 14, ccw_rotation_60: 3 },
            3 => BaseCellRotation { base_cell: 6, ccw_rotation_60: 3 },
            4 => BaseCellRotation { base_cell: 35, ccw_rotation_60: 3 },
            5 => BaseCellRotation { base_cell: 25, ccw_rotation_60: 0 },
            _ => BaseCellRotation { base_cell: 27, ccw_rotation_60: 3 },
        },
        18 => match direction {
            0 => BaseCellRotation { base_cell: 18, ccw_rotation_60: 0 },
            1 => BaseCellRotation { base_cell: 24, ccw_rotation_60: 0 },
            2 => BaseCellRotation { base_cell: 30, ccw_rotation_60: 0 },
            3 => BaseCellRotation { base_cell: 32, ccw_rotation_60: 3 },
            4 => BaseCellRotation { base_cell: 5, ccw_rotation_60: 5 },
            5 => BaseCellRotation { base_cell: 10, ccw_rotation_60: 5 },
            _ => BaseCellRotation { base_cell: 16, ccw_rotation_60: 0 },
        },
        19 => match direction {
            0 => BaseCellRotation { base_cell: 19, ccw_rotation_60: 0 },
            1 => BaseCellRotation { base_cell: 34, ccw_rotation_60: 3 },
            2 => BaseCellRotation { base_cell: 20, ccw_rotation_60: 3 },
            3 => BaseCellRotation { base_cell: 36, ccw_rotation_60: 3 },
            4 => BaseCellRotation { base_cell: 7, ccw_rotation_60: 0 },
            5 => BaseCellRotation { base_cell: 21, ccw_rotation_60: 0 },
            _ => BaseCellRotation { base_cell: 9, ccw_rotation_60: 0 },
        },
        20 => match direction {
            0 => BaseCellRotation { base_cell: 20, ccw_rotation_60: 0 },
            1 => BaseCellRotation { base_cell: 14, ccw_rotation_60: 3 },
            2 => BaseCellRotation { base_cell: 19, ccw_rotation_60: 3 },
            3 => BaseCellRotation { base_cell: 9, ccw_rotation_60: 3 },
            4 => BaseCellRotation { base_cell: 40, ccw_rotation_60: 0 },
            5 => BaseCellRotation { base_cell: 27, ccw_rotation_60: 3 },
            _ => BaseCellRotation { base_cell: 36, ccw_rotation_60: 0 },
        },
        21 => match direction {
            0 => BaseCellRotation { base_cell: 21, ccw_rotation_60: 0 },
            1 => BaseCellRotation { base_cell: 38, ccw_rotation_60: 0 },
            2 => BaseCellRotation { base_cell: 19, ccw_rotation_60: 0 },
            3 => BaseCellRotation { base_cell: 34, ccw_rotation_60: 3 },
            4 => BaseCellRotation { base_cell: 13, ccw_rotation_60: 5 },
            5 => BaseCellRotation { base_cell: 29, ccw_rotation_60: 5 },
            _ => BaseCellRotation { base_cell: 7, ccw_rotation_60: 0 },
        },
        22 => match direction {
            0 => BaseCellRotation { base_cell: 22, ccw_rotation_60: 0 },
            1 => BaseCellRotation { base_cell: 16, ccw_rotation_60: 0 },
            2 => BaseCellRotation { base_cell: 41, ccw_rotation_60: 1 },
            3 => BaseCellRotation { base_cell: 33, ccw_rotation_60: 0 },
            4 => BaseCellRotation { base_cell: 15, ccw_rotation_60: 1 },
            5 => BaseCellRotation { base_cell: 8, ccw_rotation_60: 0 },
            _ => BaseCellRotation { base_cell: 31, ccw_rotation_60: 1 },
        },
        23 => match direction {
            0 => BaseCellRotation { base_cell: 23, ccw_rotation_60: 0 },
            1 => BaseCellRotation { base_cell: 24, ccw_rotation_60: 3 },
            2 => BaseCellRotation { base_cell: 11, ccw_rotation_60: 3 },
            3 => BaseCellRotation { base_cell: 10, ccw_rotation_60: 3 },
            4 => BaseCellRotation { base_cell: 39, ccw_rotation_60: 0 },
            5 => BaseCellRotation { base_cell: 37, ccw_rotation_60: 3 },
            _ => BaseCellRotation { base_cell: 25, ccw_rotation_60: 0 },
        },
        24 => match direction {
            0 => BaseCellRotation { base_cell: 24, ccw_rotation_60: 0 },
            1 => BaseCellRotation { base_cell: 127, ccw_rotation_60: -1 },
            2 => BaseCellRotation { base_cell: 32, ccw_rotation_60: 3 },
            3 => BaseCellRotation { base_cell: 37, ccw_rotation_60: 0 },
            4 => BaseCellRotation { base_cell: 10, ccw_rotation_60: 5 },
            5 => BaseCellRotation { base_cell: 23, ccw_rotation_60: 2 },
            _ => BaseCellRotation { base_cell: 18, ccw_rotation_60: 0 },
        },
        25 => match direction {
            0 => BaseCellRotation { base_cell: 25, ccw_rotation_60: 0 },
            1 => BaseCellRotation { base_cell: 23, ccw_rotation_60: 0 },
            2 => BaseCellRotation { base_cell: 17, ccw_rotation_60: 0 },
            3 => BaseCellRotation { base_cell: 11, ccw_rotation_60: 3 },
            4 => BaseCellRotation { base_cell: 45, ccw_rotation_60: 0 },
            5 => BaseCellRotation { base_cell: 39, ccw_rotation_60: 0 },
            _ => BaseCellRotation { base_cell: 35, ccw_rotation_60: 3 },
        },
        26 => match direction {
            0 => BaseCellRotation { base_cell: 26, ccw_rotation_60: 0 },
            1 => BaseCellRotation { base_cell: 42, ccw_rotation_60: 0 },
            2 => BaseCellRotation { base_cell: 29, ccw_rotation_60: 0 },
            3 => BaseCellRotation { base_cell: 43, ccw_rotation_60: 0 },
            4 => BaseCellRotation { base_cell: 12, ccw_rotation_60: 0 },
            5 => BaseCellRotation { base_cell: 28, ccw_rotation_60: 5 },
            _ => BaseCellRotation { base_cell: 13, ccw_rotation_60: 0 },
        },
        27 => match direction {
            0 => BaseCellRotation { base_cell: 27, ccw_rotation_60: 0 },
            1 => BaseCellRotation { base_cell: 40, ccw_rotation_60: 3 },
            2 => BaseCellRotation { base_cell: 35, ccw_rotation_60: 0 },
            3 => BaseCellRotation { base_cell: 46, ccw_rotation_60: 0 },
            4 => BaseCellRotation { base_cell: 14, ccw_rotation_60: 0 },
            5 => BaseCellRotation { base_cell: 20, ccw_rotation_60: 3 },
            _ => BaseCellRotation { base_cell: 17, ccw_rotation_60: 3 },
        },
        28 => match direction {
            0 => BaseCellRotation { base_cell: 28, ccw_rotation_60: 0 },
            1 => BaseCellRotation { base_cell: 31, ccw_rotation_60: 0 },
            2 => BaseCellRotation { base_cell: 42, ccw_rotation_60: 1 },
            3 => BaseCellRotation { base_cell: 44, ccw_rotation_60: 0 },
            4 => BaseCellRotation { base_cell: 12, ccw_rotation_60: 1 },
            5 => BaseCellRotation { base_cell: 15, ccw_rotation_60: 0 },
            _ => BaseCellRotation { base_cell: 26, ccw_rotation_60: 1 },
        },
        29 => match direction {
            0 => BaseCellRotation { base_cell: 29, ccw_rotation_60: 0 },
            1 => BaseCellRotation { base_cell: 43, ccw_rotation_60: 0 },
            2 => BaseCellRotation { base_cell: 38, ccw_rotation_60: 1 },
            3 => BaseCellRotation { base_cell: 47, ccw_rotation_60: 3 },
            4 => BaseCellRotation { base_cell: 13, ccw_rotation_60: 0 },
            5 => BaseCellRotation { base_cell: 26, ccw_rotation_60: 0 },
            _ => BaseCellRotation { base_cell: 21, ccw_rotation_60: 1 },
        },
        30 => match direction {
            0 => BaseCellRotation { base_cell: 30, ccw_rotation_60: 0 },
            1 => BaseCellRotation { base_cell: 32, ccw_rotation_60: 3 },
            2 => BaseCellRotation { base_cell: 48, ccw_rotation_60: 3 },
            3 => BaseCellRotation { base_cell: 50, ccw_rotation_60: 3 },
            4 => BaseCellRotation { base_cell: 16, ccw_rotation_60: 0 },
            5 => BaseCellRotation { base_cell: 18, ccw_rotation_60: 0 },
            _ => BaseCellRotation { base_cell: 33, ccw_rotation_60: 0 },
        },
        31 => match direction {
            0 => BaseCellRotation { base_cell: 31, ccw_rotation_60: 0 },
            1 => BaseCellRotation { base_cell: 41, ccw_rotation_60: 0 },
            2 => BaseCellRotation { base_cell: 44, ccw_rotation_60: 0 },
            3 => BaseCellRotation { base_cell: 53, ccw_rotation_60: 0 },
            4 => BaseCellRotation { base_cell: 15, ccw_rotation_60: 0 },
            5 => BaseCellRotation { base_cell: 22, ccw_rotation_60: 5 },
            _ => BaseCellRotation { base_cell: 28, ccw_rotation_60: 0 },
        },
        32 => match direction {
            0 => BaseCellRotation { base_cell: 32, ccw_rotation_60: 0 },
            1 => BaseCellRotation { base_cell: 30, ccw_rotation_60: 3 },
            2 => BaseCellRotation { base_cell: 24, ccw_rotation_60: 3 },
            3 => BaseCellRotation { base_cell: 18, ccw_rotation_60: 3 },
            4 => BaseCellRotation { base_cell: 52, ccw_rotation_60: 3 },
            5 => BaseCellRotation { base_cell: 50, ccw_rotation_60: 0 },
            _ => BaseCellRotation { base_cell: 37, ccw_rotation_60: 3 },
        },
        33 => match direction {
            0 => BaseCellRotation { base_cell: 33, ccw_rotation_60: 0 },
            1 => BaseCellRotation { base_cell: 30, ccw_rotation_60: 0 },
            2 => BaseCellRotation { base_cell: 49, ccw_rotation_60: 1 },
            3 => BaseCellRotation { base_cell: 48, ccw_rotation_60: 3 },
            4 => BaseCellRotation { base_cell: 22, ccw_rotation_60: 0 },
            5 => BaseCellRotation { base_cell: 16, ccw_rotation_60: 0 },
            _ => BaseCellRotation { base_cell: 41, ccw_rotation_60: 1 },
        },
        34 => match direction {
            0 => BaseCellRotation { base_cell: 34, ccw_rotation_60: 0 },
            1 => BaseCellRotation { base_cell: 19, ccw_rotation_60: 3 },
            2 => BaseCellRotation { base_cell: 38, ccw_rotation_60: 3 },
            3 => BaseCellRotation { base_cell: 21, ccw_rotation_60: 3 },
            4 => BaseCellRotation { base_cell: 54, ccw_rotation_60: 3 },
            5 => BaseCellRotation { base_cell: 36, ccw_rotation_60: 0 },
            _ => BaseCellRotation { base_cell: 51, ccw_rotation_60: 3 },
        },
        35 => match direction {
            0 => BaseCellRotation { base_cell: 35, ccw_rotation_60: 0 },
            1 => BaseCellRotation { base_cell: 46, ccw_rotation_60: 0 },
            2 => BaseCellRotation { base_cell: 45, ccw_rotation_60: 3 },
            3 => BaseCellRotation { base_cell: 56, ccw_rotation_60: 0 },
            4 => BaseCellRotation { base_cell: 17, ccw_rotation_60: 3 },
            5 => BaseCellRotation { base_cell: 27, ccw_rotation_60: 0 },
            _ => BaseCellRotation { base_cell: 25, ccw_rotation_60: 3 },
        },
        36 => match direction {
            0 => BaseCellRotation { base_cell: 36, ccw_rotation_60: 0 },
            1 => BaseCellRotation { base_cell: 20, ccw_rotation_60: 0 },
            2 => BaseCellRotation { base_cell: 34, ccw_rotation_60: 0 },
            3 => BaseCellRotation { base_cell: 19, ccw_rotation_60: 3 },
            4 => BaseCellRotation { base_cell: 55, ccw_rotation_60: 0 },
            5 => BaseCellRotation { base_cell: 40, ccw_rotation_60: 0 },
            _ => BaseCellRotation { base_cell: 54, ccw_rotation_60: 3 },
        },
        37 => match direction {
            0 => BaseCellRotation { base_cell: 37, ccw_rotation_60: 0 },
            1 => BaseCellRotation { base_cell: 39, ccw_rotation_60: 3 },
            2 => BaseCellRotation { base_cell: 52, ccw_rotation_60: 0 },
            3 => BaseCellRotation { base_cell: 57, ccw_rotation_60: 0 },
            4 => BaseCellRotation { base_cell: 24, ccw_rotation_60: 0 },
            5 => BaseCellRotation { base_cell: 23, ccw_rotation_60: 3 },
            _ => BaseCellRotation { base_cell: 32, ccw_rotation_60: 3 },
        },
        38 => match direction {
            0 => BaseCellRotation { base_cell: 38, ccw_rotation_60: 0 },
            1 => BaseCellRotation { base_cell: 127, ccw_rotation_60: -1 },
            2 => BaseCellRotation { base_cell: 34, ccw_rotation_60: 3 },
            3 => BaseCellRotation { base_cell: 51, ccw_rotation_60: 0 },
            4 => BaseCellRotation { base_cell: 29, ccw_rotation_60: 5 },
            5 => BaseCellRotation { base_cell: 47, ccw_rotation_60: 2 },
            _ => BaseCellRotation { base_cell: 21, ccw_rotation_60: 0 },
        },
        39 => match direction {
            0 => BaseCellRotation { base_cell: 39, ccw_rotation_60: 0 },
            1 => BaseCellRotation { base_cell: 37, ccw_rotation_60: 3 },
            2 => BaseCellRotation { base_cell: 25, ccw_rotation_60: 0 },
            3 => BaseCellRotation { base_cell: 23, ccw_rotation_60: 0 },
            4 => BaseCellRotation { base_cell: 59, ccw_rotation_60: 3 },
            5 => BaseCellRotation { base_cell: 57, ccw_rotation_60: 3 },
            _ => BaseCellRotation { base_cell: 45, ccw_rotation_60: 0 },
        },
        40 => match direction {
            0 => BaseCellRotation { base_cell: 40, ccw_rotation_60: 0 },
            1 => BaseCellRotation { base_cell: 27, ccw_rotation_60: 3 },
            2 => BaseCellRotation { base_cell: 36, ccw_rotation_60: 0 },
            3 => BaseCellRotation { base_cell: 20, ccw_rotation_60: 0 },
            4 => BaseCellRotation { base_cell: 60, ccw_rotation_60: 3 },
            5 => BaseCellRotation { base_cell: 46, ccw_rotation_60: 3 },
            _ => BaseCellRotation { base_cell: 55, ccw_rotation_60: 0 },
        },
        41 => match direction {
            0 => BaseCellRotation { base_cell: 41, ccw_rotation_60: 0 },
            1 => BaseCellRotation { base_cell: 49, ccw_rotation_60: 0 },
            2 => BaseCellRotation { base_cell: 53, ccw_rotation_60: 0 },
            3 => BaseCellRotation { base_cell: 61, ccw_rotation_60: 3 },
            4 => BaseCellRotation { base_cell: 22, ccw_rotation_60: 5 },
            5 => BaseCellRotation { base_cell: 33, ccw_rotation_60: 5 },
            _ => BaseCellRotation { base_cell: 31, ccw_rotation_60: 0 },
        },
        42 => match direction {
            0 => BaseCellRotation { base_cell: 42, ccw_rotation_60: 0 },
            1 => BaseCellRotation { base_cell: 58, ccw_rotation_60: 0 },
            2 => BaseCellRotation { base_cell: 43, ccw_rotation_60: 0 },
            3 => BaseCellRotation { base_cell: 62, ccw_rotation_60: 3 },
            4 => BaseCellRotation { base_cell: 28, ccw_rotation_60: 5 },
            5 => BaseCellRotation { base_cell: 44, ccw_rotation_60: 5 },
            _ => BaseCellRotation { base_cell: 26, ccw_rotation_60: 0 },
        },
        43 => match direction {
            0 => BaseCellRotation { base_cell: 43, ccw_rotation_60: 0 },
            1 => BaseCellRotation { base_cell: 62, ccw_rotation_60: 3 },
            2 => BaseCellRotation { base_cell: 47, ccw_rotation_60: 3 },
            3 => BaseCellRotation { base_cell: 64, ccw_rotation_60: 3 },
            4 => BaseCellRotation { base_cell: 26, ccw_rotation_60: 0 },
            5 => BaseCellRotation { base_cell: 42, ccw_rotation_60: 0 },
            _ => BaseCellRotation { base_cell: 29, ccw_rotation_60: 0 },
        },
        44 => match direction {
            0 => BaseCellRotation { base_cell: 44, ccw_rotation_60: 0 },
            1 => BaseCellRotation { base_cell: 53, ccw_rotation_60: 0 },
            2 => BaseCellRotation { base_cell: 58, ccw_rotation_60: 1 },
            3 => BaseCellRotation { base_cell: 65, ccw_rotation_60: 3 },
            4 => BaseCellRotation { base_cell: 28, ccw_rotation_60: 0 },
            5 => BaseCellRotation { base_cell: 31, ccw_rotation_60: 0 },
            _ => BaseCellRotation { base_cell: 42, ccw_rotation_60: 1 },
        },
        45 => match direction {
            0 => BaseCellRotation { base_cell: 45, ccw_rotation_60: 0 },
            1 => BaseCellRotation { base_cell: 39, ccw_rotation_60: 0 },
            2 => BaseCellRotation { base_cell: 35, ccw_rotation_60: 3 },
            3 => BaseCellRotation { base_cell: 25, ccw_rotation_60: 0 },
            4 => BaseCellRotation { base_cell: 63, ccw_rotation_60: 0 },
            5 => BaseCellRotation { base_cell: 59, ccw_rotation_60: 3 },
            _ => BaseCellRotation { base_cell: 56, ccw_rotation_60: 3 },
        },
        46 => match direction {
            0 => BaseCellRotation { base_cell: 46, ccw_rotation_60: 0 },
            1 => BaseCellRotation { base_cell: 60, ccw_rotation_60: 0 },
            2 => BaseCellRotation { base_cell: 56, ccw_rotation_60: 0 },
            3 => BaseCellRotation { base_cell: 68, ccw_rotation_60: 3 },
            4 => BaseCellRotation { base_cell: 27, ccw_rotation_60: 0 },
            5 => BaseCellRotation { base_cell: 40, ccw_rotation_60: 3 },
            _ => BaseCellRotation { base_cell: 35, ccw_rotation_60: 0 },
        },
        47 => match direction {
            0 => BaseCellRotation { base_cell: 47, ccw_rotation_60: 0 },
            1 => BaseCellRotation { base_cell: 38, ccw_rotation_60: 3 },
            2 => BaseCellRotation { base_cell: 43, ccw_rotation_60: 3 },
            3 => BaseCellRotation { base_cell: 29, ccw_rotation_60: 3 },
            4 => BaseCellRotation { base_cell: 69, ccw_rotation_60: 0 },
            5 => BaseCellRotation { base_cell: 51, ccw_rotation_60: 3 },
            _ => BaseCellRotation { base_cell: 64, ccw_rotation_60: 0 },
        },
        48 => match direction {
            0 => BaseCellRotation { base_cell: 48, ccw_rotation_60: 0 },
            1 => BaseCellRotation { base_cell: 49, ccw_rotation_60: 3 },
            2 => BaseCellRotation { base_cell: 30, ccw_rotation_60: 3 },
            3 => BaseCellRotation { base_cell: 33, ccw_rotation_60: 3 },
            4 => BaseCellRotation { base_cell: 67, ccw_rotation_60: 0 },
            5 => BaseCellRotation { base_cell: 66, ccw_rotation_60: 3 },
            _ => BaseCellRotation { base_cell: 50, ccw_rotation_60: 0 },
        },
        49 => match direction {
            0 => BaseCellRotation { base_cell: 49, ccw_rotation_60: 0 },
            1 => BaseCellRotation { base_cell: 127, ccw_rotation_60: -1 },
            2 => BaseCellRotation { base_cell: 61, ccw_rotation_60: 3 },
            3 => BaseCellRotation { base_cell: 66, ccw_rotation_60: 0 },
            4 => BaseCellRotation { base_cell: 33, ccw_rotation_60: 5 },
            5 => BaseCellRotation { base_cell: 48, ccw_rotation_60: 2 },
            _ => BaseCellRotation { base_cell: 41, ccw_rotation_60: 0 },
        },
        50 => match direction {
            0 => BaseCellRotation { base_cell: 50, ccw_rotation_60: 0 },
            1 => BaseCellRotation { base_cell: 48, ccw_rotation_60: 0 },
            2 => BaseCellRotation { base_cell: 32, ccw_rotation_60: 0 },
            3 => BaseCellRotation { base_cell: 30, ccw_rotation_60: 3 },
            4 => BaseCellRotation { base_cell: 70, ccw_rotation_60: 0 },
            5 => BaseCellRotation { base_cell: 67, ccw_rotation_60: 0 },
            _ => BaseCellRotation { base_cell: 52, ccw_rotation_60: 3 },
        },
        51 => match direction {
            0 => BaseCellRotation { base_cell: 51, ccw_rotation_60: 0 },
            1 => BaseCellRotation { base_cell: 69, ccw_rotation_60: 3 },
            2 => BaseCellRotation { base_cell: 54, ccw_rotation_60: 0 },
            3 => BaseCellRotation { base_cell: 71, ccw_rotation_60: 0 },
            4 => BaseCellRotation { base_cell: 38, ccw_rotation_60: 0 },
            5 => BaseCellRotation { base_cell: 47, ccw_rotation_60: 3 },
            _ => BaseCellRotation { base_cell: 34, ccw_rotation_60: 3 },
        },
        52 => match direction {
            0 => BaseCellRotation { base_cell: 52, ccw_rotation_60: 0 },
            1 => BaseCellRotation { base_cell: 57, ccw_rotation_60: 0 },
            2 => BaseCellRotation { base_cell: 70, ccw_rotation_60: 3 },
            3 => BaseCellRotation { base_cell: 74, ccw_rotation_60: 0 },
            4 => BaseCellRotation { base_cell: 32, ccw_rotation_60: 3 },
            5 => BaseCellRotation { base_cell: 37, ccw_rotation_60: 0 },
            _ => BaseCellRotation { base_cell: 50, ccw_rotation_60: 3 },
        },
        53 => match direction {
            0 => BaseCellRotation { base_cell: 53, ccw_rotation_60: 0 },
            1 => BaseCellRotation { base_cell: 61, ccw_rotation_60: 3 },
            2 => BaseCellRotation { base_cell: 65, ccw_rotation_60: 3 },
            3 => BaseCellRotation { base_cell: 75, ccw_rotation_60: 3 },
            4 => BaseCellRotation { base_cell: 31, ccw_rotation_60: 0 },
            5 => BaseCellRotation { base_cell: 41, ccw_rotation_60: 0 },
            _ => BaseCellRotation { base_cell: 44, ccw_rotation_60: 0 },
        },
        54 => match direction {
            0 => BaseCellRotation { base_cell: 54, ccw_rotation_60: 0 },
            1 => BaseCellRotation { base_cell: 71, ccw_rotation_60: 0 },
            2 => BaseCellRotation { base_cell: 55, ccw_rotation_60: 3 },
            3 => BaseCellRotation { base_cell: 73, ccw_rotation_60: 0 },
            4 => BaseCellRotation { base_cell: 34, ccw_rotation_60: 3 },
            5 => BaseCellRotation { base_cell: 51, ccw_rotation_60: 0 },
            _ => BaseCellRotation { base_cell: 36, ccw_rotation_60: 3 },
        },
        55 => match direction {
            0 => BaseCellRotation { base_cell: 55, ccw_rotation_60: 0 },
            1 => BaseCellRotation { base_cell: 40, ccw_rotation_60: 0 },
            2 => BaseCellRotation { base_cell: 54, ccw_rotation_60: 3 },
            3 => BaseCellRotation { base_cell: 36, ccw_rotation_60: 0 },
            4 => BaseCellRotation { base_cell: 72, ccw_rotation_60: 0 },
            5 => BaseCellRotation { base_cell: 60, ccw_rotation_60: 3 },
            _ => BaseCellRotation { base_cell: 73, ccw_rotation_60: 3 },
        },
        56 => match direction {
            0 => BaseCellRotation { base_cell: 56, ccw_rotation_60: 0 },
            1 => BaseCellRotation { base_cell: 68, ccw_rotation_60: 3 },
            2 => BaseCellRotation { base_cell: 63, ccw_rotation_60: 3 },
            3 => BaseCellRotation { base_cell: 77, ccw_rotation_60: 3 },
            4 => BaseCellRotation { base_cell: 35, ccw_rotation_60: 0 },
            5 => BaseCellRotation { base_cell: 46, ccw_rotation_60: 0 },
            _ => BaseCellRotation { base_cell: 45, ccw_rotation_60: 3 },
        },
        57 => match direction {
            0 => BaseCellRotation { base_cell: 57, ccw_rotation_60: 0 },
            1 => BaseCellRotation { base_cell: 59, ccw_rotation_60: 0 },
            2 => BaseCellRotation { base_cell: 74, ccw_rotation_60: 0 },
            3 => BaseCellRotation { base_cell: 78, ccw_rotation_60: 3 },
            4 => BaseCellRotation { base_cell: 37, ccw_rotation_60: 0 },
            5 => BaseCellRotation { base_cell: 39, ccw_rotation_60: 3 },
            _ => BaseCellRotation { base_cell: 52, ccw_rotation_60: 0 },
        },
        58 => match direction {
            0 => BaseCellRotation { base_cell: 58, ccw_rotation_60: 0 },
            1 => BaseCellRotation { base_cell: 127, ccw_rotation_60: -1 },
            2 => BaseCellRotation { base_cell: 62, ccw_rotation_60: 3 },
            3 => BaseCellRotation { base_cell: 76, ccw_rotation_60: 0 },
            4 => BaseCellRotation { base_cell: 44, ccw_rotation_60: 5 },
            5 => BaseCellRotation { base_cell: 65, ccw_rotation_60: 2 },
            _ => BaseCellRotation { base_cell: 42, ccw_rotation_60: 0 },
        },
        59 => match direction {
            0 => BaseCellRotation { base_cell: 59, ccw_rotation_60: 0 },
            1 => BaseCellRotation { base_cell: 63, ccw_rotation_60: 3 },
            2 => BaseCellRotation { base_cell: 78, ccw_rotation_60: 3 },
            3 => BaseCellRotation { base_cell: 79, ccw_rotation_60: 3 },
            4 => BaseCellRotation { base_cell: 39, ccw_rotation_60: 3 },
            5 => BaseCellRotation { base_cell: 45, ccw_rotation_60: 3 },
            _ => BaseCellRotation { base_cell: 57, ccw_rotation_60: 0 },
        },
        60 => match direction {
            0 => BaseCellRotation { base_cell: 60, ccw_rotation_60: 0 },
            1 => BaseCellRotation { base_cell: 72, ccw_rotation_60: 3 },
            2 => BaseCellRotation { base_cell: 68, ccw_rotation_60: 3 },
            3 => BaseCellRotation { base_cell: 80, ccw_rotation_60: 3 },
            4 => BaseCellRotation { base_cell: 40, ccw_rotation_60: 3 },
            5 => BaseCellRotation { base_cell: 55, ccw_rotation_60: 3 },
            _ => BaseCellRotation { base_cell: 46, ccw_rotation_60: 0 },
        },
        61 => match direction {
            0 => BaseCellRotation { base_cell: 61, ccw_rotation_60: 0 },
            1 => BaseCellRotation { base_cell: 53, ccw_rotation_60: 3 },
            2 => BaseCellRotation { base_cell: 49, ccw_rotation_60: 3 },
            3 => BaseCellRotation { base_cell: 41, ccw_rotation_60: 3 },
            4 => BaseCellRotation { base_cell: 81, ccw_rotation_60: 3 },
            5 => BaseCellRotation { base_cell: 75, ccw_rotation_60: 0 },
            _ => BaseCellRotation { base_cell: 66, ccw_rotation_60: 3 },
        },
        62 => match direction {
            0 => BaseCellRotation { base_cell: 62, ccw_rotation_60: 0 },
            1 => BaseCellRotation { base_cell: 43, ccw_rotation_60: 3 },
            2 => BaseCellRotation { base_cell: 58, ccw_rotation_60: 3 },
            3 => BaseCellRotation { base_cell: 42, ccw_rotation_60: 3 },
            4 => BaseCellRotation { base_cell: 82, ccw_rotation_60: 3 },
            5 => BaseCellRotation { base_cell: 64, ccw_rotation_60: 0 },
            _ => BaseCellRotation { base_cell: 76, ccw_rotation_60: 3 },
        },
        63 => match direction {
            0 => BaseCellRotation { base_cell: 63, ccw_rotation_60: 0 },
            1 => BaseCellRotation { base_cell: 127, ccw_rotation_60: -1 },
            2 => BaseCellRotation { base_cell: 56, ccw_rotation_60: 3 },
            3 => BaseCellRotation { base_cell: 45, ccw_rotation_60: 0 },
            4 => BaseCellRotation { base_cell: 79, ccw_rotation_60: 5 },
            5 => BaseCellRotation { base_cell: 59, ccw_rotation_60: 2 },
            _ => BaseCellRotation { base_cell: 77, ccw_rotation_60: 0 },
        },
        64 => match direction {
            0 => BaseCellRotation { base_cell: 64, ccw_rotation_60: 0 },
            1 => BaseCellRotation { base_cell: 47, ccw_rotation_60: 0 },
            2 => BaseCellRotation { base_cell: 62, ccw_rotation_60: 0 },
            3 => BaseCellRotation { base_cell: 43, ccw_rotation_60: 3 },
            4 => BaseCellRotation { base_cell: 84, ccw_rotation_60: 0 },
            5 => BaseCellRotation { base_cell: 69, ccw_rotation_60: 0 },
            _ => BaseCellRotation { base_cell: 82, ccw_rotation_60: 3 },
        },
        65 => match direction {
            0 => BaseCellRotation { base_cell: 65, ccw_rotation_60: 0 },
            1 => BaseCellRotation { base_cell: 58, ccw_rotation_60: 3 },
            2 => BaseCellRotation { base_cell: 53, ccw_rotation_60: 3 },
            3 => BaseCellRotation { base_cell: 44, ccw_rotation_60: 3 },
            4 => BaseCellRotation { base_cell: 86, ccw_rotation_60: 0 },
            5 => BaseCellRotation { base_cell: 76, ccw_rotation_60: 3 },
            _ => BaseCellRotation { base_cell: 75, ccw_rotation_60: 0 },
        },
        66 => match direction {
            0 => BaseCellRotation { base_cell: 66, ccw_rotation_60: 0 },
            1 => BaseCellRotation { base_cell: 67, ccw_rotation_60: 3 },
            2 => BaseCellRotation { base_cell: 81, ccw_rotation_60: 0 },
            3 => BaseCellRotation { base_cell: 85, ccw_rotation_60: 0 },
            4 => BaseCellRotation { base_cell: 49, ccw_rotation_60: 0 },
            5 => BaseCellRotation { base_cell: 48, ccw_rotation_60: 3 },
            _ => BaseCellRotation { base_cell: 61, ccw_rotation_60: 3 },
        },
        67 => match direction {
            0 => BaseCellRotation { base_cell: 67, ccw_rotation_60: 0 },
            1 => BaseCellRotation { base_cell: 66, ccw_rotation_60: 3 },
            2 => BaseCellRotation { base_cell: 50, ccw_rotation_60: 0 },
            3 => BaseCellRotation { base_cell: 48, ccw_rotation_60: 0 },
            4 => BaseCellRotation { base_cell: 87, ccw_rotation_60: 3 },
            5 => BaseCellRotation { base_cell: 85, ccw_rotation_60: 3 },
            _ => BaseCellRotation { base_cell: 70, ccw_rotation_60: 0 },
        },
        68 => match direction {
            0 => BaseCellRotation { base_cell: 68, ccw_rotation_60: 0 },
            1 => BaseCellRotation { base_cell: 56, ccw_rotation_60: 3 },
            2 => BaseCellRotation { base_cell: 60, ccw_rotation_60: 3 },
            3 => BaseCellRotation { base_cell: 46, ccw_rotation_60: 3 },
            4 => BaseCellRotation { base_cell: 90, ccw_rotation_60: 0 },
            5 => BaseCellRotation { base_cell: 77, ccw_rotation_60: 0 },
            _ => BaseCellRotation { base_cell: 80, ccw_rotation_60: 0 },
        },
        69 => match direction {
            0 => BaseCellRotation { base_cell: 69, ccw_rotation_60: 0 },
            1 => BaseCellRotation { base_cell: 51, ccw_rotation_60: 3 },
            2 => BaseCellRotation { base_cell: 64, ccw_rotation_60: 0 },
            3 => BaseCellRotation { base_cell: 47, ccw_rotation_60: 0 },
            4 => BaseCellRotation { base_cell: 89, ccw_rotation_60: 3 },
            5 => BaseCellRotation { base_cell: 71, ccw_rotation_60: 3 },
            _ => BaseCellRotation { base_cell: 84, ccw_rotation_60: 0 },
        },
        70 => match direction {
            0 => BaseCellRotation { base_cell: 70, ccw_rotation_60: 0 },
            1 => BaseCellRotation { base_cell: 67, ccw_rotation_60: 0 },
            2 => BaseCellRotation { base_cell: 52, ccw_rotation_60: 3 },
            3 => BaseCellRotation { base_cell: 50, ccw_rotation_60: 0 },
            4 => BaseCellRotation { base_cell: 83, ccw_rotation_60: 0 },
            5 => BaseCellRotation { base_cell: 87, ccw_rotation_60: 3 },
            _ => BaseCellRotation { base_cell: 74, ccw_rotation_60: 3 },
        },
        71 => match direction {
            0 => BaseCellRotation { base_cell: 71, ccw_rotation_60: 0 },
            1 => BaseCellRotation { base_cell: 89, ccw_rotation_60: 0 },
            2 => BaseCellRotation { base_cell: 73, ccw_rotation_60: 0 },
            3 => BaseCellRotation { base_cell: 91, ccw_rotation_60: 3 },
            4 => BaseCellRotation { base_cell: 51, ccw_rotation_60: 0 },
            5 => BaseCellRotation { base_cell: 69, ccw_rotation_60: 3 },
            _ => BaseCellRotation { base_cell: 54, ccw_rotation_60: 0 },
        },
        72 => match direction {
            0 => BaseCellRotation { base_cell: 72, ccw_rotation_60: 0 },
            1 => BaseCellRotation { base_cell: 127, ccw_rotation_60: -1 },
            2 => BaseCellRotation { base_cell: 73, ccw_rotation_60: 3 },
            3 => BaseCellRotation { base_cell: 55, ccw_rotation_60: 0 },
            4 => BaseCellRotation { base_cell: 80, ccw_rotation_60: 5 },
            5 => BaseCellRotation { base_cell: 60, ccw_rotation_60: 2 },
            _ => BaseCellRotation { base_cell: 88, ccw_rotation_60: 0 },
        },
        73 => match direction {
            0 => BaseCellRotation { base_cell: 73, ccw_rotation_60: 0 },
            1 => BaseCellRotation { base_cell: 91, ccw_rotation_60: 3 },
            2 => BaseCellRotation { base_cell: 72, ccw_rotation_60: 3 },
            3 => BaseCellRotation { base_cell: 88, ccw_rotation_60: 3 },
            4 => BaseCellRotation { base_cell: 54, ccw_rotation_60: 0 },
            5 => BaseCellRotation { base_cell: 71, ccw_rotation_60: 0 },
            _ => BaseCellRotation { base_cell: 55, ccw_rotation_60: 3 },
        },
        74 => match direction {
            0 => BaseCellRotation { base_cell: 74, ccw_rotation_60: 0 },
            1 => BaseCellRotation { base_cell: 78, ccw_rotation_60: 3 },
            2 => BaseCellRotation { base_cell: 83, ccw_rotation_60: 3 },
            3 => BaseCellRotation { base_cell: 92, ccw_rotation_60: 3 },
            4 => BaseCellRotation { base_cell: 52, ccw_rotation_60: 0 },
            5 => BaseCellRotation { base_cell: 57, ccw_rotation_60: 0 },
            _ => BaseCellRotation { base_cell: 70, ccw_rotation_60: 3 },
        },
        75 => match direction {
            0 => BaseCellRotation { base_cell: 75, ccw_rotation_60: 0 },
            1 => BaseCellRotation { base_cell: 65, ccw_rotation_60: 0 },
            2 => BaseCellRotation { base_cell: 61, ccw_rotation_60: 0 },
            3 => BaseCellRotation { base_cell: 53, ccw_rotation_60: 3 },
            4 => BaseCellRotation { base_cell: 94, ccw_rotation_60: 0 },
            5 => BaseCellRotation { base_cell: 86, ccw_rotation_60: 0 },
            _ => BaseCellRotation { base_cell: 81, ccw_rotation_60: 3 },
        },
        76 => match direction {
            0 => BaseCellRotation { base_cell: 76, ccw_rotation_60: 0 },
            1 => BaseCellRotation { base_cell: 86, ccw_rotation_60: 3 },
            2 => BaseCellRotation { base_cell: 82, ccw_rotation_60: 0 },
            3 => BaseCellRotation { base_cell: 96, ccw_rotation_60: 0 },
            4 => BaseCellRotation { base_cell: 58, ccw_rotation_60: 0 },
            5 => BaseCellRotation { base_cell: 65, ccw_rotation_60: 3 },
            _ => BaseCellRotation { base_cell: 62, ccw_rotation_60: 3 },
        },
        77 => match direction {
            0 => BaseCellRotation { base_cell: 77, ccw_rotation_60: 0 },
            1 => BaseCellRotation { base_cell: 63, ccw_rotation_60: 0 },
            2 => BaseCellRotation { base_cell: 68, ccw_rotation_60: 0 },
            3 => BaseCellRotation { base_cell: 56, ccw_rotation_60: 3 },
            4 => BaseCellRotation { base_cell: 93, ccw_rotation_60: 0 },
            5 => BaseCellRotation { base_cell: 79, ccw_rotation_60: 5 },
            _ => BaseCellRotation { base_cell: 90, ccw_rotation_60: 0 },
        },
        78 => match direction {
            0 => BaseCellRotation { base_cell: 78, ccw_rotation_60: 0 },
            1 => BaseCellRotation { base_cell: 74, ccw_rotation_60: 3 },
            2 => BaseCellRotation { base_cell: 59, ccw_rotation_60: 3 },
            3 => BaseCellRotation { base_cell: 57, ccw_rotation_60: 3 },
            4 => BaseCellRotation { base_cell: 95, ccw_rotation_60: 0 },
            5 => BaseCellRotation { base_cell: 92, ccw_rotation_60: 0 },
            _ => BaseCellRotation { base_cell: 79, ccw_rotation_60: 0 },
        },
        79 => match direction {
            0 => BaseCellRotation { base_cell: 79, ccw_rotation_60: 0 },
            1 => BaseCellRotation { base_cell: 78, ccw_rotation_60: 0 },
            2 => BaseCellRotation { base_cell: 63, ccw_rotation_60: 1 },
            3 => BaseCellRotation { base_cell: 59, ccw_rotation_60: 3 },
            4 => BaseCellRotation { base_cell: 93, ccw_rotation_60: 1 },
            5 => BaseCellRotation { base_cell: 95, ccw_rotation_60: 0 },
            _ => BaseCellRotation { base_cell: 77, ccw_rotation_60: 1 },
        },
        80 => match direction {
            0 => BaseCellRotation { base_cell: 80, ccw_rotation_60: 0 },
            1 => BaseCellRotation { base_cell: 68, ccw_rotation_60: 0 },
            2 => BaseCellRotation { base_cell: 72, ccw_rotation_60: 1 },
            3 => BaseCellRotation { base_cell: 60, ccw_rotation_60: 3 },
            4 => BaseCellRotation { base_cell: 99, ccw_rotation_60: 1 },
            5 => BaseCellRotation { base_cell: 90, ccw_rotation_60: 0 },
            _ => BaseCellRotation { base_cell: 88, ccw_rotation_60: 1 },
        },
        81 => match direction {
            0 => BaseCellRotation { base_cell: 81, ccw_rotation_60: 0 },
            1 => BaseCellRotation { base_cell: 85, ccw_rotation_60: 0 },
            2 => BaseCellRotation { base_cell: 94, ccw_rotation_60: 3 },
            3 => BaseCellRotation { base_cell: 101, ccw_rotation_60: 0 },
            4 => BaseCellRotation { base_cell: 61, ccw_rotation_60: 3 },
            5 => BaseCellRotation { base_cell: 66, ccw_rotation_60: 0 },
            _ => BaseCellRotation { base_cell: 75, ccw_rotation_60: 3 },
        },
        82 => match direction {
            0 => BaseCellRotation { base_cell: 82, ccw_rotation_60: 0 },
            1 => BaseCellRotation { base_cell: 96, ccw_rotation_60: 0 },
            2 => BaseCellRotation { base_cell: 84, ccw_rotation_60: 3 },
            3 => BaseCellRotation { base_cell: 98, ccw_rotation_60: 0 },
            4 => BaseCellRotation { base_cell: 62, ccw_rotation_60: 3 },
            5 => BaseCellRotation { base_cell: 76, ccw_rotation_60: 0 },
            _ => BaseCellRotation { base_cell: 64, ccw_rotation_60: 3 },
        },
        83 => match direction {
            0 => BaseCellRotation { base_cell: 83, ccw_rotation_60: 0 },
            1 => BaseCellRotation { base_cell: 127, ccw_rotation_60: -1 },
            2 => BaseCellRotation { base_cell: 74, ccw_rotation_60: 3 },
            3 => BaseCellRotation { base_cell: 70, ccw_rotation_60: 0 },
            4 => BaseCellRotation { base_cell: 100, ccw_rotation_60: 5 },
            5 => BaseCellRotation { base_cell: 87, ccw_rotation_60: 2 },
            _ => BaseCellRotation { base_cell: 92, ccw_rotation_60: 0 },
        },
        84 => match direction {
            0 => BaseCellRotation { base_cell: 84, ccw_rotation_60: 0 },
            1 => BaseCellRotation { base_cell: 69, ccw_rotation_60: 0 },
            2 => BaseCellRotation { base_cell: 82, ccw_rotation_60: 3 },
            3 => BaseCellRotation { base_cell: 64, ccw_rotation_60: 0 },
            4 => BaseCellRotation { base_cell: 97, ccw_rotation_60: 0 },
            5 => BaseCellRotation { base_cell: 89, ccw_rotation_60: 3 },
            _ => BaseCellRotation { base_cell: 98, ccw_rotation_60: 3 },
        },
        85 => match direction {
            0 => BaseCellRotation { base_cell: 85, ccw_rotation_60: 0 },
            1 => BaseCellRotation { base_cell: 87, ccw_rotation_60: 0 },
            2 => BaseCellRotation { base_cell: 101, ccw_rotation_60: 0 },
            3 => BaseCellRotation { base_cell: 102, ccw_rotation_60: 3 },
            4 => BaseCellRotation { base_cell: 66, ccw_rotation_60: 0 },
            5 => BaseCellRotation { base_cell: 67, ccw_rotation_60: 3 },
            _ => BaseCellRotation { base_cell: 81, ccw_rotation_60: 0 },
        },
        86 => match direction {
            0 => BaseCellRotation { base_cell: 86, ccw_rotation_60: 0 },
            1 => BaseCellRotation { base_cell: 76, ccw_rotation_60: 3 },
            2 => BaseCellRotation { base_cell: 75, ccw_rotation_60: 0 },
            3 => BaseCellRotation { base_cell: 65, ccw_rotation_60: 0 },
            4 => BaseCellRotation { base_cell: 104, ccw_rotation_60: 3 },
            5 => BaseCellRotation { base_cell: 96, ccw_rotation_60: 3 },
            _ => BaseCellRotation { base_cell: 94, ccw_rotation_60: 0 },
        },
        87 => match direction {
            0 => BaseCellRotation { base_cell: 87, ccw_rotation_60: 0 },
            1 => BaseCellRotation { base_cell: 83, ccw_rotation_60: 3 },
            2 => BaseCellRotation { base_cell: 102, ccw_rotation_60: 3 },
            3 => BaseCellRotation { base_cell: 100, ccw_rotation_60: 3 },
            4 => BaseCellRotation { base_cell: 67, ccw_rotation_60: 3 },
            5 => BaseCellRotation { base_cell: 70, ccw_rotation_60: 3 },
            _ => BaseCellRotation { base_cell: 85, ccw_rotation_60: 0 },
        },
        88 => match direction {
            0 => BaseCellRotation { base_cell: 88, ccw_rotation_60: 0 },
            1 => BaseCellRotation { base_cell: 72, ccw_rotation_60: 0 },
            2 => BaseCellRotation { base_cell: 91, ccw_rotation_60: 0 },
            3 => BaseCellRotation { base_cell: 73, ccw_rotation_60: 3 },
            4 => BaseCellRotation { base_cell: 99, ccw_rotation_60: 0 },
            5 => BaseCellRotation { base_cell: 80, ccw_rotation_60: 5 },
            _ => BaseCellRotation { base_cell: 105, ccw_rotation_60: 0 },
        },
        89 => match direction {
            0 => BaseCellRotation { base_cell: 89, ccw_rotation_60: 0 },
            1 => BaseCellRotation { base_cell: 97, ccw_rotation_60: 3 },
            2 => BaseCellRotation { base_cell: 91, ccw_rotation_60: 3 },
            3 => BaseCellRotation { base_cell: 103, ccw_rotation_60: 3 },
            4 => BaseCellRotation { base_cell: 69, ccw_rotation_60: 3 },
            5 => BaseCellRotation { base_cell: 84, ccw_rotation_60: 3 },
            _ => BaseCellRotation { base_cell: 71, ccw_rotation_60: 0 },
        },
        90 => match direction {
            0 => BaseCellRotation { base_cell: 90, ccw_rotation_60: 0 },
            1 => BaseCellRotation { base_cell: 77, ccw_rotation_60: 0 },
            2 => BaseCellRotation { base_cell: 80, ccw_rotation_60: 0 },
            3 => BaseCellRotation { base_cell: 68, ccw_rotation_60: 0 },
            4 => BaseCellRotation { base_cell: 106, ccw_rotation_60: 0 },
            5 => BaseCellRotation { base_cell: 93, ccw_rotation_60: 0 },
            _ => BaseCellRotation { base_cell: 99, ccw_rotation_60: 1 },
        },
        91 => match direction {
            0 => BaseCellRotation { base_cell: 91, ccw_rotation_60: 0 },
            1 => BaseCellRotation { base_cell: 73, ccw_rotation_60: 3 },
            2 => BaseCellRotation { base_cell: 89, ccw_rotation_60: 3 },
            3 => BaseCellRotation { base_cell: 71, ccw_rotation_60: 3 },
            4 => BaseCellRotation { base_cell: 105, ccw_rotation_60: 0 },
            5 => BaseCellRotation { base_cell: 88, ccw_rotation_60: 0 },
            _ => BaseCellRotation { base_cell: 103, ccw_rotation_60: 0 },
        },
        92 => match direction {
            0 => BaseCellRotation { base_cell: 92, ccw_rotation_60: 0 },
            1 => BaseCellRotation { base_cell: 83, ccw_rotation_60: 0 },
            2 => BaseCellRotation { base_cell: 78, ccw_rotation_60: 0 },
            3 => BaseCellRotation { base_cell: 74, ccw_rotation_60: 3 },
            4 => BaseCellRotation { base_cell: 108, ccw_rotation_60: 0 },
            5 => BaseCellRotation { base_cell: 100, ccw_rotation_60: 5 },
            _ => BaseCellRotation { base_cell: 95, ccw_rotation_60: 0 },
        },
        93 => match direction {
            0 => BaseCellRotation { base_cell: 93, ccw_rotation_60: 0 },
            1 => BaseCellRotation { base_cell: 79, ccw_rotation_60: 5 },
            2 => BaseCellRotation { base_cell: 90, ccw_rotation_60: 0 },
            3 => BaseCellRotation { base_cell: 77, ccw_rotation_60: 0 },
            4 => BaseCellRotation { base_cell: 109, ccw_rotation_60: 5 },
            5 => BaseCellRotation { base_cell: 95, ccw_rotation_60: 5 },
            _ => BaseCellRotation { base_cell: 106, ccw_rotation_60: 0 },
        },
        94 => match direction {
            0 => BaseCellRotation { base_cell: 94, ccw_rotation_60: 0 },
            1 => BaseCellRotation { base_cell: 86, ccw_rotation_60: 0 },
            2 => BaseCellRotation { base_cell: 81, ccw_rotation_60: 3 },
            3 => BaseCellRotation { base_cell: 75, ccw_rotation_60: 0 },
            4 => BaseCellRotation { base_cell: 107, ccw_rotation_60: 0 },
            5 => BaseCellRotation { base_cell: 104, ccw_rotation_60: 3 },
            _ => BaseCellRotation { base_cell: 101, ccw_rotation_60: 3 },
        },
        95 => match direction {
            0 => BaseCellRotation { base_cell: 95, ccw_rotation_60: 0 },
            1 => BaseCellRotation { base_cell: 92, ccw_rotation_60: 0 },
            2 => BaseCellRotation { base_cell: 79, ccw_rotation_60: 0 },
            3 => BaseCellRotation { base_cell: 78, ccw_rotation_60: 0 },
            4 => BaseCellRotation { base_cell: 109, ccw_rotation_60: 0 },
            5 => BaseCellRotation { base_cell: 108, ccw_rotation_60: 0 },
            _ => BaseCellRotation { base_cell: 93, ccw_rotation_60: 1 },
        },
        96 => match direction {
            0 => BaseCellRotation { base_cell: 96, ccw_rotation_60: 0 },
            1 => BaseCellRotation { base_cell: 104, ccw_rotation_60: 0 },
            2 => BaseCellRotation { base_cell: 98, ccw_rotation_60: 0 },
            3 => BaseCellRotation { base_cell: 110, ccw_rotation_60: 3 },
            4 => BaseCellRotation { base_cell: 76, ccw_rotation_60: 0 },
            5 => BaseCellRotation { base_cell: 86, ccw_rotation_60: 3 },
            _ => BaseCellRotation { base_cell: 82, ccw_rotation_60: 0 },
        },
        97 => match direction {
            0 => BaseCellRotation { base_cell: 97, ccw_rotation_60: 0 },
            1 => BaseCellRotation { base_cell: 127, ccw_rotation_60: -1 },
            2 => BaseCellRotation { base_cell: 98, ccw_rotation_60: 3 },
            3 => BaseCellRotation { base_cell: 84, ccw_rotation_60: 0 },
            4 => BaseCellRotation { base_cell: 103, ccw_rotation_60: 5 },
            5 => BaseCellRotation { base_cell: 89, ccw_rotation_60: 2 },
            _ => BaseCellRotation { base_cell: 111, ccw_rotation_60: 0 },
        },
        98 => match direction {
            0 => BaseCellRotation { base_cell: 98, ccw_rotation_60: 0 },
            1 => BaseCellRotation { base_cell: 110, ccw_rotation_60: 3 },
            2 => BaseCellRotation { base_cell: 97, ccw_rotation_60: 3 },
            3 => BaseCellRotation { base_cell: 111, ccw_rotation_60: 3 },
            4 => BaseCellRotation { base_cell: 82, ccw_rotation_60: 0 },
            5 => BaseCellRotation { base_cell: 96, ccw_rotation_60: 0 },
            _ => BaseCellRotation { base_cell: 84, ccw_rotation_60: 3 },
        },
        99 => match direction {
            0 => BaseCellRotation { base_cell: 99, ccw_rotation_60: 0 },
            1 => BaseCellRotation { base_cell: 80, ccw_rotation_60: 5 },
            2 => BaseCellRotation { base_cell: 105, ccw_rotation_60: 0 },
            3 => BaseCellRotation { base_cell: 88, ccw_rotation_60: 0 },
            4 => BaseCellRotation { base_cell: 106, ccw_rotation_60: 5 },
            5 => BaseCellRotation { base_cell: 90, ccw_rotation_60: 5 },
            _ => BaseCellRotation { base_cell: 113, ccw_rotation_60: 0 },
        },
        100 => match direction {
            0 => BaseCellRotation { base_cell: 100, ccw_rotation_60: 0 },
            1 => BaseCellRotation { base_cell: 102, ccw_rotation_60: 0 },
            2 => BaseCellRotation { base_cell: 83, ccw_rotation_60: 1 },
            3 => BaseCellRotation { base_cell: 87, ccw_rotation_60: 3 },
            4 => BaseCellRotation { base_cell: 108, ccw_rotation_60: 1 },
            5 => BaseCellRotation { base_cell: 114, ccw_rotation_60: 0 },
            _ => BaseCellRotation { base_cell: 92, ccw_rotation_60: 1 },
        },
        101 => match direction {
            0 => BaseCellRotation { base_cell: 101, ccw_rotation_60: 0 },
            1 => BaseCellRotation { base_cell: 102, ccw_rotation_60: 3 },
            2 => BaseCellRotation { base_cell: 107, ccw_rotation_60: 3 },
            3 => BaseCellRotation { base_cell: 112, ccw_rotation_60: 3 },
            4 => BaseCellRotation { base_cell: 81, ccw_rotation_60: 0 },
            5 => BaseCellRotation { base_cell: 85, ccw_rotation_60: 0 },
            _ => BaseCellRotation { base_cell: 94, ccw_rotation_60: 3 },
        },
        102 => match direction {
            0 => BaseCellRotation { base_cell: 102, ccw_rotation_60: 0 },
            1 => BaseCellRotation { base_cell: 101, ccw_rotation_60: 3 },
            2 => BaseCellRotation { base_cell: 87, ccw_rotation_60: 3 },
            3 => BaseCellRotation { base_cell: 85, ccw_rotation_60: 3 },
            4 => BaseCellRotation { base_cell: 114, ccw_rotation_60: 0 },
            5 => BaseCellRotation { base_cell: 112, ccw_rotation_60: 0 },
            _ => BaseCellRotation { base_cell: 100, ccw_rotation_60: 0 },
        },
        103 => match direction {
            0 => BaseCellRotation { base_cell: 103, ccw_rotation_60: 0 },
            1 => BaseCellRotation { base_cell: 91, ccw_rotation_60: 0 },
            2 => BaseCellRotation { base_cell: 97, ccw_rotation_60: 1 },
            3 => BaseCellRotation { base_cell: 89, ccw_rotation_60: 3 },
            4 => BaseCellRotation { base_cell: 116, ccw_rotation_60: 1 },
            5 => BaseCellRotation { base_cell: 105, ccw_rotation_60: 0 },
            _ => BaseCellRotation { base_cell: 111, ccw_rotation_60: 1 },
        },
        104 => match direction {
            0 => BaseCellRotation { base_cell: 104, ccw_rotation_60: 0 },
            1 => BaseCellRotation { base_cell: 107, ccw_rotation_60: 3 },
            2 => BaseCellRotation { base_cell: 110, ccw_rotation_60: 3 },
            3 => BaseCellRotation { base_cell: 115, ccw_rotation_60: 3 },
            4 => BaseCellRotation { base_cell: 86, ccw_rotation_60: 3 },
            5 => BaseCellRotation { base_cell: 94, ccw_rotation_60: 3 },
            _ => BaseCellRotation { base_cell: 96, ccw_rotation_60: 0 },
        },
        105 => match direction {
            0 => BaseCellRotation { base_cell: 105, ccw_rotation_60: 0 },
            1 => BaseCellRotation { base_cell: 88, ccw_rotation_60: 0 },
            2 => BaseCellRotation { base_cell: 103, ccw_rotation_60: 0 },
            3 => BaseCellRotation { base_cell: 91, ccw_rotation_60: 0 },
            4 => BaseCellRotation { base_cell: 113, ccw_rotation_60: 0 },
            5 => BaseCellRotation { base_cell: 99, ccw_rotation_60: 0 },
            _ => BaseCellRotation { base_cell: 116, ccw_rotation_60: 1 },
        },
        106 => match direction {
            0 => BaseCellRotation { base_cell: 106, ccw_rotation_60: 0 },
            1 => BaseCellRotation { base_cell: 93, ccw_rotation_60: 0 },
            2 => BaseCellRotation { base_cell: 99, ccw_rotation_60: 1 },
            3 => BaseCellRotation { base_cell: 90, ccw_rotation_60: 0 },
            4 => BaseCellRotation { base_cell: 117, ccw_rotation_60: 3 },
            5 => BaseCellRotation { base_cell: 109, ccw_rotation_60: 5 },
            _ => BaseCellRotation { base_cell: 113, ccw_rotation_60: 1 },
        },
        107 => match direction {
            0 => BaseCellRotation { base_cell: 107, ccw_rotation_60: 0 },
            1 => BaseCellRotation { base_cell: 127, ccw_rotation_60: -1 },
            2 => BaseCellRotation { base_cell: 101, ccw_rotation_60: 3 },
            3 => BaseCellRotation { base_cell: 94, ccw_rotation_60: 0 },
            4 => BaseCellRotation { base_cell: 115, ccw_rotation_60: 5 },
            5 => BaseCellRotation { base_cell: 104, ccw_rotation_60: 2 },
            _ => BaseCellRotation { base_cell: 112, ccw_rotation_60: 0 },
        },
        108 => match direction {
            0 => BaseCellRotation { base_cell: 108, ccw_rotation_60: 0 },
            1 => BaseCellRotation { base_cell: 100, ccw_rotation_60: 5 },
            2 => BaseCellRotation { base_cell: 95, ccw_rotation_60: 0 },
            3 => BaseCellRotation { base_cell: 92, ccw_rotation_60: 0 },
            4 => BaseCellRotation { base_cell: 118, ccw_rotation_60: 5 },
            5 => BaseCellRotation { base_cell: 114, ccw_rotation_60: 5 },
            _ => BaseCellRotation { base_cell: 109, ccw_rotation_60: 0 },
        },
        109 => match direction {
            0 => BaseCellRotation { base_cell: 109, ccw_rotation_60: 0 },
            1 => BaseCellRotation { base_cell: 108, ccw_rotation_60: 0 },
            2 => BaseCellRotation { base_cell: 93, ccw_rotation_60: 1 },
            3 => BaseCellRotation { base_cell: 95, ccw_rotation_60: 0 },
            4 => BaseCellRotation { base_cell: 117, ccw_rotation_60: 4 },
            5 => BaseCellRotation { base_cell: 118, ccw_rotation_60: 5 },
            _ => BaseCellRotation { base_cell: 106, ccw_rotation_60: 1 },
        },
        110 => match direction {
            0 => BaseCellRotation { base_cell: 110, ccw_rotation_60: 0 },
            1 => BaseCellRotation { base_cell: 98, ccw_rotation_60: 3 },
            2 => BaseCellRotation { base_cell: 104, ccw_rotation_60: 3 },
            3 => BaseCellRotation { base_cell: 96, ccw_rotation_60: 3 },
            4 => BaseCellRotation { base_cell: 119, ccw_rotation_60: 0 },
            5 => BaseCellRotation { base_cell: 111, ccw_rotation_60: 0 },
            _ => BaseCellRotation { base_cell: 115, ccw_rotation_60: 0 },
        },
        111 => match direction {
            0 => BaseCellRotation { base_cell: 111, ccw_rotation_60: 0 },
            1 => BaseCellRotation { base_cell: 97, ccw_rotation_60: 0 },
            2 => BaseCellRotation { base_cell: 110, ccw_rotation_60: 0 },
            3 => BaseCellRotation { base_cell: 98, ccw_rotation_60: 3 },
            4 => BaseCellRotation { base_cell: 116, ccw_rotation_60: 0 },
            5 => BaseCellRotation { base_cell: 103, ccw_rotation_60: 5 },
            _ => BaseCellRotation { base_cell: 119, ccw_rotation_60: 0 },
        },
        112 => match direction {
            0 => BaseCellRotation { base_cell: 112, ccw_rotation_60: 0 },
            1 => BaseCellRotation { base_cell: 107, ccw_rotation_60: 0 },
            2 => BaseCellRotation { base_cell: 102, ccw_rotation_60: 0 },
            3 => BaseCellRotation { base_cell: 101, ccw_rotation_60: 3 },
            4 => BaseCellRotation { base_cell: 120, ccw_rotation_60: 0 },
            5 => BaseCellRotation { base_cell: 115, ccw_rotation_60: 5 },
            _ => BaseCellRotation { base_cell: 114, ccw_rotation_60: 0 },
        },
        113 => match direction {
            0 => BaseCellRotation { base_cell: 113, ccw_rotation_60: 0 },
            1 => BaseCellRotation { base_cell: 99, ccw_rotation_60: 0 },
            2 => BaseCellRotation { base_cell: 116, ccw_rotation_60: 1 },
            3 => BaseCellRotation { base_cell: 105, ccw_rotation_60: 0 },
            4 => BaseCellRotation { base_cell: 117, ccw_rotation_60: 2 },
            5 => BaseCellRotation { base_cell: 106, ccw_rotation_60: 5 },
            _ => BaseCellRotation { base_cell: 121, ccw_rotation_60: 1 },
        },
        114 => match direction {
            0 => BaseCellRotation { base_cell: 114, ccw_rotation_60: 0 },
            1 => BaseCellRotation { base_cell: 112, ccw_rotation_60: 0 },
            2 => BaseCellRotation { base_cell: 100, ccw_rotation_60: 0 },
            3 => BaseCellRotation { base_cell: 102, ccw_rotation_60: 0 },
            4 => BaseCellRotation { base_cell: 118, ccw_rotation_60: 0 },
            5 => BaseCellRotation { base_cell: 120, ccw_rotation_60: 0 },
            _ => BaseCellRotation { base_cell: 108, ccw_rotation_60: 1 },
        },
        115 => match direction {
            0 => BaseCellRotation { base_cell: 115, ccw_rotation_60: 0 },
            1 => BaseCellRotation { base_cell: 110, ccw_rotation_60: 0 },
            2 => BaseCellRotation { base_cell: 107, ccw_rotation_60: 1 },
            3 => BaseCellRotation { base_cell: 104, ccw_rotation_60: 3 },
            4 => BaseCellRotation { base_cell: 120, ccw_rotation_60: 1 },
            5 => BaseCellRotation { base_cell: 119, ccw_rotation_60: 0 },
            _ => BaseCellRotation { base_cell: 112, ccw_rotation_60: 1 },
        },
        116 => match direction {
            0 => BaseCellRotation { base_cell: 116, ccw_rotation_60: 0 },
            1 => BaseCellRotation { base_cell: 103, ccw_rotation_60: 5 },
            2 => BaseCellRotation { base_cell: 119, ccw_rotation_60: 0 },
            3 => BaseCellRotation { base_cell: 111, ccw_rotation_60: 0 },
            4 => BaseCellRotation { base_cell: 113, ccw_rotation_60: 5 },
            5 => BaseCellRotation { base_cell: 105, ccw_rotation_60: 5 },
            _ => BaseCellRotation { base_cell: 121, ccw_rotation_60: 0 },
        },
        117 => match direction {
            0 => BaseCellRotation { base_cell: 117, ccw_rotation_60: 0 },
            1 => BaseCellRotation { base_cell: 127, ccw_rotation_60: -1 },
            2 => BaseCellRotation { base_cell: 109, ccw_rotation_60: 1 },
            3 => BaseCellRotation { base_cell: 118, ccw_rotation_60: 0 },
            4 => BaseCellRotation { base_cell: 113, ccw_rotation_60: 3 },
            5 => BaseCellRotation { base_cell: 121, ccw_rotation_60: 4 },
            _ => BaseCellRotation { base_cell: 106, ccw_rotation_60: 2 },
        },
        118 => match direction {
            0 => BaseCellRotation { base_cell: 118, ccw_rotation_60: 0 },
            1 => BaseCellRotation { base_cell: 120, ccw_rotation_60: 0 },
            2 => BaseCellRotation { base_cell: 108, ccw_rotation_60: 1 },
            3 => BaseCellRotation { base_cell: 114, ccw_rotation_60: 0 },
            4 => BaseCellRotation { base_cell: 117, ccw_rotation_60: 0 },
            5 => BaseCellRotation { base_cell: 121, ccw_rotation_60: 5 },
            _ => BaseCellRotation { base_cell: 109, ccw_rotation_60: 1 },
        },
        119 => match direction {
            0 => BaseCellRotation { base_cell: 119, ccw_rotation_60: 0 },
            1 => BaseCellRotation { base_cell: 111, ccw_rotation_60: 0 },
            2 => BaseCellRotation { base_cell: 115, ccw_rotation_60: 0 },
            3 => BaseCellRotation { base_cell: 110, ccw_rotation_60: 0 },
            4 => BaseCellRotation { base_cell: 121, ccw_rotation_60: 0 },
            5 => BaseCellRotation { base_cell: 116, ccw_rotation_60: 0 },
            _ => BaseCellRotation { base_cell: 120, ccw_rotation_60: 1 },
        },
        120 => match direction {
            0 => BaseCellRotation { base_cell: 120, ccw_rotation_60: 0 },
            1 => BaseCellRotation { base_cell: 115, ccw_rotation_60: 5 },
            2 => BaseCellRotation { base_cell: 114, ccw_rotation_60: 0 },
            3 => BaseCellRotation { base_cell: 112, ccw_rotation_60: 0 },
            4 => BaseCellRotation { base_cell: 121, ccw_rotation_60: 5 },
            5 => BaseCellRotation { base_cell: 119, ccw_rotation_60: 5 },
            _ => BaseCellRotation { base_cell: 118, ccw_rotation_60: 0 },
        },
        _ => match direction {
            0 => BaseCellRotation { base_cell: 121, ccw_rotation_60: 0 },
            1 => BaseCellRotation { base_cell: 116, ccw_rotation_60: 0 },
            2 => BaseCellRotation { base_cell: 120, ccw_rotation_60: 1 },
            3 => BaseCellRotation { base_cell: 119, ccw_rotation_60: 0 },
            4 => BaseCellRotation { base_cell: 117, ccw_rotation_60: 1 },
            5 => BaseCellRotation { base_cell: 113, ccw_rotation_60: 5 },
            _ => BaseCellRotation { base_cell: 118, ccw_rotation_60: 1 },
        },
    }
}

} // verus!
