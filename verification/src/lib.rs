pub mod base_cell;
pub mod consts;
pub mod coordinate;
pub mod coordijk;
pub mod direction;
pub mod error;
pub mod face;
pub mod faceijk;
pub mod index;
pub mod math;

use vstd::prelude::*;

verus! {

/// The most vertices a cell boundary can have: six corners plus up to four
/// extra vertices introduced where edges cross icosahedron face boundaries.
pub const MAX_CELL_BOUNDARY_VERTS: usize = 10;

/// Resolutions alternate between two grid orientations: Class II (even) and
/// Class III (odd), which is rotated relative to the icosahedron faces.
pub fn is_resolution_classIII(res: usize) -> (r: bool)
    ensures
        r == (res % 2 == 1),
{
    res % 2 > 0
}

} // verus!
