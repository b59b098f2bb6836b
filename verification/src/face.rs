use vstd::prelude::*;

verus! {

use crate::coordinate::Coordinate;

/// Index of the IJ quadrant in the per-face neighbor table.
pub const IJ: usize = 1;
/// Index of the KI quadrant in the per-face neighbor table.
pub const KI: usize = 2;
/// Index of the JK quadrant in the per-face neighbor table.
pub const JK: usize = 3;

/// Marker for a face that no cell maps to.
pub const INVALID_FACE: isize = -1;

/// An icosahedron face number paired with a coordinate in that face's local
/// frame, in the wide-component form.
#[derive(Clone, Copy, Debug, PartialEq, Eq, Structural)]
pub struct Face {
    pub face: isize,
    pub coord: Coordinate,
}

/// How to re-express a coordinate in an adjacent face's frame: the adjacent
/// face, a translation, and a count of 60-degree rotations.
#[derive(Clone, Copy, Debug, PartialEq, Eq, Structural)]
pub struct FaceOrient {
    pub face: isize,
    pub translate: Coordinate,
    pub ccw_rot_60: isize,
}

/// What a face-extent check found.
#[derive(Clone, Copy, Debug, PartialEq, Eq, Structural)]
pub enum Overage {
    /// No overage: the coordinate lies on its original face.
    NoOverage,
    /// The coordinate lies exactly on a face edge (substrate grids only).
    FaceEdge,
    /// The coordinate lies in a new face's interior.
    NewFace,
}

} // verus!
