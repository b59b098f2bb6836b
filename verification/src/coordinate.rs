use vstd::prelude::*;

verus! {

/// A hexagonal-lattice coordinate in redundant three-axis form with wide
/// components, used by the resolution-0 lookup records.
/// Each axis is spaced 120 degrees apart.
#[derive(Clone, Copy, Debug, PartialEq, Eq, Structural)]
pub struct Coordinate {
    pub i: isize,
    pub j: isize,
    pub k: isize,
}

impl Coordinate {
    /// A coordinate with the given components.
    pub fn new(i: isize, j: isize, k: isize) -> (r: Self)
        ensures
            r.i == i,
            r.j == j,
            r.k == k,
    {
        Self { i, j, k }
    }
}

} // verus!
