use vstd::prelude::*;

verus! {

/// Result codes for grid operations.
#[derive(Clone, Copy, Debug, PartialEq, Eq, Structural)]
pub enum H3ErrorCode {
    /// No error.
    Success,
    /// The operation failed but a more specific error is not available.
    Failed,
    /// Argument was outside of acceptable range
    /// (when a more specific error code is not available).
    Domain,
    /// Latitude or longitude arguments were outside of acceptable range.
    LatLngDomain,
    /// Resolution arguments were outside of acceptable range.
    ResDomain,
    /// Cell index argument was not valid.
    CellInvalid,
    /// Directed edge argument was not valid.
    DirEdgeInvalid,
    /// Undirected edge argument was not valid.
    UnDirEdgeInvalid,
    /// Pentagon distortion was encountered which the algorithm could not handle.
    Pentagon,
    /// Duplicate input was encountered in the arguments and the algorithm
    /// could not handle it.
    DuplicateInput,
    /// Cell arguments were not neighbors.
    NotNeighbors,
    /// Cell arguments had incompatible resolutions.
    ResMismatch,
    /// Necessary memory allocation failed.
    MemoryAlloc,
    /// Bounds of provided memory were not large enough.
    MemoryBounds,
    /// Mode or flags argument was not valid.
    OptionInvalid,
}

} // verus!
