use vstd::prelude::*;

verus! {

/// Max H3 resolution; there are 16 resolutions, numbered 0 through 15.
pub const MAX_H3_RES: usize = 15;

/// The number of faces on an icosahedron.
pub const NUM_ICOSA_FACES: usize = 20;
/// The number of H3 base cells.
pub const NUM_BASE_CELLS: usize = 122;
/// The number of vertices in a hexagon.
pub const NUM_HEX_VERTS: usize = 6;
/// The number of vertices in a pentagon.
pub const NUM_PENT_VERTS: usize = 5;
/// The number of pentagons per resolution.
pub const NUM_PENTAGONS: usize = 12;

/// H3 index mode for cells (hexagons and pentagons).
pub const H3_CELL_MODE: usize = 1;
/// H3 index mode for directed edges.
pub const H3_DIRECTEDEDGE_MODE: usize = 2;
/// H3 index mode for undirected edges.
pub const H3_EDGE_MODE: usize = 3;
/// H3 index mode for vertices.
pub const H3_VERTEX_MODE: usize = 4;

} // verus!
