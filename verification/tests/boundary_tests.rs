use hexgrid::direction::Direction;
use hexgrid::faceijk::BoundarySeg;
use hexgrid::faceijk::FaceIJK;
use hexgrid::faceijk::Overage;
use hexgrid::index::H3Index;

#[test]
fn pentagon_boundary_has_five_vertices_at_resolution_zero() {
    let f: FaceIJK = H3Index::init(0, 4, Direction::Center).to_faceijk().unwrap();
    let segs = f.pentagon_to_cell_boundary(0, 0, 5).unwrap();
    assert_eq!(5, segs.len());
    for s in segs.iter() {
        assert!(matches!(s, BoundarySeg::Vert { .. }));
    }
}

#[test]
fn hexagon_boundary_has_six_vertices_at_resolution_zero() {
    let f: FaceIJK = H3Index::init(0, 0, Direction::Center).to_faceijk().unwrap();
    let segs = f.to_cell_boundary(0, 0, 6);
    assert_eq!(6, segs.len());
    for s in segs.iter() {
        assert!(matches!(s, BoundarySeg::Vert { .. }));
    }
}

#[test]
fn class_ii_boundaries_have_no_crossings_at_depth() {
    let f: FaceIJK = H3Index::init(2, 30, Direction::Center).to_faceijk().unwrap();
    let segs = f.to_cell_boundary(2, 0, 6);
    assert_eq!(6, segs.len());
    for s in segs.iter() {
        assert!(matches!(s, BoundarySeg::Vert { .. }));
    }
}

#[test]
fn overage_adjustment_moves_to_the_neighbor_face() {
    // a coordinate past face 0's extent in the IJ quadrant lands on face 4
    let mut f = FaceIJK::new(0, hexgrid::coordijk::CoordIJK::new(3, 0, 0));
    let ov = f.adjust_overage_cII(0, 0, 0);
    assert_eq!(Overage::NewFace, ov);
    assert_eq!(4, f.face);
    assert_eq!((3, 1, 0), (f.coord.i, f.coord.j, f.coord.k));
}

#[test]
fn overage_adjustment_leaves_interior_points_alone() {
    let mut f = FaceIJK::new(7, hexgrid::coordijk::CoordIJK::new(1, 1, 0));
    let ov = f.adjust_overage_cII(0, 0, 0);
    assert_eq!(Overage::NoOverage, ov);
    assert_eq!(7, f.face);
    assert_eq!((1, 1, 0), (f.coord.i, f.coord.j, f.coord.k));
}

#[test]
fn substrate_face_edge_is_reported() {
    // on a substrate grid, a component sum exactly at the tripled extent is
    // a face-edge overage and the coordinate is untouched
    let mut f = FaceIJK::new(3, hexgrid::coordijk::CoordIJK::new(4, 2, 0));
    let ov = f.adjust_overage_cII(0, 0, 1);
    assert_eq!(Overage::FaceEdge, ov);
    assert_eq!(3, f.face);
    assert_eq!((4, 2, 0), (f.coord.i, f.coord.j, f.coord.k));
}

#[test]
fn hexagon_vertices_at_resolution_zero() {
    let mut center = FaceIJK::new(1, hexgrid::coordijk::CoordIJK::new(1, 0, 0));
    let mut res: usize = 0;
    let verts = center.to_verts(&mut res);
    assert_eq!(0, res);
    assert_eq!(6, verts.len());
    // the substrate center is the aperture 3-3r image of (1, 0, 0)
    assert_eq!((3, 0, 0), (center.coord.i, center.coord.j, center.coord.k));
    // first vertex: center + (2, 1, 0), normalized
    assert_eq!((5, 1, 0), (verts[0].coord.i, verts[0].coord.j, verts[0].coord.k));
    for v in verts.iter() {
        assert_eq!(1, v.face);
    }
}

#[test]
fn pentagon_vertices_bump_class_iii_resolution() {
    let mut center = FaceIJK::new(4, hexgrid::coordijk::CoordIJK::new(0, 0, 0));
    let mut res: usize = 1;
    let verts = center.pentagon_to_verts(&mut res);
    assert_eq!(2, res);
    assert_eq!(5, verts.len());
}

#[test]
fn class_iii_pentagon_boundary_crosses_every_edge() {
    let f: FaceIJK = H3Index::init(1, 4, Direction::Center).to_faceijk().unwrap();
    let segs = f.pentagon_to_cell_boundary(1, 0, 5).unwrap();
    let verts = segs.iter().filter(|s| matches!(s, BoundarySeg::Vert { .. })).count();
    let crossings = segs.iter().filter(|s| matches!(s, BoundarySeg::Crossing { .. })).count();
    assert_eq!(5, verts);
    assert_eq!(5, crossings);
}

#[test]
fn class_iii_hexagon_boundary_keeps_six_vertices() {
    let f: FaceIJK = H3Index::init(1, 0, Direction::Center).to_faceijk().unwrap();
    let segs = f.to_cell_boundary(1, 0, 6);
    let verts = segs.iter().filter(|s| matches!(s, BoundarySeg::Vert { .. })).count();
    assert_eq!(6, verts);
    assert!(segs.len() >= 6);
}
