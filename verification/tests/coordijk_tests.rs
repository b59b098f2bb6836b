use hexgrid::coordijk::CoordIJK;
use hexgrid::direction::Direction;

#[test]
fn normalize_is_idempotent_and_leaves_min_zero() {
    let mut c = CoordIJK::new(-3, 5, 2);
    c.normalize();
    assert_eq!((0, 8, 5), (c.i, c.j, c.k));
    let once = c;
    c.normalize();
    assert_eq!(once, c);
    assert_eq!(0, c.i.min(c.j).min(c.k));

    let mut d = CoordIJK::new(4, 7, 2);
    d.normalize();
    assert_eq!((2, 5, 0), (d.i, d.j, d.k));
}

#[test]
fn aperture_7_round_trip_at_grid_aligned_points() {
    // refine a parent point, then take the parent of the refinement
    let mut c = CoordIJK::new(1, 0, 0);
    c.down_aperture_7();
    assert_eq!((3, 0, 1), (c.i, c.j, c.k));
    let child = c;
    c.up_aperture_7();
    assert_eq!((1, 0, 0), (c.i, c.j, c.k));
    c.down_aperture_7();
    assert_eq!(child, c);

    let mut r = CoordIJK::new(2, 1, 0);
    r.down_aperture_7r();
    let childr = r;
    r.up_aperture_7r();
    assert_eq!((2, 1, 0), (r.i, r.j, r.k));
    r.down_aperture_7r();
    assert_eq!(childr, r);
}

#[test]
fn six_ccw_rotations_return_the_original() {
    let mut c = CoordIJK::new(1, 2, 0);
    for _ in 0..6 {
        c.rotate_60ccw();
    }
    assert_eq!((1, 2, 0), (c.i, c.j, c.k));
}

#[test]
fn distance_is_zero_on_self_and_symmetric() {
    let a = CoordIJK::new(1, 2, 0);
    let b = CoordIJK::new(4, 0, 3);
    assert_eq!(0, a.distance(&a));
    assert_eq!(0, b.distance(&b));
    assert_eq!(a.distance(&b), b.distance(&a));
    // normalized difference of (0,0,0) and (2,1,0) is (0,1,2): distance 2
    let o = CoordIJK::new(0, 0, 0);
    let p = CoordIJK::new(2, 1, 0);
    assert_eq!(2, o.distance(&p));
}

#[test]
fn neighbor_steps_along_a_unit_vector() {
    let mut c = CoordIJK::new(0, 0, 0);
    c.neighbor(Direction::IAxes);
    assert_eq!((1, 0, 0), (c.i, c.j, c.k));
    c.neighbor(Direction::KAxes);
    // (1,0,0) + (0,0,1) normalizes to (1,0,1)
    assert_eq!((1, 0, 1), (c.i, c.j, c.k));
    let before = c;
    c.neighbor(Direction::Center);
    assert_eq!(before, c);
    c.neighbor(Direction::Invalid);
    assert_eq!(before, c);
}

#[test]
fn aperture_3_refinements() {
    let mut c = CoordIJK::new(1, 0, 0);
    c.down_aperture_3();
    assert_eq!((2, 0, 1), (c.i, c.j, c.k));
    let mut d = CoordIJK::new(1, 0, 0);
    d.down_aperture_3r();
    assert_eq!((2, 1, 0), (d.i, d.j, d.k));
}

#[test]
fn coordinate_system_changes() {
    let mut c = CoordIJK::new(3, 1, 2);
    let ij = c.ijk_to_ij();
    assert_eq!((1, -1, 0), (ij.i, ij.j, ij.k));
    let mut ij2 = CoordIJK::new(1, -1, 0);
    let ijk = ij2.ij_to_ijk();
    assert_eq!((2, 0, 1), (ijk.i, ijk.j, ijk.k));

    let mut q = CoordIJK::new(3, 1, 2);
    q.to_cube();
    assert_eq!((-1, -1, 2), (q.i, q.j, q.k));
    assert_eq!(0, q.i + q.j + q.k);
}

#[test]
fn cube_conversion_round_trips_up_to_normalization() {
    let mut c = CoordIJK::new(3, 1, 2);
    c.to_cube();
    c.from_cube();
    // the normal form of (3, 1, 2)
    assert_eq!((2, 0, 1), (c.i, c.j, c.k));

    // a normalized point comes back exactly
    let mut d = CoordIJK::new(1, 0, 0);
    d.to_cube();
    assert_eq!((-1, 0, 1), (d.i, d.j, d.k));
    d.from_cube();
    assert_eq!((1, 0, 0), (d.i, d.j, d.k));

    // two representations of one lattice point share a cube form
    let mut e = CoordIJK::new(4, 3, 3);
    e.to_cube();
    assert_eq!((-1, 0, 1), (e.i, e.j, e.k));
}

#[test]
fn matches_compares_components() {
    let a = CoordIJK::new(1, 2, 3);
    let b = CoordIJK::new(1, 2, 3);
    let c = CoordIJK::new(1, 2, 4);
    assert!(a.matches(&b));
    assert!(!a.matches(&c));
}
