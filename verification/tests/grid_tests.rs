use hexgrid::base_cell::is_base_cell_pentagon;
use hexgrid::base_cell::is_base_cell_polar_pentagon;
use hexgrid::base_cell::base_cell_data;
use hexgrid::base_cell::neighbor;
use hexgrid::direction::Direction;
use hexgrid::error::H3ErrorCode;
use hexgrid::faceijk::adjacent_face_dir;
use hexgrid::faceijk::face_neighbors;
use hexgrid::faceijk::max_dim_by_cii_res;
use hexgrid::faceijk::unit_scale_by_cii_res;
use hexgrid::math::ipow;
use hexgrid::math::num_cells;
use hexgrid::is_resolution_classIII;

#[test]
fn pentagon_base_cells_are_the_twelve() {
    let pents = [4, 14, 24, 38, 49, 58, 63, 72, 83, 97, 107, 117];
    let mut count = 0;
    for bc in 0..122 {
        if is_base_cell_pentagon(bc) {
            count += 1;
            assert!(pents.contains(&bc));
        }
    }
    assert_eq!(12, count);
    assert!(!is_base_cell_pentagon(122));
    assert!(!is_base_cell_pentagon(500));
}

#[test]
fn polar_pentagons_are_four_and_one_seventeen() {
    assert!(is_base_cell_polar_pentagon(4));
    assert!(is_base_cell_polar_pentagon(117));
    assert!(!is_base_cell_polar_pentagon(38));
    assert!(!is_base_cell_polar_pentagon(0));
}

#[test]
fn base_cell_records_agree_with_the_pentagon_flag() {
    for bc in 0..122 {
        assert_eq!(is_base_cell_pentagon(bc), base_cell_data(bc).is_pentagon);
    }
    assert_eq!(1, base_cell_data(0).home_fijk.face);
}

#[test]
fn direction_rotations_form_a_six_cycle() {
    assert_eq!(Direction::IKAxes, Direction::KAxes.rotate_60_ccw());
    assert_eq!(Direction::JKAxes, Direction::KAxes.rotate_60_cw());
    assert_eq!(Direction::Center, Direction::Center.rotate_60_ccw());
    assert_eq!(Direction::Invalid, Direction::Invalid.rotate_60_cw());
    let mut d = Direction::JAxes;
    for _ in 0..6 {
        d = d.rotate_60_ccw();
    }
    assert_eq!(Direction::JAxes, d);
    for start in 0..7u64 {
        let d = Direction::from_digit(start);
        assert_eq!(d, d.rotate_60_cw().rotate_60_ccw());
    }
}

#[test]
fn direction_digit_codes_round_trip() {
    for v in 0..7u64 {
        assert_eq!(v, Direction::from_digit(v).digit());
    }
    assert_eq!(Direction::Invalid, Direction::from_digit(7));
    assert_eq!(Direction::Invalid, Direction::from_digit(9));
    assert_eq!(7, Direction::NumDigits.digit());
    assert_eq!(1, Direction::PentagonSkippedDigit.digit());
}

#[test]
fn class_iii_resolutions_are_the_odd_ones() {
    assert!(!is_resolution_classIII(0));
    assert!(is_resolution_classIII(1));
    assert!(!is_resolution_classIII(14));
    assert!(is_resolution_classIII(15));
}

#[test]
fn ipow_matches_known_powers() {
    assert_eq!(1, ipow(7, 0));
    assert_eq!(343, ipow(7, 3));
    assert_eq!(4747561509943, ipow(7, 15));
    assert_eq!(-32, ipow(-2, 5));
    assert_eq!(1, ipow(0, 0));
    assert_eq!(0, ipow(0, 9));
}

#[test]
fn num_cells_counts_the_whole_grid() {
    assert_eq!(Ok(122), num_cells(0));
    assert_eq!(Ok(842), num_cells(1));
    assert_eq!(Ok(5882), num_cells(2));
    assert_eq!(Ok(569707381193162), num_cells(15));
    assert_eq!(Err(H3ErrorCode::Domain), num_cells(-1));
    assert_eq!(Err(H3ErrorCode::Domain), num_cells(16));
}

#[test]
fn face_tables_hold_known_entries() {
    assert_eq!(2, max_dim_by_cii_res(0));
    assert_eq!(14, max_dim_by_cii_res(2));
    assert_eq!(11529602, max_dim_by_cii_res(16));
    assert_eq!(1, unit_scale_by_cii_res(0));
    assert_eq!(5764801, unit_scale_by_cii_res(16));
    let o = face_neighbors(0, 2);
    assert_eq!(1, o.face);
    assert_eq!(5, o.ccw_rot60);
    assert_eq!((2, 2, 0), (o.translate.i, o.translate.j, o.translate.k));
    assert_eq!(0, adjacent_face_dir(3, 3));
    assert_eq!(1, adjacent_face_dir(0, 4));
    assert_eq!(2, adjacent_face_dir(0, 1));
    assert_eq!(3, adjacent_face_dir(0, 5));
    assert_eq!(-1, adjacent_face_dir(0, 12));
}

#[test]
fn base_cell_neighbors_hold_known_entries() {
    // direction 0 is always the cell itself, with no rotation
    for bc in [0usize, 4, 63, 121] {
        let n = neighbor(bc, 0);
        assert_eq!(bc as isize, n.base_cell);
        assert_eq!(0, n.ccw_rotation_60);
    }
    // base cell 0's K-axis neighbor is cell 1, rotated five times
    let n = neighbor(0, 1);
    assert_eq!(1, n.base_cell);
    assert_eq!(5, n.ccw_rotation_60);
    // a pentagon's deleted K-axis direction has no neighbor
    for bc in [4usize, 14, 24, 38, 49, 58, 63, 72, 83, 97, 107, 117] {
        let n = neighbor(bc, 1);
        assert_eq!(127, n.base_cell);
        assert_eq!(-1, n.ccw_rotation_60);
    }
    // the adjacency is symmetric: each neighbor lists the cell back
    for bc in 0..122usize {
        for d in 1..7usize {
            let n = neighbor(bc, d);
            if n.base_cell == 127 {
                continue;
            }
            let back = n.base_cell as usize;
            let mut found = false;
            for d2 in 0..7usize {
                if neighbor(back, d2).base_cell == bc as isize {
                    found = true;
                }
            }
            assert!(found);
        }
    }
}
