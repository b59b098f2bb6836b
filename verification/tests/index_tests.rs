use hexgrid::direction::Direction;
use hexgrid::error::H3ErrorCode;
use hexgrid::index::H3Index;

#[test]
fn h3_init() {
    let h3 = H3Index::init(3, 4, Direction::Center);
    assert_eq!(3, h3.resolution());
    assert_eq!(4, h3.base_cell());
}

#[test]
fn h3_high_bit() {
    let h3 = H3Index::init(15, 4, Direction::KAxes);
    assert_eq!(0, h3.high_bit());
    assert_eq!(1, h3.set_high_bit(1).high_bit());
}

#[test]
fn h3_mode() {
    let h3 = H3Index::init(12, 4, Direction::KAxes);
    assert_eq!(1, h3.mode());
    assert_eq!(0, h3.set_mode(0).mode());
}

#[test]
fn init_sets_resolution_and_base_cell() {
    let h3 = H3Index::init(5, 10, Direction::Center);
    assert_eq!(5, h3.resolution());
    assert_eq!(10, h3.base_cell());
    assert_eq!(Direction::Center, h3.index_digit(5));
}

#[test]
fn field_round_trips_are_independent() {
    let h3 = H3Index::init(9, 77, Direction::JKAxes);
    assert_eq!(2, h3.set_mode(2).mode());
    assert_eq!(9, h3.set_mode(2).resolution());
    assert_eq!(77, h3.set_mode(2).base_cell());
    assert_eq!(3, h3.set_reserved(3).reserved());
    assert_eq!(0, h3.reserved());
    assert_eq!(12, h3.set_resolution(12).resolution());
    assert_eq!(77, h3.set_resolution(12).base_cell());
    assert_eq!(121, h3.set_base_cell(121).base_cell());
    assert_eq!(9, h3.set_base_cell(121).resolution());
    let h4 = h3.set_index_digit(4, 6);
    assert_eq!(Direction::IJAxes, h4.index_digit(4));
    assert_eq!(Direction::JKAxes, h4.index_digit(3));
    assert_eq!(Direction::JKAxes, h4.index_digit(5));
}

#[test]
fn digits_beyond_resolution_stay_filler() {
    let h3 = H3Index::init(2, 0, Direction::IAxes);
    assert_eq!(Direction::IAxes, h3.index_digit(1));
    assert_eq!(Direction::IAxes, h3.index_digit(2));
    assert_eq!(Direction::Invalid, h3.index_digit(3));
    assert_eq!(Direction::Invalid, h3.index_digit(15));
}

#[test]
fn rotate_cw_then_ccw_returns_original_index() {
    let mut h3 = H3Index::init(7, 33, Direction::IKAxes);
    let before = h3.0;
    h3.rotate_60cw();
    assert_ne!(before, h3.0);
    h3.rotate_60ccw();
    assert_eq!(before, h3.0);
}

#[test]
fn leading_non_zero_digit_finds_first_step() {
    let h3 = H3Index::init(3, 5, Direction::Center).set_index_digit(2, 2);
    assert_eq!(Direction::JAxes, h3.leading_non_zero_digit());
    let all_center = H3Index::init(3, 5, Direction::Center);
    assert_eq!(Direction::Center, all_center.leading_non_zero_digit());
}

#[test]
fn is_pentagon_follows_the_base_cell() {
    assert!(H3Index::init(0, 4, Direction::Center).is_pentagon());
    assert!(H3Index::init(2, 117, Direction::Center).is_pentagon());
    assert!(!H3Index::init(0, 0, Direction::Center).is_pentagon());
}

#[test]
fn valid_cell_accepts_well_formed_indexes() {
    assert!(H3Index::init(5, 10, Direction::Center).valid_cell());
    assert!(H3Index::init(0, 121, Direction::Center).valid_cell());
}

#[test]
fn valid_cell_rejects_structural_faults() {
    let good = H3Index::init(5, 10, Direction::Center);
    assert!(!good.set_mode(0).valid_cell());
    assert!(!good.set_mode(2).valid_cell());
    assert!(!good.set_high_bit(1).valid_cell());
    assert!(!good.set_reserved(1).valid_cell());
    assert!(!good.set_base_cell(122).valid_cell());
    // a digit inside the resolution must be a real direction
    assert!(!good.set_index_digit(3, 7).valid_cell());
    // a digit beyond the resolution must stay at the filler value
    assert!(!good.set_index_digit(6, 0).valid_cell());
    // a pentagon-rooted index may not lead with the deleted K axis
    assert!(!H3Index::init(1, 4, Direction::KAxes).valid_cell());
    assert!(H3Index::init(1, 4, Direction::JAxes).valid_cell());
}

#[test]
fn to_faceijk_rejects_unknown_base_cells() {
    let h3 = H3Index::init(0, 125, Direction::Center);
    assert_eq!(Err(H3ErrorCode::CellInvalid), h3.to_faceijk());
}

#[test]
fn base_cell_home_geometry_at_resolution_zero() {
    // base cell 0 lives on face 1 at ijk (1, 0, 0), one grid step from the
    // face center
    let f = H3Index::init(0, 0, Direction::Center).to_faceijk().unwrap();
    assert_eq!(1, f.face);
    assert_eq!((1, 0, 0), (f.coord.i, f.coord.j, f.coord.k));
    // base cell 14 (a pentagon) lives on face 11 at ijk (2, 0, 0)
    let p = H3Index::init(0, 14, Direction::Center).to_faceijk().unwrap();
    assert_eq!(11, p.face);
    assert_eq!((2, 0, 0), (p.coord.i, p.coord.j, p.coord.k));
}

#[test]
fn center_child_refines_the_home_coordinate() {
    // one aperture-7 refinement of base cell 0's home coordinate (1, 0, 0)
    let f = H3Index::init(1, 0, Direction::Center).to_faceijk().unwrap();
    assert_eq!(1, f.face);
    assert_eq!((3, 0, 1), (f.coord.i, f.coord.j, f.coord.k));
}

#[test]
fn parse_decimal_reads_the_text_form() {
    let h = H3Index::parse_decimal(b"35184372088831").unwrap();
    assert_eq!(35184372088831, h.0);
    assert_eq!(Ok(H3Index::new(0)), H3Index::parse_decimal(b"0"));
    assert_eq!(Ok(H3Index::new(18446744073709551615)), H3Index::parse_decimal(b"18446744073709551615"));
    assert_eq!(Err(H3ErrorCode::Failed), H3Index::parse_decimal(b""));
    assert_eq!(Err(H3ErrorCode::Failed), H3Index::parse_decimal(b"12a4"));
    assert_eq!(Err(H3ErrorCode::Failed), H3Index::parse_decimal(b"18446744073709551616"));
}

#[test]
fn deep_resolution_conversion_stays_on_the_grid() {
    for res in [7usize, 12, 15] {
        let f = H3Index::init(res, 10, Direction::IAxes).to_faceijk().unwrap();
        assert!((0..20).contains(&f.face));
        assert!(f.coord.i >= 0 && f.coord.j >= 0 && f.coord.k >= 0);
    }
}

#[test]
fn pentagon_conversion_handles_the_missing_wedge() {
    // a pentagon-rooted cell leading with the IK axis is shifted around the
    // deleted subsequence before refinement
    let f = H3Index::init(2, 4, Direction::IKAxes).to_faceijk().unwrap();
    assert!((0..20).contains(&f.face));
    // a pentagon-rooted cell leading with the I axis takes the
    // leading-digit overage correction
    let g = H3Index::init(1, 4, Direction::IAxes).to_faceijk().unwrap();
    assert!((0..20).contains(&g.face));
    assert!(g.coord.i >= 0 && g.coord.j >= 0 && g.coord.k >= 0);
}

#[test]
fn parse_hex_reads_the_text_form() {
    let h = H3Index::parse_hex(b"1fffffffffff").unwrap();
    assert_eq!(35184372088831, h.0);
    assert_eq!(Ok(H3Index::new(255)), H3Index::parse_hex(b"FF"));
    assert_eq!(Ok(H3Index::new(0)), H3Index::parse_hex(b"0"));
    assert_eq!(
        Ok(H3Index::new(18446744073709551615)),
        H3Index::parse_hex(b"ffffffffffffffff"),
    );
    assert_eq!(Err(H3ErrorCode::Failed), H3Index::parse_hex(b""));
    assert_eq!(Err(H3ErrorCode::Failed), H3Index::parse_hex(b"12g4"));
    assert_eq!(Err(H3ErrorCode::Failed), H3Index::parse_hex(b"10000000000000000"));
}
