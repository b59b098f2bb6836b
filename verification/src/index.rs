//! The 64-bit packed cell identifier.
//!
//! Field layout, from the most significant bit down: 1 reserved high bit
//! (zero for valid cells), a 4-bit mode, 3 reserved bits, a 4-bit
//! resolution, a 7-bit base cell, and fifteen 3-bit digits for resolutions
//! 1 through 15. Digits beyond the index's own resolution hold the filler
//! value 7, which never decodes to a valid direction.

use vstd::prelude::*;

verus! {

use crate::base_cell::base_cell_data;
use crate::base_cell::is_base_cell_pentagon;
use crate::base_cell::spec_is_base_cell_pentagon;
use crate::coordijk::CoordIJK;
use crate::coordijk::down_ap7;
use crate::coordijk::down_ap7r;
use crate::coordijk::up_ap7r;
use crate::coordijk::neighbor_ijk;
use crate::coordijk::in_mag;
use crate::coordijk::nonneg;
use crate::coordijk::normalized;
use crate::consts::H3_CELL_MODE;
use crate::error::H3ErrorCode;
use crate::direction::Direction;
use crate::direction::dir_from_digit;
use crate::direction::digit_rotate_ccw;
use crate::direction::digit_rotate_cw;
use crate::direction::lemma_digit_rotation_inverse;

/// The bit offset of the high bit.
pub const H3_MAX_OFFSET: u64 = 63;

/// The bit offset of the mode field.
pub const H3_MODE_OFFSET: u64 = 59;

/// The bit offset of the reserved bits.
pub const H3_RESERVED_OFFSET: u64 = 56;

/// The bit offset of the resolution field.
pub const H3_RES_OFFSET: u64 = 52;

/// The bit offset of the base cell field.
pub const H3_BC_OFFSET: u64 = 45;

/// The width in bits of one resolution digit.
pub const H3_PER_DIGIT_OFFSET: u64 = 3;

/// The mask of one resolution digit, at offset zero.
pub const H3_DIGIT_MASK: u64 = 7;

/// An index with mode 0, resolution 0, base cell 0, and 7 in every digit:
/// the canonical starting value for building a cell index, which expects
/// every digit beyond the cell's resolution to stay 7.
pub const H3_INIT: u64 = 35184372088831;

/// The high bit of a packed index.
pub open spec fn get_high_bit(v: u64) -> u64 {
    v >> 63
}

/// The 4-bit mode field of a packed index.
pub open spec fn get_mode(v: u64) -> u64 {
    (v >> 59) & 15
}

/// The 3 reserved bits of a packed index.
pub open spec fn get_reserved(v: u64) -> u64 {
    (v >> 56) & 7
}

/// The 4-bit resolution field of a packed index.
pub open spec fn get_resolution(v: u64) -> u64 {
    (v >> 52) & 15
}

/// The 7-bit base cell field of a packed index.
pub open spec fn get_base_cell(v: u64) -> u64 {
    (v >> 45) & 127
}

/// The bit offset of the digit for resolution `r` (1 through 15).
pub open spec fn digit_shift(r: int) -> u64 {
    (3 * (15 - r)) as u64
}

/// The 3-bit digit for resolution `r` of a packed index.
pub open spec fn get_digit(v: u64, r: int) -> u64 {
    (v >> digit_shift(r)) & 7
}

/// The packed index with the digit for resolution `r` replaced by `d`.
pub open spec fn set_digit_bits(v: u64, r: int, d: u64) -> u64 {
    (v & !(7u64 << digit_shift(r))) | (d << digit_shift(r))
}

/// The first non-center digit scanning outward from resolution `r`; zero if
/// every digit through the index's resolution is the center digit.
pub open spec fn leading_digit_from(v: u64, r: int) -> u64
    decreases 16 - r,
{
    if r < 1 || r > 15 || r > get_resolution(v) {
        0
    } else if get_digit(v, r) != 0 {
        get_digit(v, r)
    } else {
        leading_digit_from(v, r + 1)
    }
}

/// The index's leading non-center digit, or zero if there is none.
pub open spec fn spec_leading_digit(v: u64) -> u64 {
    leading_digit_from(v, 1)
}

/// The packed index with its digits up to `n` rotated, one at a time.
pub open spec fn rotate_digits_upto(v: u64, n: int, cw: bool) -> u64
    decreases n,
{
    if n <= 0 {
        v
    } else {
        set_digit_bits(
            rotate_digits_upto(v, n - 1, cw),
            n,
            if cw {
                digit_rotate_cw(get_digit(v, n))
            } else {
                digit_rotate_ccw(get_digit(v, n))
            },
        )
    }
}

/// The packed index with every digit up to its resolution rotated 60
/// degrees clockwise.
pub open spec fn spec_rotate_60cw(v: u64) -> u64 {
    rotate_digits_upto(v, get_resolution(v) as int, true)
}

/// The packed index with every digit up to its resolution rotated 60
/// degrees counter-clockwise.
pub open spec fn spec_rotate_60ccw(v: u64) -> u64 {
    rotate_digits_upto(v, get_resolution(v) as int, false)
}

/// Structural validity of a cell index: high bit and reserved bits zero,
/// cell mode, a known base cell, every digit within its resolution a real
/// direction, the filler value 7 in every digit beyond it, and, for an
/// index rooted at a pentagon, a leading digit that is not the deleted
/// K axis.
pub open spec fn spec_valid_cell(v: u64) -> bool {
    &&& get_high_bit(v) == 0
    &&& get_mode(v) == 1
    &&& get_reserved(v) == 0
    &&& get_base_cell(v) < 122
    &&& forall|r: int| 1 <= r <= get_resolution(v) ==> get_digit(v, r) <= 6
    &&& forall|r: int| get_resolution(v) < r <= 15 ==> get_digit(v, r) == 7
    &&& (spec_is_base_cell_pentagon(get_base_cell(v) as int) ==> spec_leading_digit(v) != 1)
}

/// Identifier for a cell of the grid, packed into 64 bits.
#[derive(Clone, Copy, Debug, PartialEq, Eq, Structural)]
pub struct H3Index(pub u64);

impl View for H3Index {
    type V = u64;

    open spec fn view(&self) -> u64 {
        self.0
    }
}

/// Every field of a packed index fits its width.
proof fn lemma_field_bounds(v: u64)
    by (bit_vector)
    ensures
        v >> 63 <= 1,
        (v >> 59) & 15 <= 15,
        (v >> 56) & 7 <= 7,
        (v >> 52) & 15 <= 15,
        (v >> 45) & 127 <= 127,
{
}

/// A 3-bit digit read never exceeds 7.
proof fn lemma_digit_bound_raw(v: u64, s: u64)
    by (bit_vector)
    ensures
        (v >> s) & 7 <= 7,
{
}

/// A digit read from any resolution slot never exceeds 7.
pub proof fn lemma_digit_bound(v: u64, r: int)
    ensures
        get_digit(v, r) <= 7,
{
    lemma_digit_bound_raw(v, digit_shift(r));
}

/// The leading digit never exceeds 7.
pub proof fn lemma_leading_digit_bound(v: u64, r: int)
    ensures
        leading_digit_from(v, r) <= 7,
    decreases 16 - r,
{
    if !(r < 1 || r > 15 || r > get_resolution(v)) {
        lemma_digit_bound(v, r);
        if get_digit(v, r) == 0 {
            lemma_leading_digit_bound(v, r + 1);
        }
    }
}

/// Writing the high bit leaves every other field untouched.
proof fn lemma_set_high_bit_bits(v: u64, b: u64, s: u64)
    by (bit_vector)
    requires
        b <= 1,
        s <= 42,
    ensures
        ((v & !(1u64 << 63)) | (b << 63)) >> 63 == b,
        (((v & !(1u64 << 63)) | (b << 63)) >> 59) & 15 == (v >> 59) & 15,
        (((v & !(1u64 << 63)) | (b << 63)) >> 56) & 7 == (v >> 56) & 7,
        (((v & !(1u64 << 63)) | (b << 63)) >> 52) & 15 == (v >> 52) & 15,
        (((v & !(1u64 << 63)) | (b << 63)) >> 45) & 127 == (v >> 45) & 127,
        (((v & !(1u64 << 63)) | (b << 63)) >> s) & 7 == (v >> s) & 7,
{
}

/// Writing the mode field leaves every other field untouched.
proof fn lemma_set_mode_bits(v: u64, m: u64, s: u64)
    by (bit_vector)
    requires
        m <= 15,
        s <= 42,
    ensures
        (((v & !(15u64 << 59)) | (m << 59)) >> 59) & 15 == m,
        ((v & !(15u64 << 59)) | (m << 59)) >> 63 == v >> 63,
        (((v & !(15u64 << 59)) | (m << 59)) >> 56) & 7 == (v >> 56) & 7,
        (((v & !(15u64 << 59)) | (m << 59)) >> 52) & 15 == (v >> 52) & 15,
        (((v & !(15u64 << 59)) | (m << 59)) >> 45) & 127 == (v >> 45) & 127,
        (((v & !(15u64 << 59)) | (m << 59)) >> s) & 7 == (v >> s) & 7,
{
}

/// Writing the reserved bits leaves every other field untouched.
proof fn lemma_set_reserved_bits(v: u64, m: u64, s: u64)
    by (bit_vector)
    requires
        m <= 7,
        s <= 42,
    ensures
        (((v & !(7u64 << 56)) | (m << 56)) >> 56) & 7 == m,
        ((v & !(7u64 << 56)) | (m << 56)) >> 63 == v >> 63,
        (((v & !(7u64 << 56)) | (m << 56)) >> 59) & 15 == (v >> 59) & 15,
        (((v & !(7u64 << 56)) | (m << 56)) >> 52) & 15 == (v >> 52) & 15,
        (((v & !(7u64 << 56)) | (m << 56)) >> 45) & 127 == (v >> 45) & 127,
        (((v & !(7u64 << 56)) | (m << 56)) >> s) & 7 == (v >> s) & 7,
{
}

/// Writing the resolution field leaves every other field untouched.
proof fn lemma_set_resolution_bits(v: u64, m: u64, s: u64)
    by (bit_vector)
    requires
        m <= 15,
        s <= 42,
    ensures
        (((v & !(15u64 << 52)) | (m << 52)) >> 52) & 15 == m,
        ((v & !(15u64 << 52)) | (m << 52)) >> 63 == v >> 63,
        (((v & !(15u64 << 52)) | (m << 52)) >> 59) & 15 == (v >> 59) & 15,
        (((v & !(15u64 << 52)) | (m << 52)) >> 56) & 7 == (v >> 56) & 7,
        (((v & !(15u64 << 52)) | (m << 52)) >> 45) & 127 == (v >> 45) & 127,
        (((v & !(15u64 << 52)) | (m << 52)) >> s) & 7 == (v >> s) & 7,
{
}

/// Writing the base cell field leaves every other field untouched.
proof fn lemma_set_base_cell_bits(v: u64, m: u64, s: u64)
    by (bit_vector)
    requires
        m <= 127,
        s <= 42,
    ensures
        (((v & !(127u64 << 45)) | (m << 45)) >> 45) & 127 == m,
        ((v & !(127u64 << 45)) | (m << 45)) >> 63 == v >> 63,
        (((v & !(127u64 << 45)) | (m << 45)) >> 59) & 15 == (v >> 59) & 15,
        (((v & !(127u64 << 45)) | (m << 45)) >> 56) & 7 == (v >> 56) & 7,
        (((v & !(127u64 << 45)) | (m << 45)) >> 52) & 15 == (v >> 52) & 15,
        (((v & !(127u64 << 45)) | (m << 45)) >> s) & 7 == (v >> s) & 7,
{
}

/// Writing one digit slot leaves the other digit slots and every upper
/// field untouched.
proof fn lemma_set_digit_bits_raw(v: u64, d: u64, s: u64, s2: u64)
    by (bit_vector)
    requires
        d <= 7,
        s <= 42,
        s % 3 == 0,
        s2 <= 42,
        s2 % 3 == 0,
    ensures
        (((v & !(7u64 << s)) | (d << s)) >> s) & 7 == d,
        s2 != s ==> (((v & !(7u64 << s)) | (d << s)) >> s2) & 7 == (v >> s2) & 7,
        ((v & !(7u64 << s)) | (d << s)) >> 63 == v >> 63,
        (((v & !(7u64 << s)) | (d << s)) >> 59) & 15 == (v >> 59) & 15,
        (((v & !(7u64 << s)) | (d << s)) >> 56) & 7 == (v >> 56) & 7,
        (((v & !(7u64 << s)) | (d << s)) >> 52) & 15 == (v >> 52) & 15,
        (((v & !(7u64 << s)) | (d << s)) >> 45) & 127 == (v >> 45) & 127,
{
}

/// Field-level facts about writing one digit slot.
pub proof fn lemma_set_digit_fields(v: u64, r: int, d: u64)
    requires
        1 <= r <= 15,
        d <= 7,
    ensures
        get_digit(set_digit_bits(v, r, d), r) == d,
        forall|r2: int|
            1 <= r2 <= 15 && r2 != r ==> get_digit(set_digit_bits(v, r, d), r2) == get_digit(v, r2),
        get_high_bit(set_digit_bits(v, r, d)) == get_high_bit(v),
        get_mode(set_digit_bits(v, r, d)) == get_mode(v),
        get_reserved(set_digit_bits(v, r, d)) == get_reserved(v),
        get_resolution(set_digit_bits(v, r, d)) == get_resolution(v),
        get_base_cell(set_digit_bits(v, r, d)) == get_base_cell(v),
{
    assert(0 <= 3 * (15 - r) <= 42);
    lemma_set_digit_bits_raw(v, d, digit_shift(r), 0);
    assert forall|r2: int|
        1 <= r2 <= 15 && r2 != r implies get_digit(set_digit_bits(v, r, d), r2) == get_digit(
        v,
        r2,
    ) by {
        assert(0 <= 3 * (15 - r2) <= 42);
        lemma_set_digit_bits_raw(v, d, digit_shift(r), digit_shift(r2));
    }
}

/// Every digit slot of the all-sevens starting value holds 7, and every
/// upper field holds zero.
proof fn lemma_h3_init_bits(s: u64)
    by (bit_vector)
    requires
        s <= 42,
        s % 3 == 0,
    ensures
        (35184372088831u64 >> s) & 7 == 7,
        35184372088831u64 >> 63 == 0,
        (35184372088831u64 >> 59) & 15 == 0,
        (35184372088831u64 >> 56) & 7 == 0,
        (35184372088831u64 >> 52) & 15 == 0,
        (35184372088831u64 >> 45) & 127 == 0,
{
}

/// Two packed indexes whose every field agrees are the same value: the
/// fields partition all 64 bits.
proof fn lemma_index_ext(a: u64, b: u64)
    by (bit_vector)
    requires
        a >> 63 == b >> 63,
        (a >> 59) & 15 == (b >> 59) & 15,
        (a >> 56) & 7 == (b >> 56) & 7,
        (a >> 52) & 15 == (b >> 52) & 15,
        (a >> 45) & 127 == (b >> 45) & 127,
        (a >> 42) & 7 == (b >> 42) & 7,
        (a >> 39) & 7 == (b >> 39) & 7,
        (a >> 36) & 7 == (b >> 36) & 7,
        (a >> 33) & 7 == (b >> 33) & 7,
        (a >> 30) & 7 == (b >> 30) & 7,
        (a >> 27) & 7 == (b >> 27) & 7,
        (a >> 24) & 7 == (b >> 24) & 7,
        (a >> 21) & 7 == (b >> 21) & 7,
        (a >> 18) & 7 == (b >> 18) & 7,
        (a >> 15) & 7 == (b >> 15) & 7,
        (a >> 12) & 7 == (b >> 12) & 7,
        (a >> 9) & 7 == (b >> 9) & 7,
        (a >> 6) & 7 == (b >> 6) & 7,
        (a >> 3) & 7 == (b >> 3) & 7,
        a & 7 == b & 7,
    ensures
        a == b,
{
}

impl H3Index {
    /// An index from its packed 64-bit value.
    pub fn new(i: u64) -> (r: Self)
        ensures
            r@ == i,
    {
        Self(i)
    }

    /// The high bit, which is zero for every valid index.
    pub fn high_bit(&self) -> (r: usize)
        ensures
            r as u64 == get_high_bit(self@),
            r <= 1,
    {
        proof {
            lemma_field_bounds(self.0);
        }
        (self.0 >> 63u64) as usize
    }

    /// The index with its high bit set to `bit`.
    pub fn set_high_bit(self, bit: u64) -> (r: Self)
        requires
            bit <= 1,
        ensures
            get_high_bit(r@) == bit,
            get_mode(r@) == get_mode(self@),
            get_reserved(r@) == get_reserved(self@),
            get_resolution(r@) == get_resolution(self@),
            get_base_cell(r@) == get_base_cell(self@),
            forall|r2: int| 1 <= r2 <= 15 ==> get_digit(r@, r2) == get_digit(self@, r2),
    {
        let w = Self((self.0 & !(1u64 << 63u64)) | (bit << 63u64));
        proof {
            lemma_set_high_bit_bits(self.0, bit, 0);
            assert forall|r2: int| 1 <= r2 <= 15 implies get_digit(w@, r2) == get_digit(
                self@,
                r2,
            ) by {
                assert(0 <= 3 * (15 - r2) <= 42);
                lemma_set_high_bit_bits(self.0, bit, digit_shift(r2));
            }
        }
        w
    }

    /// The 4-bit mode field.
    pub fn mode(&self) -> (r: usize)
        ensures
            r as u64 == get_mode(self@),
            r <= 15,
    {
        proof {
            lemma_field_bounds(self.0);
        }
        ((self.0 >> 59u64) & 15) as usize
    }

    /// The index with its mode field set to `mode`.
    pub fn set_mode(self, mode: usize) -> (r: Self)
        requires
            mode <= 15,
        ensures
            get_mode(r@) == mode as u64,
            get_high_bit(r@) == get_high_bit(self@),
            get_reserved(r@) == get_reserved(self@),
            get_resolution(r@) == get_resolution(self@),
            get_base_cell(r@) == get_base_cell(self@),
            forall|r2: int| 1 <= r2 <= 15 ==> get_digit(r@, r2) == get_digit(self@, r2),
    {
        let w = Self((self.0 & !(15u64 << 59u64)) | ((mode as u64) << 59u64));
        proof {
            lemma_set_mode_bits(self.0, mode as u64, 0);
            assert forall|r2: int| 1 <= r2 <= 15 implies get_digit(w@, r2) == get_digit(
                self@,
                r2,
            ) by {
                assert(0 <= 3 * (15 - r2) <= 42);
                lemma_set_mode_bits(self.0, mode as u64, digit_shift(r2));
            }
        }
        w
    }

    /// The 3 reserved bits, which are zero for every valid index.
    pub fn reserved(&self) -> (r: usize)
        ensures
            r as u64 == get_reserved(self@),
            r <= 7,
    {
        proof {
            lemma_field_bounds(self.0);
        }
        ((self.0 >> 56u64) & 7) as usize
    }

    /// The index with its reserved bits set to `val`. A non-zero value
    /// makes the index invalid.
    pub fn set_reserved(self, val: usize) -> (r: Self)
        requires
            val <= 7,
        ensures
            get_reserved(r@) == val as u64,
            get_high_bit(r@) == get_high_bit(self@),
            get_mode(r@) == get_mode(self@),
            get_resolution(r@) == get_resolution(self@),
            get_base_cell(r@) == get_base_cell(self@),
            forall|r2: int| 1 <= r2 <= 15 ==> get_digit(r@, r2) == get_digit(self@, r2),
    {
        let w = Self((self.0 & !(7u64 << 56u64)) | ((val as u64) << 56u64));
        proof {
            lemma_set_reserved_bits(self.0, val as u64, 0);
            assert forall|r2: int| 1 <= r2 <= 15 implies get_digit(w@, r2) == get_digit(
                self@,
                r2,
            ) by {
                assert(0 <= 3 * (15 - r2) <= 42);
                lemma_set_reserved_bits(self.0, val as u64, digit_shift(r2));
            }
        }
        w
    }

    /// The 4-bit resolution field.
    pub fn resolution(&self) -> (r: usize)
        ensures
            r as u64 == get_resolution(self@),
            r <= 15,
    {
        proof {
            lemma_field_bounds(self.0);
        }
        ((self.0 >> 52u64) & 15) as usize
    }

    /// The index with its resolution field set to `resolution`.
    pub fn set_resolution(self, resolution: usize) -> (r: Self)
        requires
            resolution <= 15,
        ensures
            get_resolution(r@) == resolution as u64,
            get_high_bit(r@) == get_high_bit(self@),
            get_mode(r@) == get_mode(self@),
            get_reserved(r@) == get_reserved(self@),
            get_base_cell(r@) == get_base_cell(self@),
            forall|r2: int| 1 <= r2 <= 15 ==> get_digit(r@, r2) == get_digit(self@, r2),
    {
        let w = Self((self.0 & !(15u64 << 52u64)) | ((resolution as u64) << 52u64));
        proof {
            lemma_set_resolution_bits(self.0, resolution as u64, 0);
            assert forall|r2: int| 1 <= r2 <= 15 implies get_digit(w@, r2) == get_digit(
                self@,
                r2,
            ) by {
                assert(0 <= 3 * (15 - r2) <= 42);
                lemma_set_resolution_bits(self.0, resolution as u64, digit_shift(r2));
            }
        }
        w
    }

    /// The 7-bit base cell field.
    pub fn base_cell(&self) -> (r: usize)
        ensures
            r as u64 == get_base_cell(self@),
            r <= 127,
    {
        proof {
            lemma_field_bounds(self.0);
        }
        ((self.0 >> 45u64) & 127) as usize
    }

    /// The index with its base cell field set to `base_cell`.
    pub fn set_base_cell(self, base_cell: usize) -> (r: Self)
        requires
            base_cell <= 127,
        ensures
            get_base_cell(r@) == base_cell as u64,
            get_high_bit(r@) == get_high_bit(self@),
            get_mode(r@) == get_mode(self@),
            get_reserved(r@) == get_reserved(self@),
            get_resolution(r@) == get_resolution(self@),
            forall|r2: int| 1 <= r2 <= 15 ==> get_digit(r@, r2) == get_digit(self@, r2),
    {
        let w = Self((self.0 & !(127u64 << 45u64)) | ((base_cell as u64) << 45u64));
        proof {
            lemma_set_base_cell_bits(self.0, base_cell as u64, 0);
            assert forall|r2: int| 1 <= r2 <= 15 implies get_digit(w@, r2) == get_digit(
                self@,
                r2,
            ) by {
                assert(0 <= 3 * (15 - r2) <= 42);
                lemma_set_base_cell_bits(self.0, base_cell as u64, digit_shift(r2));
            }
        }
        w
    }

    /// The digit for resolution `resolution`, decoded as a direction; the
    /// filler value 7 decodes as `Invalid`.
    pub fn index_digit(&self, resolution: usize) -> (r: Direction)
        requires
            1 <= resolution <= 15,
        ensures
            r == dir_from_digit(get_digit(self@, resolution as int)),
    {
        let s: usize = (15 - resolution) * 3;
        proof {
            assert(s as u64 == digit_shift(resolution as int));
        }
        let d: u64 = (self.0 >> (s as u64)) & 7;
        Direction::from_digit(d)
    }

    /// The index with the digit for resolution `resolution` replaced by
    /// `digit`.
    pub fn set_index_digit(self, resolution: usize, digit: u64) -> (r: Self)
        requires
            1 <= resolution <= 15,
            digit <= 7,
        ensures
            r@ == set_digit_bits(self@, resolution as int, digit),
            get_digit(r@, resolution as int) == digit,
            forall|r2: int|
                1 <= r2 <= 15 && r2 != resolution ==> get_digit(r@, r2) == get_digit(self@, r2),
            get_high_bit(r@) == get_high_bit(self@),
            get_mode(r@) == get_mode(self@),
            get_reserved(r@) == get_reserved(self@),
            get_resolution(r@) == get_resolution(self@),
            get_base_cell(r@) == get_base_cell(self@),
    {
        let s: usize = (15 - resolution) * 3;
        proof {
            assert(s as u64 == digit_shift(resolution as int));
            lemma_set_digit_fields(self.0, resolution as int, digit);
        }
        Self((self.0 & !(7u64 << (s as u64))) | (digit << (s as u64)))
    }

    /// Builds a cell index: cell mode, the given resolution and base cell,
    /// the given direction in every digit up to the resolution, and the
    /// filler value 7 in every digit beyond it.
    pub fn init(resolution: usize, base_cell: usize, direction: Direction) -> (r: Self)
        requires
            resolution <= 15,
            base_cell <= 127,
        ensures
            get_mode(r@) == 1,
            get_high_bit(r@) == 0,
            get_reserved(r@) == 0,
            get_resolution(r@) == resolution as u64,
            get_base_cell(r@) == base_cell as u64,
            forall|r2: int|
                1 <= r2 <= resolution ==> get_digit(r@, r2) == crate::direction::dir_digit(
                    direction,
                ),
            forall|r2: int| resolution < r2 <= 15 ==> get_digit(r@, r2) == 7,
    {
        proof {
            assert forall|r2: int| 1 <= r2 <= 15 implies get_digit(H3_INIT, r2) == 7 by {
                assert(0 <= 3 * (15 - r2) <= 42);
                lemma_h3_init_bits(digit_shift(r2));
            }
            lemma_h3_init_bits(0);
        }
        let mut h = Self(H3_INIT).set_mode(H3_CELL_MODE).set_resolution(resolution).set_base_cell(
            base_cell,
        );
        let d: u64 = direction.digit();
        let mut r: usize = 1;
        while r <= resolution
            invariant
                1 <= r <= resolution + 1,
                resolution <= 15,
                d == crate::direction::dir_digit(direction),
                get_mode(h@) == 1,
                get_high_bit(h@) == 0,
                get_reserved(h@) == 0,
                get_resolution(h@) == resolution as u64,
                get_base_cell(h@) == base_cell as u64,
                forall|r2: int| 1 <= r2 < r ==> get_digit(h@, r2) == d,
                forall|r2: int| r <= r2 <= 15 ==> get_digit(h@, r2) == 7,
            decreases resolution + 1 - r,
    {
            h = h.set_index_digit(r, d);
            r = r + 1;
        }
        h
    }

    /// Whether the index names a pentagonal cell: the pentagon property
    /// belongs to the base cell, whatever the finer digits hold.
    pub fn is_pentagon(&self) -> (r: bool)
        ensures
            r == spec_is_base_cell_pentagon(get_base_cell(self@) as int),
    {
        is_base_cell_pentagon(self.base_cell())
    }

    /// The first non-center digit scanning from resolution 1 up to the
    /// index's own resolution: which direction from the base cell's center
    /// the cell lies in. `Center` if every digit is the center digit.
    pub fn leading_non_zero_digit(&self) -> (r: Direction)
        ensures
            r == dir_from_digit(spec_leading_digit(self@)),
    {
        let res = self.resolution();
        let mut rr: usize = 1;
        while rr <= res
            invariant
                1 <= rr <= res + 1,
                res as u64 == get_resolution(self@),
                res <= 15,
                spec_leading_digit(self@) == leading_digit_from(self@, rr as int),
            decreases res + 1 - rr,
        {
            let d = self.index_digit(rr);
            if !(d == Direction::Center) {
                proof {
                    lemma_digit_bound(self@, rr as int);
                }
                return d;
            }
            rr = rr + 1;
        }
        Direction::Center
    }

    /// Rotates the cell 60 degrees clockwise: every digit up to the index's
    /// resolution is replaced by its rotated counterpart; all other fields
    /// stay as they are.
    pub fn rotate_60cw(&mut self)
        ensures
            final(self)@ == spec_rotate_60cw(old(self)@),
    {
        let res = self.resolution();
        let mut r: usize = 1;
        while r <= res
            invariant
                1 <= r <= res + 1,
                res <= 15,
                res as u64 == get_resolution(old(self)@),
                self@ == rotate_digits_upto(old(self)@, (r - 1) as int, true),
            decreases res + 1 - r,
        {
            proof {
                lemma_rotate_digits_fields(old(self)@, (r - 1) as int, true);
                lemma_digit_bound(old(self)@, r as int);
            }
            let d = self.index_digit(r);
            let nd: u64 = d.rotate_60_cw().digit();
            *self = self.set_index_digit(r, nd);
            r = r + 1;
        }
        proof {
            lemma_rotate_digits_fields(old(self)@, res as int, true);
        }
    }

    /// Rotates the cell 60 degrees counter-clockwise: every digit up to the
    /// index's resolution is replaced by its rotated counterpart; all other
    /// fields stay as they are.
    pub fn rotate_60ccw(&mut self)
        ensures
            final(self)@ == spec_rotate_60ccw(old(self)@),
    {
        let res = self.resolution();
        let mut r: usize = 1;
        while r <= res
            invariant
                1 <= r <= res + 1,
                res <= 15,
                res as u64 == get_resolution(old(self)@),
                self@ == rotate_digits_upto(old(self)@, (r - 1) as int, false),
            decreases res + 1 - r,
        {
            proof {
                lemma_rotate_digits_fields(old(self)@, (r - 1) as int, false);
                lemma_digit_bound(old(self)@, r as int);
            }
            let d = self.index_digit(r);
            let nd: u64 = d.rotate_60_ccw().digit();
            *self = self.set_index_digit(r, nd);
            r = r + 1;
        }
        proof {
            lemma_rotate_digits_fields(old(self)@, res as int, false);
        }
    }

    /// Whether the index is a structurally valid cell.
    pub fn valid_cell(&self) -> (r: bool)
        ensures
            r == spec_valid_cell(self@),
    {
        if self.high_bit() != 0 {
            return false;
        }
        if self.mode() != H3_CELL_MODE {
            return false;
        }
        if self.reserved() != 0 {
            return false;
        }
        let bc = self.base_cell();
        if bc >= 122 {
            return false;
        }
        let res = self.resolution();
        let mut rr: usize = 1;
        while rr <= res
            invariant
                1 <= rr <= res + 1,
                res as u64 == get_resolution(self@),
                res <= 15,
                forall|x: int| 1 <= x < rr ==> get_digit(self@, x) <= 6,
            decreases res + 1 - rr,
        {
            let d = self.index_digit(rr);
            proof {
                lemma_digit_bound(self@, rr as int);
            }
            if d == Direction::Invalid {
                return false;
            }
            rr = rr + 1;
        }
        let mut r2: usize = res + 1;
        while r2 <= 15
            invariant
                res + 1 <= r2 <= 16,
                res as u64 == get_resolution(self@),
                res <= 15,
                forall|x: int| res < x < r2 ==> get_digit(self@, x) == 7,
            decreases 16 - r2,
        {
            let d = self.index_digit(r2);
            proof {
                lemma_digit_bound(self@, r2 as int);
            }
            if !(d == Direction::Invalid) {
                return false;
            }
            r2 = r2 + 1;
        }
        if is_base_cell_pentagon(bc) {
            let lead = self.leading_non_zero_digit();
            proof {
                lemma_leading_digit_bound(self@, 1);
            }
            if lead == Direction::KAxes {
                return false;
            }
        }
        true
    }
}

/// Digit-wise characterization of whole-index rotation: digits up to `n`
/// are rotated, digits beyond `n` and all other fields are untouched.
pub proof fn lemma_rotate_digits_fields(v: u64, n: int, cw: bool)
    requires
        0 <= n <= 15,
    ensures
        get_high_bit(rotate_digits_upto(v, n, cw)) == get_high_bit(v),
        get_mode(rotate_digits_upto(v, n, cw)) == get_mode(v),
        get_reserved(rotate_digits_upto(v, n, cw)) == get_reserved(v),
        get_resolution(rotate_digits_upto(v, n, cw)) == get_resolution(v),
        get_base_cell(rotate_digits_upto(v, n, cw)) == get_base_cell(v),
        forall|rr: int|
            1 <= rr <= n ==> get_digit(rotate_digits_upto(v, n, cw), rr) == (if cw {
                digit_rotate_cw(get_digit(v, rr))
            } else {
                digit_rotate_ccw(get_digit(v, rr))
            }),
        forall|rr: int|
            n < rr <= 15 ==> get_digit(rotate_digits_upto(v, n, cw), rr) == get_digit(v, rr),
    decreases n,
{
    if n > 0 {
        lemma_rotate_digits_fields(v, n - 1, cw);
        lemma_digit_bound(v, n);
        let prev = rotate_digits_upto(v, n - 1, cw);
        let d: u64 = if cw {
            digit_rotate_cw(get_digit(v, n))
        } else {
            digit_rotate_ccw(get_digit(v, n))
        };
        lemma_set_digit_fields(prev, n, d);
        assert(rotate_digits_upto(v, n, cw) == set_digit_bits(prev, n, d));
        assert forall|rr: int| 1 <= rr <= n implies get_digit(rotate_digits_upto(v, n, cw), rr)
            == (if cw {
            digit_rotate_cw(get_digit(v, rr))
        } else {
            digit_rotate_ccw(get_digit(v, rr))
        }) by {
            if rr < n {
                assert(get_digit(set_digit_bits(prev, n, d), rr) == get_digit(prev, rr));
            }
        }
    }
}

/// Rotating a cell index clockwise and then counter-clockwise returns the
/// original index, whatever it held.
pub proof fn lemma_index_rotate_cw_then_ccw(v: u64)
    ensures
        spec_rotate_60ccw(spec_rotate_60cw(v)) == v,
{
    let w = spec_rotate_60cw(v);
    let n = get_resolution(v) as int;
    lemma_field_bounds(v);
    lemma_rotate_digits_fields(v, n, true);
    lemma_rotate_digits_fields(w, n, false);
    let u = spec_rotate_60ccw(w);
    assert forall|rr: int| 1 <= rr <= 15 implies get_digit(u, rr) == get_digit(v, rr) by {
        lemma_digit_bound(v, rr);
        if rr <= n {
            lemma_digit_rotation_inverse(get_digit(v, rr));
        }
    }
    assert(get_digit(u, 1) == get_digit(v, 1) && digit_shift(1) == 42);
    assert(get_digit(u, 2) == get_digit(v, 2) && digit_shift(2) == 39);
    assert(get_digit(u, 3) == get_digit(v, 3) && digit_shift(3) == 36);
    assert(get_digit(u, 4) == get_digit(v, 4) && digit_shift(4) == 33);
    assert(get_digit(u, 5) == get_digit(v, 5) && digit_shift(5) == 30);
    assert(get_digit(u, 6) == get_digit(v, 6) && digit_shift(6) == 27);
    assert(get_digit(u, 7) == get_digit(v, 7) && digit_shift(7) == 24);
    assert(get_digit(u, 8) == get_digit(v, 8) && digit_shift(8) == 21);
    assert(get_digit(u, 9) == get_digit(v, 9) && digit_shift(9) == 18);
    assert(get_digit(u, 10) == get_digit(v, 10) && digit_shift(10) == 15);
    assert(get_digit(u, 11) == get_digit(v, 11) && digit_shift(11) == 12);
    assert(get_digit(u, 12) == get_digit(v, 12) && digit_shift(12) == 9);
    assert(get_digit(u, 13) == get_digit(v, 13) && digit_shift(13) == 6);
    assert(get_digit(u, 14) == get_digit(v, 14) && digit_shift(14) == 3);
    assert(get_digit(u, 15) == get_digit(v, 15) && digit_shift(15) == 0);
    assert((u >> 42u64) & 7 == (v >> 42u64) & 7);
    assert((u >> 39u64) & 7 == (v >> 39u64) & 7);
    assert((u >> 36u64) & 7 == (v >> 36u64) & 7);
    assert((u >> 33u64) & 7 == (v >> 33u64) & 7);
    assert((u >> 30u64) & 7 == (v >> 30u64) & 7);
    assert((u >> 27u64) & 7 == (v >> 27u64) & 7);
    assert((u >> 24u64) & 7 == (v >> 24u64) & 7);
    assert((u >> 21u64) & 7 == (v >> 21u64) & 7);
    assert((u >> 18u64) & 7 == (v >> 18u64) & 7);
    assert((u >> 15u64) & 7 == (v >> 15u64) & 7);
    assert((u >> 12u64) & 7 == (v >> 12u64) & 7);
    assert((u >> 9u64) & 7 == (v >> 9u64) & 7);
    assert((u >> 6u64) & 7 == (v >> 6u64) & 7);
    assert((u >> 3u64) & 7 == (v >> 3u64) & 7);
    assert(u & 7 == (u >> 0u64) & 7 && v & 7 == (v >> 0u64) & 7) by (bit_vector);
    lemma_index_ext(u, v);
}

/// The coordinate refinement of an index's digits: starting from the base
/// cell's home coordinate, each resolution applies the aperture-7 child
/// transform for its grid class and steps to the digit's neighbor.
pub open spec fn spec_refine_coord(v0: (int, int, int), h: u64, r: int) -> (int, int, int)
    decreases r,
{
    if r <= 0 {
        v0
    } else {
        let prev = spec_refine_coord(v0, h, r - 1);
        let stepped = if r % 2 == 1 {
            down_ap7(prev)
        } else {
            down_ap7r(prev)
        };
        neighbor_ijk(stepped, get_digit(h, r) as int)
    }
}

/// Whether every refinement stage stays within the tractable coordinate
/// range; a violation is treated as an internal error.
pub open spec fn spec_refine_ok(v0: (int, int, int), h: u64, res: int) -> bool {
    forall|r: int| 0 <= r <= res ==> in_mag(#[trigger] spec_refine_coord(v0, h, r), 8_000_000)
}

/// The secondary overage loop for cells rooted at a pentagon: adjust until
/// no further face change occurs, giving up (None) when the iteration bound
/// or the tractable coordinate range is exceeded.
pub open spec fn spec_sec_overage(f: (int, (int, int, int)), res2: int, fuel: int) -> Option<
    (int, (int, int, int)),
>
    decreases fuel,
{
    if fuel <= 0 {
        None
    } else if !in_mag(f.1, 400_000_000) {
        None
    } else {
        let a = crate::faceijk::spec_adjust_overage(f, res2, false, false);
        if a.2 == crate::faceijk::Overage::NoOverage {
            Some((a.0, a.1))
        } else {
            spec_sec_overage((a.0, a.1), res2, fuel - 1)
        }
    }
}

/// Runs the per-digit refinement of `h` from the home coordinate: the
/// aperture-7 child transform for each resolution's grid class, then the
/// step to that resolution's digit. Fails when a stage leaves the tractable
/// coordinate range.
#[verifier::rlimit(100)]
fn refine_digits(h: &H3Index, home: CoordIJK, res: usize) -> (r: Result<CoordIJK, H3ErrorCode>)
    requires
        res as u64 == get_resolution(h@),
        res <= 15,
        nonneg(home@),
        normalized(home@),
        in_mag(home@, 2),
    ensures
        match r {
            Ok(c) => {
                &&& spec_refine_ok(home@, h@, res as int)
                &&& c@ == spec_refine_coord(home@, h@, res as int)
                &&& nonneg(c@)
                &&& normalized(c@)
                &&& in_mag(c@, 8_000_000)
            },
            Err(e) => e == H3ErrorCode::Failed && !spec_refine_ok(home@, h@, res as int),
        },
{
    let mut coord = home;
    let mut rr: usize = 1;
    while rr <= res
        invariant
            1 <= rr <= res + 1,
            res as u64 == get_resolution(h@),
            res <= 15,
            coord@ == spec_refine_coord(home@, h@, rr - 1),
            nonneg(coord@),
            normalized(coord@),
            forall|r2: int|
                0 <= r2 < rr - 1 ==> in_mag(#[trigger] spec_refine_coord(home@, h@, r2), 8_000_000),
        decreases res + 1 - rr,
    {
        if coord.i > 8_000_000 || coord.j > 8_000_000 || coord.k > 8_000_000 {
            proof {
                assert(!in_mag(spec_refine_coord(home@, h@, rr - 1), 8_000_000));
            }
            return Err(H3ErrorCode::Failed);
        }
        if rr % 2 == 1 {
            coord.down_aperture_7();
        } else {
            coord.down_aperture_7r();
        }
        let d = h.index_digit(rr);
        proof {
            lemma_digit_bound(h@, rr as int);
        }
        coord.neighbor(d);
        rr = rr + 1;
    }
    if coord.i > 8_000_000 || coord.j > 8_000_000 || coord.k > 8_000_000 {
        proof {
            assert(!in_mag(spec_refine_coord(home@, h@, res as int), 8_000_000));
        }
        return Err(H3ErrorCode::Failed);
    }
    proof {
        assert(spec_refine_ok(home@, h@, res as int));
    }
    Ok(coord)
}

/// Runs the secondary overage loop for a cell rooted at a pentagon: adjust
/// until no further face change occurs, within the fixed iteration bound.
fn settle_pentagon_overage(fijk: &mut crate::faceijk::FaceIJK, res2: usize) -> (r: Result<
    (),
    H3ErrorCode,
>)
    requires
        res2 <= 16,
        res2 % 2 == 0,
        0 <= old(fijk).face < 20,
        nonneg(old(fijk).coord@),
        normalized(old(fijk).coord@),
        in_mag(old(fijk).coord@, 950_000_000),
    ensures
        match r {
            Ok(u) => {
                &&& spec_sec_overage(old(fijk)@, res2 as int, 4) == Some(
                    (final(fijk).face as int, final(fijk).coord@),
                )
                &&& 0 <= final(fijk).face < 20
                &&& nonneg(final(fijk).coord@)
                &&& normalized(final(fijk).coord@)
                &&& in_mag(final(fijk).coord@, 950_000_000)
            },
            Err(e) => {
                &&& e == H3ErrorCode::Pentagon
                &&& spec_sec_overage(old(fijk)@, res2 as int, 4) is None
            },
        },
{
    let mut fuel: usize = 4;
    loop
        invariant_except_break
            spec_sec_overage(old(fijk)@, res2 as int, 4) == spec_sec_overage(
                fijk@,
                res2 as int,
                fuel as int,
            ),
        invariant
            fuel <= 4,
            res2 <= 16,
            res2 % 2 == 0,
            0 <= fijk.face < 20,
            nonneg(fijk.coord@),
            normalized(fijk.coord@),
            in_mag(fijk.coord@, 950_000_000),
        ensures
            spec_sec_overage(old(fijk)@, res2 as int, 4) == Some((fijk.face as int, fijk.coord@)),
        decreases fuel,
    {
        if fuel == 0 {
            proof {
                assert(spec_sec_overage(old(fijk)@, res2 as int, 4) is None);
            }
            return Err(H3ErrorCode::Pentagon);
        }
        if fijk.coord.i > 400_000_000 || fijk.coord.j > 400_000_000 || fijk.coord.k
            > 400_000_000 {
            proof {
                assert(spec_sec_overage(old(fijk)@, res2 as int, 4) is None);
            }
            return Err(H3ErrorCode::Pentagon);
        }
        let ghost prestate = fijk@;
        let o2 = fijk.adjust_overage_cII(res2, 0, 0);
        if o2 == crate::faceijk::Overage::NoOverage {
            proof {
                assert(spec_sec_overage(prestate, res2 as int, fuel as int) == Some(
                    (fijk.face as int, fijk.coord@),
                ));
            }
            break ;
        }
        fuel = fuel - 1;
    }
    Ok(())
}


/// The face-overage correction phase of the conversion, on the refined
/// coordinate: drop Class III results into the finer Class II grid, adjust
/// for overage (with the pentagon leading-digit correction when asked),
/// settle secondary overages for pentagon-rooted cells, and step back up to
/// the cell's own grid. Coordinates that leave the tractable range are an
/// internal failure; a pentagon correction that does not settle is a
/// pentagon-distortion error.
#[verifier::opaque]
pub open spec fn spec_overage_phase(
    home_face: int,
    refined: (int, int, int),
    pent: bool,
    pl4: bool,
    res: int,
) -> Result<(int, (int, int, int)), H3ErrorCode> {
    let res2 = if res % 2 == 1 {
        res + 1
    } else {
        res
    };
    let work = if res % 2 == 1 {
        down_ap7r(refined)
    } else {
        refined
    };
    if !in_mag(work, 40_000_000) {
        Err(H3ErrorCode::Failed)
    } else {
        let a0 = crate::faceijk::spec_adjust_overage((home_face, work), res2, pl4, false);
        if a0.2 == crate::faceijk::Overage::NoOverage {
            if res2 != res {
                Ok((a0.0, refined))
            } else {
                Ok((a0.0, a0.1))
            }
        } else {
            let settled = if pent {
                spec_sec_overage((a0.0, a0.1), res2, 4)
            } else {
                Some((a0.0, a0.1))
            };
            match settled {
                None => Err(H3ErrorCode::Pentagon),
                Some(st) => {
                    if res2 != res {
                        if !in_mag(st.1, 100_000_000) {
                            Err(H3ErrorCode::Failed)
                        } else {
                            let up = up_ap7r(st.1);
                            if !in_mag(up, 8_000_000) {
                                Err(H3ErrorCode::Failed)
                            } else {
                                Ok((st.0, up))
                            }
                        }
                    } else {
                        if !in_mag(st.1, 8_000_000) {
                            Err(H3ErrorCode::Failed)
                        } else {
                            Ok((st.0, st.1))
                        }
                    }
                },
            }
        }
    }
}

/// The face coordinate an index names, or the error that stops the
/// conversion: an unknown base cell is invalid; a refinement or correction
/// that leaves the tractable coordinate range is an internal failure; a
/// pentagon correction that does not settle is a pentagon-distortion error.
pub open spec fn spec_to_faceijk(v: u64) -> Result<(int, (int, int, int)), H3ErrorCode> {
    let bc = get_base_cell(v) as int;
    if bc >= 122 {
        Err(H3ErrorCode::CellInvalid)
    } else {
        let h = if spec_is_base_cell_pentagon(bc) && spec_leading_digit(v) == 5 {
            spec_rotate_60cw(v)
        } else {
            v
        };
        let res = get_resolution(v) as int;
        let home_face = crate::base_cell::spec_base_cell_data(bc).0;
        let home = crate::base_cell::spec_base_cell_data(bc).1;
        if !spec_refine_ok(home, h, res) {
            Err(H3ErrorCode::Failed)
        } else {
            let refined = spec_refine_coord(home, h, res);
            let possible_overage = !(!spec_is_base_cell_pentagon(bc) && (res == 0 || home == (
            0int,
            0int,
            0int,
            )));
            if !possible_overage {
                Ok((home_face, refined))
            } else {
                let pl4 = spec_is_base_cell_pentagon(bc) && spec_leading_digit(h) == 4;
                spec_overage_phase(home_face, refined, spec_is_base_cell_pentagon(bc), pl4, res)
            }
        }
    }
}

/// Runs the face-overage correction phase on the refined coordinate.
#[verifier::rlimit(100)]
fn overage_phase(face: i32, coord: CoordIJK, pent: bool, pl4: bool, res: usize) -> (r: Result<
    crate::faceijk::FaceIJK,
    H3ErrorCode,
>)
    requires
        0 <= face < 20,
        nonneg(coord@),
        normalized(coord@),
        in_mag(coord@, 8_000_000),
        res <= 15,
    ensures
        match r {
            Ok(f) => {
                &&& spec_overage_phase(face as int, coord@, pent, pl4, res as int) == Ok::<
                    (int, (int, int, int)),
                    H3ErrorCode,
                >((f.face as int, f.coord@))
                &&& 0 <= f.face < 20
                &&& nonneg(f.coord@)
                &&& normalized(f.coord@)
                &&& in_mag(f.coord@, 8_000_000)
            },
            Err(e) => spec_overage_phase(face as int, coord@, pent, pl4, res as int) == Err::<
                (int, (int, int, int)),
                H3ErrorCode,
            >(e),
        },
{
    proof {
        reveal(spec_overage_phase);
    }
    let mut fijk = crate::faceijk::FaceIJK { face, coord };
    let mut res2: usize = res;
    if res % 2 == 1 {
        fijk.coord.down_aperture_7r();
        res2 = res + 1;
    }
    if fijk.coord.i > 40_000_000 || fijk.coord.j > 40_000_000 || fijk.coord.k > 40_000_000 {
        proof {
            assert(!in_mag(fijk.coord@, 40_000_000));
        }
        return Err(H3ErrorCode::Failed);
    }
    let pl4flag: i32 = if pl4 {
        1
    } else {
        0
    };
    let ov = fijk.adjust_overage_cII(res2, pl4flag, 0);
    if ov == crate::faceijk::Overage::NoOverage {
        if res2 != res {
            return Ok(crate::faceijk::FaceIJK { face: fijk.face, coord });
        } else {
            return Ok(fijk);
        }
    }
    if pent {
        match settle_pentagon_overage(&mut fijk, res2) {
            Ok(_) => {},
            Err(e) => {
                return Err(e);
            },
        }
    }
    if res2 != res {
        if fijk.coord.i > 100_000_000 || fijk.coord.j > 100_000_000 || fijk.coord.k > 100_000_000 {
            proof {
                assert(!in_mag(fijk.coord@, 100_000_000));
            }
            return Err(H3ErrorCode::Failed);
        }
        fijk.coord.up_aperture_7r();
    }
    if fijk.coord.i > 8_000_000 || fijk.coord.j > 8_000_000 || fijk.coord.k > 8_000_000 {
        proof {
            assert(!in_mag(fijk.coord@, 8_000_000));
        }
        return Err(H3ErrorCode::Failed);
    }
    Ok(fijk)
}

impl H3Index {
    /// The face coordinate of the cell this index names: start at the base
    /// cell's home face and coordinate, refine through every digit, and
    /// correct for any face overage the final step introduced; cells rooted
    /// at a pentagon first shift around the missing wedge and may need the
    /// correction repeated.
    #[verifier::rlimit(100)]
    pub fn to_faceijk(&self) -> (r: Result<crate::faceijk::FaceIJK, H3ErrorCode>)
        ensures
            match r {
                Ok(f) => {
                    &&& spec_to_faceijk(self@) == Ok::<(int, (int, int, int)), H3ErrorCode>(
                        (f.face as int, f.coord@),
                    )
                    &&& 0 <= f.face < 20
                    &&& nonneg(f.coord@)
                    &&& normalized(f.coord@)
                    &&& in_mag(f.coord@, 8_000_000)
                },
                Err(e) => spec_to_faceijk(self@) == Err::<(int, (int, int, int)), H3ErrorCode>(e),
            },
    {
        let bc = self.base_cell();
        if bc >= 122 {
            return Err(H3ErrorCode::CellInvalid);
        }
        let is_pent = is_base_cell_pentagon(bc);
        let mut h = *self;
        proof {
            lemma_leading_digit_bound(self@, 1);
        }
        if is_pent && h.leading_non_zero_digit() == Direction::IKAxes {
            h.rotate_60cw();
        }
        proof {
            lemma_field_bounds(self@);
            if h@ != self@ {
                lemma_rotate_digits_fields(self@, get_resolution(self@) as int, true);
            }
            lemma_leading_digit_bound(h@, 1);
        }
        let data = base_cell_data(bc);
        let res = h.resolution();
        let home_coord = data.home_fijk.coord;
        let face = data.home_fijk.face;
        let possible_overage: bool = !(!is_pent && (res == 0 || (home_coord.i == 0 && home_coord.j
            == 0 && home_coord.k == 0)));
        let coord = match refine_digits(&h, home_coord, res) {
            Ok(c) => c,
            Err(e) => {
                return Err(e);
            },
        };
        if !possible_overage {
            return Ok(crate::faceijk::FaceIJK { face, coord });
        }
        let pl4 = is_pent && h.leading_non_zero_digit() == Direction::IAxes;
        overage_phase(face, coord, is_pent, pl4, res)
    }
}

/// Whether every byte is an ASCII decimal digit.
pub open spec fn all_digits(s: Seq<u8>) -> bool {
    forall|i: int| 0 <= i < s.len() ==> 48 <= #[trigger] s[i] <= 57
}

/// The number the first `n` decimal digits denote.
pub open spec fn digits_value(s: Seq<u8>, n: int) -> int
    decreases n,
{
    if n <= 0 {
        0
    } else {
        10 * digits_value(s, n - 1) + (s[n - 1] - 48)
    }
}

/// The number a decimal digit string denotes, if it is non-empty, all
/// digits, and within the 64-bit range.
pub open spec fn spec_parse_decimal(s: Seq<u8>) -> Option<u64> {
    if s.len() == 0 || !all_digits(s) || digits_value(s, s.len() as int) > u64::MAX {
        None
    } else {
        Some(digits_value(s, s.len() as int) as u64)
    }
}

/// A digit prefix of an all-digit string denotes a non-negative number.
proof fn lemma_digits_nonneg(s: Seq<u8>, n: int)
    requires
        all_digits(s),
        n <= s.len(),
    ensures
        digits_value(s, n) >= 0,
    decreases n,
{
    if n > 0 {
        lemma_digits_nonneg(s, n - 1);
    }
}

/// Reading more digits never shrinks the denoted number.
proof fn lemma_digits_monotone(s: Seq<u8>, k: int, m: int)
    requires
        all_digits(s),
        0 <= k <= m <= s.len(),
    ensures
        digits_value(s, k) <= digits_value(s, m),
    decreases m - k,
{
    if k < m {
        lemma_digits_monotone(s, k, m - 1);
        lemma_digits_nonneg(s, m - 1);
    }
}

impl H3Index {
    /// Parses the decimal text form of a cell identifier; empty input, a
    /// non-digit byte, or a value past the 64-bit range fails with the
    /// generic failure code. No cell-level validity is checked here: that
    /// is a separate, explicit check.
    pub fn parse_decimal(s: &[u8]) -> (r: Result<H3Index, H3ErrorCode>)
        ensures
            match r {
                Ok(h) => spec_parse_decimal(s@) == Some(h@),
                Err(e) => e == H3ErrorCode::Failed && spec_parse_decimal(s@) is None,
            },
    {
        if s.len() == 0 {
            return Err(H3ErrorCode::Failed);
        }
        let mut acc: u64 = 0;
        let mut i: usize = 0;
        while i < s.len()
            invariant
                i <= s.len(),
                forall|x: int| 0 <= x < i ==> 48 <= #[trigger] s@[x] <= 57,
                acc as int == digits_value(s@, i as int),
            decreases s.len() - i,
        {
            let c = s[i];
            if c < 48 || c > 57 {
                proof {
                    assert(!all_digits(s@));
                }
                return Err(H3ErrorCode::Failed);
            }
            let d: u64 = (c - 48) as u64;
            if acc > 1844674407370955161 || (acc == 1844674407370955161 && d > 5) {
                // the next digit would push the value past the 64-bit range,
                // and further digits never shrink it
                proof {
                    assert forall|x: int| 0 <= x <= i implies 48 <= #[trigger] s@[x] <= 57 by {}
                    if all_digits(s@) {
                        lemma_digits_nonneg(s@, i as int);
                        assert(digits_value(s@, i + 1) > u64::MAX);
                        lemma_digits_monotone(s@, i + 1, s@.len() as int);
                    }
                }
                return Err(H3ErrorCode::Failed);
            }
            acc = acc * 10 + d;
            i = i + 1;
        }
        Ok(H3Index(acc))
    }
}

/// The value of an ASCII hexadecimal digit, either case; -1 for any other
/// byte.
pub open spec fn hex_digit_value(b: u8) -> int {
    if 48 <= b <= 57 {
        b - 48
    } else if 97 <= b <= 102 {
        b - 87
    } else if 65 <= b <= 70 {
        b - 55
    } else {
        -1
    }
}

/// Whether every byte is an ASCII hexadecimal digit.
pub open spec fn all_hex_digits(s: Seq<u8>) -> bool {
    forall|i: int| 0 <= i < s.len() ==> hex_digit_value(#[trigger] s[i]) >= 0
}

/// The number the first `n` hexadecimal digits denote.
pub open spec fn hex_digits_value(s: Seq<u8>, n: int) -> int
    decreases n,
{
    if n <= 0 {
        0
    } else {
        16 * hex_digits_value(s, n - 1) + hex_digit_value(s[n - 1])
    }
}

/// The number a hexadecimal digit string denotes, if it is non-empty, all
/// hexadecimal digits, and within the 64-bit range.
pub open spec fn spec_parse_hex(s: Seq<u8>) -> Option<u64> {
    if s.len() == 0 || !all_hex_digits(s) || hex_digits_value(s, s.len() as int) > u64::MAX {
        None
    } else {
        Some(hex_digits_value(s, s.len() as int) as u64)
    }
}

/// A digit prefix of an all-hexadecimal string denotes a non-negative
/// number.
proof fn lemma_hex_digits_nonneg(s: Seq<u8>, n: int)
    requires
        all_hex_digits(s),
        n <= s.len(),
    ensures
        hex_digits_value(s, n) >= 0,
    decreases n,
{
    if n > 0 {
        lemma_hex_digits_nonneg(s, n - 1);
    }
}

/// Reading more hexadecimal digits never shrinks the denoted number.
proof fn lemma_hex_digits_monotone(s: Seq<u8>, k: int, m: int)
    requires
        all_hex_digits(s),
        0 <= k <= m <= s.len(),
    ensures
        hex_digits_value(s, k) <= hex_digits_value(s, m),
    decreases m - k,
{
    if k < m {
        lemma_hex_digits_monotone(s, k, m - 1);
        lemma_hex_digits_nonneg(s, m - 1);
    }
}

impl H3Index {
    /// Parses the hexadecimal text form of a cell identifier, either digit
    /// case, without a radix prefix; empty input, a non-hexadecimal byte,
    /// or a value past the 64-bit range fails with the generic failure
    /// code. No cell-level validity is checked here.
    pub fn parse_hex(s: &[u8]) -> (r: Result<H3Index, H3ErrorCode>)
        ensures
            match r {
                Ok(h) => spec_parse_hex(s@) == Some(h@),
                Err(e) => e == H3ErrorCode::Failed && spec_parse_hex(s@) is None,
            },
    {
        if s.len() == 0 {
            return Err(H3ErrorCode::Failed);
        }
        let mut acc: u64 = 0;
        let mut i: usize = 0;
        while i < s.len()
            invariant
                i <= s.len(),
                forall|x: int| 0 <= x < i ==> hex_digit_value(#[trigger] s@[x]) >= 0,
                acc as int == hex_digits_value(s@, i as int),
            decreases s.len() - i,
        {
            let c = s[i];
            let d: u64 = if 48 <= c && c <= 57 {
                (c - 48) as u64
            } else if 97 <= c && c <= 102 {
                (c - 87) as u64
            } else if 65 <= c && c <= 70 {
                (c - 55) as u64
            } else {
                proof {
                    assert(!all_hex_digits(s@));
                }
                return Err(H3ErrorCode::Failed);
            };
            if acc > 1152921504606846975 {
                // the next digit would push the value past the 64-bit range,
                // and further digits never shrink it
                proof {
                    assert forall|x: int| 0 <= x <= i implies hex_digit_value(#[trigger] s@[x])
                        >= 0 by {}
                    if all_hex_digits(s@) {
                        lemma_hex_digits_nonneg(s@, i as int);
                        assert(hex_digits_value(s@, i + 1) > u64::MAX);
                        lemma_hex_digits_monotone(s@, i + 1, s@.len() as int);
                    }
                }
                return Err(H3ErrorCode::Failed);
            }
            acc = acc * 16 + d;
            i = i + 1;
        }
        Ok(H3Index(acc))
    }
}

} // verus!
