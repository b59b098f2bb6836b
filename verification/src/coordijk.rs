//! Integer cube coordinates on the hexagonal lattice.
//!
//! A lattice point is held as three redundant axis components `i`, `j`, `k`
//! spaced 120 degrees apart. Every transform re-normalizes so that the
//! smallest component is zero; the normal form is the canonical
//! representative of the lattice point.

use vstd::prelude::*;

verus! {

use crate::direction::Direction;
use crate::direction::dir_digit;

/// A point of the hexagonal lattice in redundant three-axis form.
#[derive(Clone, Copy, Debug, PartialEq, Eq, Structural)]
pub struct CoordIJK {
    pub i: i32,
    pub j: i32,
    pub k: i32,
}

impl View for CoordIJK {
    type V = (int, int, int);

    open spec fn view(&self) -> (int, int, int) {
        (self.i as int, self.j as int, self.k as int)
    }
}

/// The smallest of three integers.
pub open spec fn min3(a: int, b: int, c: int) -> int {
    if a <= b {
        if a <= c {
            a
        } else {
            c
        }
    } else {
        if b <= c {
            b
        } else {
            c
        }
    }
}

/// The largest of three integers.
pub open spec fn max3(a: int, b: int, c: int) -> int {
    if a >= b {
        if a >= c {
            a
        } else {
            c
        }
    } else {
        if b >= c {
            b
        } else {
            c
        }
    }
}

/// The normal form of an ijk triple: shift all components by the common
/// minimum, so that the smallest component becomes zero. Adding the same
/// amount to every component does not move the lattice point, so this is the
/// canonical representative.
pub open spec fn canon(v: (int, int, int)) -> (int, int, int) {
    let m = min3(v.0, v.1, v.2);
    (v.0 - m, v.1 - m, v.2 - m)
}

/// Whether a triple is already in normal form.
pub open spec fn normalized(v: (int, int, int)) -> bool {
    canon(v) == v
}

/// Component-wise sum.
pub open spec fn ijk_add(a: (int, int, int), b: (int, int, int)) -> (int, int, int) {
    (a.0 + b.0, a.1 + b.1, a.2 + b.2)
}

/// Component-wise difference.
pub open spec fn ijk_sub(a: (int, int, int), b: (int, int, int)) -> (int, int, int) {
    (a.0 - b.0, a.1 - b.1, a.2 - b.2)
}

/// The unit vector of each of the six axis digits; the zero vector for the
/// center digit and for out-of-range values.
pub open spec fn unit_ijk(d: int) -> (int, int, int) {
    if d == 1 {
        (0, 0, 1)
    } else if d == 2 {
        (0, 1, 0)
    } else if d == 3 {
        (0, 1, 1)
    } else if d == 4 {
        (1, 0, 0)
    } else if d == 5 {
        (1, 0, 1)
    } else if d == 6 {
        (1, 1, 0)
    } else {
        (0, 0, 0)
    }
}

/// Stepping to the neighbor in an axis digit's direction: add the digit's
/// unit vector and renormalize; a no-op for the center digit and for
/// out-of-range digit values.
pub open spec fn neighbor_ijk(v: (int, int, int), d: int) -> (int, int, int) {
    if 1 <= d <= 6 {
        canon(ijk_add(v, unit_ijk(d)))
    } else {
        v
    }
}

/// The linear part of a 60-degree counter-clockwise rotation.
pub open spec fn rot_ccw_lin(v: (int, int, int)) -> (int, int, int) {
    (v.0 + v.2, v.0 + v.1, v.1 + v.2)
}

/// The linear part of a 60-degree clockwise rotation.
pub open spec fn rot_cw_lin(v: (int, int, int)) -> (int, int, int) {
    (v.0 + v.1, v.1 + v.2, v.0 + v.2)
}

/// A 60-degree counter-clockwise rotation about the origin, renormalized.
pub open spec fn rot60ccw(v: (int, int, int)) -> (int, int, int) {
    canon(rot_ccw_lin(v))
}

/// A 60-degree clockwise rotation about the origin, renormalized.
pub open spec fn rot60cw(v: (int, int, int)) -> (int, int, int) {
    canon(rot_cw_lin(v))
}

/// The center of the aperture-7 counter-clockwise child cell, before
/// normalization: the linear map with columns (3,0,1), (1,3,0), (0,1,3).
pub open spec fn down_ap7_lin(v: (int, int, int)) -> (int, int, int) {
    (3 * v.0 + v.1, 3 * v.1 + v.2, v.0 + 3 * v.2)
}

/// The center of the aperture-7 clockwise child cell, before normalization:
/// the linear map with columns (3,1,0), (0,3,1), (1,0,3).
pub open spec fn down_ap7r_lin(v: (int, int, int)) -> (int, int, int) {
    (3 * v.0 + v.2, v.0 + 3 * v.1, v.1 + 3 * v.2)
}

/// The center of the aperture-3 counter-clockwise child cell, before
/// normalization: the linear map with columns (2,0,1), (1,2,0), (0,1,2).
pub open spec fn down_ap3_lin(v: (int, int, int)) -> (int, int, int) {
    (2 * v.0 + v.1, 2 * v.1 + v.2, v.0 + 2 * v.2)
}

/// The center of the aperture-3 clockwise child cell, before normalization:
/// the linear map with columns (2,1,0), (0,2,1), (1,0,2).
pub open spec fn down_ap3r_lin(v: (int, int, int)) -> (int, int, int) {
    (2 * v.0 + v.2, v.0 + 2 * v.1, v.1 + 2 * v.2)
}

/// Aperture-7 counter-clockwise refinement, normalized.
pub open spec fn down_ap7(v: (int, int, int)) -> (int, int, int) {
    canon(down_ap7_lin(v))
}

/// Aperture-7 clockwise refinement, normalized.
pub open spec fn down_ap7r(v: (int, int, int)) -> (int, int, int) {
    canon(down_ap7r_lin(v))
}

/// Aperture-3 counter-clockwise refinement, normalized.
pub open spec fn down_ap3(v: (int, int, int)) -> (int, int, int) {
    canon(down_ap3_lin(v))
}

/// Aperture-3 clockwise refinement, normalized.
pub open spec fn down_ap3r(v: (int, int, int)) -> (int, int, int) {
    canon(down_ap3r_lin(v))
}

/// Rounding to the nearest multiple of 7: for integer `x`, `x / 7` is never
/// an exact half, so nearest rounding has no ties and equals the floor of
/// `(x + 3) / 7`.
pub open spec fn rdiv7(x: int) -> int {
    (x + 3) / 7
}

/// The aperture-7 counter-clockwise parent of a child-grid point: drop to
/// two axes, apply the inverse child transform rounded to the nearest
/// lattice point, renormalize.
pub open spec fn up_ap7(v: (int, int, int)) -> (int, int, int) {
    let a = v.0 - v.2;
    let b = v.1 - v.2;
    canon((rdiv7(3 * a - b), rdiv7(a + 2 * b), 0))
}

/// The aperture-7 clockwise parent of a child-grid point.
pub open spec fn up_ap7r(v: (int, int, int)) -> (int, int, int) {
    let a = v.0 - v.2;
    let b = v.1 - v.2;
    canon((rdiv7(2 * a + b), rdiv7(3 * b - a), 0))
}

/// The cube form of an ijk triple: negate the first axis against the third,
/// take the second against the third, and derive the third so the
/// components sum to zero.
pub open spec fn cube_of(v: (int, int, int)) -> (int, int, int) {
    (v.2 - v.0, v.1 - v.2, (v.0 - v.2) - (v.1 - v.2))
}

/// The normalized ijk triple a cube coordinate denotes: negate the first
/// axis, drop the third, renormalize.
pub open spec fn ijk_of_cube(v: (int, int, int)) -> (int, int, int) {
    canon((-v.0, v.1, 0))
}

/// The cube form depends only on the denoted lattice point: shifting every
/// ijk component by the same amount leaves it unchanged, and conversely two
/// triples with the same cube form name the same lattice point, so the
/// conversion is injective on lattice points. Converting to cube
/// coordinates and back yields the normal form of the starting point.
pub proof fn lemma_cube_round_trip(a: (int, int, int), b: (int, int, int), t: int)
    ensures
        ijk_of_cube(cube_of(a)) == canon(a),
        cube_of((a.0 + t, a.1 + t, a.2 + t)) == cube_of(a),
        cube_of(a) == cube_of(b) ==> canon(a) == canon(b),
{
    lemma_canon_shift(a, -a.2);
    assert(ijk_of_cube(cube_of(a)) == canon((a.0 - a.2, a.1 - a.2, 0)));
    if cube_of(a) == cube_of(b) {
        let s = b.0 - a.0;
        assert(b.1 - a.1 == s && b.2 - a.2 == s);
        lemma_canon_shift(a, s);
    }
}

/// `n` successive 60-degree counter-clockwise rotations.
pub open spec fn rot60ccw_n(v: (int, int, int), n: int) -> (int, int, int)
    decreases n,
{
    if n <= 0 {
        v
    } else {
        rot60ccw(rot60ccw_n(v, n - 1))
    }
}

/// A rotation of a normalized coordinate is normalized and no larger: with
/// the smallest component at zero, the rotated components stay within the
/// largest original component.
pub proof fn lemma_rot_canon_bound(v: (int, int, int), m: int)
    requires
        normalized(v),
        in_mag(v, m),
    ensures
        normalized(rot60ccw(v)),
        in_mag(rot60ccw(v), m),
        nonneg(rot60ccw(v)),
        normalized(rot60cw(v)),
        in_mag(rot60cw(v), m),
        nonneg(rot60cw(v)),
{
}

/// Iterated rotations of a normalized coordinate stay normalized and within
/// the original magnitude.
pub proof fn lemma_rot_n_bound(v: (int, int, int), m: int, n: int)
    requires
        normalized(v),
        in_mag(v, m),
        0 <= n,
    ensures
        normalized(rot60ccw_n(v, n)),
        in_mag(rot60ccw_n(v, n), m),
        nonneg(rot60ccw_n(v, n)),
    decreases n,
{
    if n == 0 {
    } else {
        lemma_rot_n_bound(v, m, n - 1);
        lemma_rot_canon_bound(rot60ccw_n(v, n - 1), m);
    }
}

/// The grid distance between two lattice points: normalize the difference
/// and take the largest component.
pub open spec fn hex_distance(a: (int, int, int), b: (int, int, int)) -> int {
    let d = canon(ijk_sub(a, b));
    max3(d.0, d.1, d.2)
}

/// All components within `m` in magnitude.
pub open spec fn in_mag(v: (int, int, int), m: int) -> bool {
    -m <= v.0 <= m && -m <= v.1 <= m && -m <= v.2 <= m
}

/// All components non-negative.
pub open spec fn nonneg(v: (int, int, int)) -> bool {
    0 <= v.0 && 0 <= v.1 && 0 <= v.2
}

impl CoordIJK {
    /// A coordinate with the given components.
    pub fn new(i: i32, j: i32, k: i32) -> (r: Self)
        ensures
            r@ == (i as int, j as int, k as int),
    {
        Self { i, j, k }
    }

    /// Puts the coordinate into normal form: shifts any negative component's
    /// deficit onto the other two, then subtracts the common minimum, which
    /// leaves the smallest component at zero.
    pub fn normalize(&mut self)
        requires
            nonneg(old(self)@) || in_mag(old(self)@, 700_000_000),
        ensures
            final(self)@ == canon(old(self)@),
    {
        if self.i < 0 {
            self.j = self.j - self.i;
            self.k = self.k - self.i;
            self.i = 0;
        }
        if self.j < 0 {
            self.i = self.i - self.j;
            self.k = self.k - self.j;
            self.j = 0;
        }
        if self.k < 0 {
            self.i = self.i - self.k;
            self.j = self.j - self.k;
            self.k = 0;
        }
        let mut min: i32 = self.i;
        if self.j < min {
            min = self.j;
        }
        if self.k < min {
            min = self.k;
        }
        if min > 0 {
            self.i = self.i - min;
            self.j = self.j - min;
            self.k = self.k - min;
        }
    }

    /// Whether the two coordinates hold exactly the same component values.
    pub fn matches(&self, other: &Self) -> (r: bool)
        ensures
            r == (self@ == other@),
    {
        self.i == other.i && self.j == other.j && self.k == other.k
    }

    /// Uniformly scales the coordinate by a scalar.
    pub(crate) fn scale(&mut self, factor: i32)
        requires
            i32::MIN <= old(self).i * factor <= i32::MAX,
            i32::MIN <= old(self).j * factor <= i32::MAX,
            i32::MIN <= old(self).k * factor <= i32::MAX,
        ensures
            final(self)@ == (old(self).i * factor, old(self).j * factor, old(self).k * factor),
    {
        self.i = self.i * factor;
        self.j = self.j * factor;
        self.k = self.k * factor;
    }

    /// Steps to the neighboring hex in the given digit's direction; a no-op
    /// for the center digit and for digits with no axis direction.
    pub fn neighbor(&mut self, digit: Direction)
        requires
            nonneg(old(self)@) && in_mag(old(self)@, 2_000_000_000) || in_mag(
                old(self)@,
                350_000_000,
            ),
        ensures
            final(self)@ == neighbor_ijk(old(self)@, dir_digit(digit) as int),
    {
        let d = digit.digit();
        if 0 < d && d < 7 {
            let unit = unit_vector(d);
            self.i = self.i + unit.i;
            self.j = self.j + unit.j;
            self.k = self.k + unit.k;
            self.normalize();
        }
    }

    /// Rotates the coordinate 60 degrees counter-clockwise about the origin.
    pub fn rotate_60ccw(&mut self)
        requires
            nonneg(old(self)@) && in_mag(old(self)@, 1_000_000_000) || in_mag(
                old(self)@,
                350_000_000,
            ),
        ensures
            final(self)@ == rot60ccw(old(self)@),
    {
        let ni: i32 = self.i + self.k;
        let nj: i32 = self.i + self.j;
        let nk: i32 = self.j + self.k;
        self.i = ni;
        self.j = nj;
        self.k = nk;
        self.normalize();
    }

    /// Rotates the coordinate 60 degrees clockwise about the origin.
    pub fn rotate_60cw(&mut self)
        requires
            nonneg(old(self)@) && in_mag(old(self)@, 1_000_000_000) || in_mag(
                old(self)@,
                350_000_000,
            ),
        ensures
            final(self)@ == rot60cw(old(self)@),
    {
        let ni: i32 = self.i + self.j;
        let nj: i32 = self.j + self.k;
        let nk: i32 = self.i + self.k;
        self.i = ni;
        self.j = nj;
        self.k = nk;
        self.normalize();
    }

    /// Replaces the coordinate with the indexing parent cell's coordinate in
    /// a counter-clockwise aperture-7 grid, rounding to the nearest parent
    /// lattice point.
    pub fn up_aperture_7(&mut self)
        requires
            in_mag(old(self)@, 100_000_000),
        ensures
            final(self)@ == up_ap7(old(self)@),
    {
        let a: i32 = self.i - self.k;
        let b: i32 = self.j - self.k;
        self.i = round_div7(3 * a - b);
        self.j = round_div7(a + 2 * b);
        self.k = 0;
        self.normalize();
    }

    /// Replaces the coordinate with the indexing parent cell's coordinate in
    /// a clockwise aperture-7 grid, rounding to the nearest parent lattice
    /// point.
    pub fn up_aperture_7r(&mut self)
        requires
            in_mag(old(self)@, 100_000_000),
        ensures
            final(self)@ == up_ap7r(old(self)@),
    {
        let a: i32 = self.i - self.k;
        let b: i32 = self.j - self.k;
        self.i = round_div7(2 * a + b);
        self.j = round_div7(3 * b - a);
        self.k = 0;
        self.normalize();
    }

    /// Replaces the coordinate with the center of its cell one aperture-7
    /// counter-clockwise resolution finer.
    pub fn down_aperture_7(&mut self)
        requires
            in_mag(old(self)@, 100_000_000),
        ensures
            final(self)@ == down_ap7(old(self)@),
    {
        let ni: i32 = 3 * self.i + self.j;
        let nj: i32 = 3 * self.j + self.k;
        let nk: i32 = self.i + 3 * self.k;
        self.i = ni;
        self.j = nj;
        self.k = nk;
        self.normalize();
    }

    /// Replaces the coordinate with the center of its cell one aperture-7
    /// clockwise resolution finer.
    pub fn down_aperture_7r(&mut self)
        requires
            in_mag(old(self)@, 100_000_000),
        ensures
            final(self)@ == down_ap7r(old(self)@),
    {
        let ni: i32 = 3 * self.i + self.k;
        let nj: i32 = self.i + 3 * self.j;
        let nk: i32 = self.j + 3 * self.k;
        self.i = ni;
        self.j = nj;
        self.k = nk;
        self.normalize();
    }

    /// Replaces the coordinate with the center of its cell one aperture-3
    /// counter-clockwise resolution finer.
    pub fn down_aperture_3(&mut self)
        requires
            in_mag(old(self)@, 100_000_000),
        ensures
            final(self)@ == down_ap3(old(self)@),
    {
        let ni: i32 = 2 * self.i + self.j;
        let nj: i32 = 2 * self.j + self.k;
        let nk: i32 = self.i + 2 * self.k;
        self.i = ni;
        self.j = nj;
        self.k = nk;
        self.normalize();
    }

    /// Replaces the coordinate with the center of its cell one aperture-3
    /// clockwise resolution finer.
    pub fn down_aperture_3r(&mut self)
        requires
            in_mag(old(self)@, 100_000_000),
        ensures
            final(self)@ == down_ap3r(old(self)@),
    {
        let ni: i32 = 2 * self.i + self.k;
        let nj: i32 = self.i + 2 * self.j;
        let nk: i32 = self.j + 2 * self.k;
        self.i = ni;
        self.j = nj;
        self.k = nk;
        self.normalize();
    }

    /// The grid distance to the other coordinate: the largest component of
    /// the normalized difference.
    pub fn distance(&self, rhs: &Self) -> (r: i32)
        requires
            in_mag(self@, 350_000_000),
            in_mag(rhs@, 350_000_000),
        ensures
            r as int == hex_distance(self@, rhs@),
    {
        let mut diff = Self::new(self.i - rhs.i, self.j - rhs.j, self.k - rhs.k);
        diff.normalize();
        let mut m: i32 = diff.i;
        if diff.j > m {
            m = diff.j;
        }
        if diff.k > m {
            m = diff.k;
        }
        m
    }

    /// Re-expresses the coordinate in the two-axis IJ system, dropping the
    /// redundant third component.
    pub fn ijk_to_ij(&mut self) -> (r: Self)
        requires
            in_mag(old(self)@, 1_000_000_000),
        ensures
            r@ == (old(self).i - old(self).k, old(self).j - old(self).k, 0int),
            *final(self) == *old(self),
    {
        Self::new(self.i - self.k, self.j - self.k, 0)
    }

    /// Re-expresses a two-axis IJ coordinate in the normalized IJK system.
    pub fn ij_to_ijk(&mut self) -> (r: Self)
        requires
            in_mag(old(self)@, 700_000_000),
        ensures
            r@ == canon((old(self).i as int, old(self).j as int, 0int)),
            *final(self) == *old(self),
    {
        let mut out = Self::new(self.i, self.j, 0);
        out.normalize();
        out
    }

    /// Converts the coordinate to the cube coordinate system in place. The
    /// cube value depends only on the denoted lattice point and its
    /// components sum to zero.
    pub fn to_cube(&mut self)
        requires
            in_mag(old(self)@, 500_000_000),
        ensures
            final(self)@ == cube_of(old(self)@),
            final(self).i + final(self).j + final(self).k == 0,
    {
        self.i = -self.i + self.k;
        self.j = self.j - self.k;
        self.k = -self.i - self.j;
    }

    /// Converts a cube coordinate back to the normalized IJK system in
    /// place, inverting `to_cube` up to normalization.
    pub fn from_cube(&mut self)
        requires
            in_mag(old(self)@, 500_000_000),
        ensures
            final(self)@ == ijk_of_cube(old(self)@),
    {
        self.i = -self.i;
        self.k = 0;
        self.normalize();
    }
}

/// The unit vector for an axis digit as a coordinate value.
fn unit_vector(d: u64) -> (r: CoordIJK)
    ensures
        r@ == unit_ijk(d as int),
{
    match d {
        1 => CoordIJK { i: 0, j: 0, k: 1 },
        2 => CoordIJK { i: 0, j: 1, k: 0 },
        3 => CoordIJK { i: 0, j: 1, k: 1 },
        4 => CoordIJK { i: 1, j: 0, k: 0 },
        5 => CoordIJK { i: 1, j: 0, k: 1 },
        6 => CoordIJK { i: 1, j: 1, k: 0 },
        _ => CoordIJK { i: 0, j: 0, k: 0 },
    }
}

/// Division by 7 rounded to the nearest integer (integer inputs never fall
/// exactly between two multiples of 7, so there are no ties).
fn round_div7(x: i32) -> (r: i32)
    requires
        -2_000_000_000 <= x <= 2_000_000_000,
    ensures
        r as int == rdiv7(x as int),
{
    if x >= 0 {
        (((x + 3) as u32) / 7) as i32
    } else {
        proof {
            lemma_rdiv7_negative(x as int);
        }
        -((((3 - x) as u32) / 7) as i32)
    }
}

/// For any integer `y`, the floor of `(y + 3) / 7` equals the negated floor
/// of `(3 - y) / 7`; this justifies computing the nearest-rounding division
/// on magnitudes only.
proof fn lemma_rdiv7_negative(y: int)
    ensures
        rdiv7(y) == -((3 - y) / 7),
{
    let q = (y + 3) / 7;
    let r = (y + 3) % 7;
    vstd::arithmetic::div_mod::lemma_fundamental_div_mod(y + 3, 7);
    assert(y + 3 == 7 * q + r);
    assert(0 <= r < 7);
    assert(3 - y == 7 * (-q) + (6 - r));
    vstd::arithmetic::div_mod::lemma_fundamental_div_mod_converse(3 - y, 7, -q, 6 - r);
    assert((3 - y) / 7 == -q);
}

/// Normalization is idempotent, and afterwards the smallest component is
/// zero and all components are non-negative.
pub proof fn lemma_normalize_idempotent(v: (int, int, int))
    ensures
        canon(canon(v)) == canon(v),
        min3(canon(v).0, canon(v).1, canon(v).2) == 0,
        nonneg(canon(v)),
{
}

/// Shifting every component by the same amount does not change the normal
/// form: the triple names the same lattice point.
pub proof fn lemma_canon_shift(v: (int, int, int), t: int)
    ensures
        canon((v.0 + t, v.1 + t, v.2 + t)) == canon(v),
{
}

/// Six 60-degree counter-clockwise rotations return any normalized
/// coordinate to itself.
pub proof fn lemma_rotate_60ccw_six_times(v: (int, int, int))
    requires
        normalized(v),
    ensures
        rot60ccw(rot60ccw(rot60ccw(rot60ccw(rot60ccw(rot60ccw(v)))))) == v,
{
    lemma_rot_chain(v);
}

/// Helper for the six-fold rotation law: each rotation is the linear map
/// followed by renormalization; the linear map commutes with uniform shifts,
/// so the normalizations collapse and the six-fold composite is a uniform
/// shift of the identity.
proof fn lemma_rot_chain(v: (int, int, int))
    requires
        normalized(v),
    ensures
        rot60ccw(rot60ccw(rot60ccw(rot60ccw(rot60ccw(rot60ccw(v)))))) == v,
{
    let v1 = rot60ccw(v);
    let s1 = min3(rot_ccw_lin(v).0, rot_ccw_lin(v).1, rot_ccw_lin(v).2);
    assert(v1 == (rot_ccw_lin(v).0 - s1, rot_ccw_lin(v).1 - s1, rot_ccw_lin(v).2 - s1));
    let l2 = rot_ccw_lin(v1);
    lemma_canon_shift(rot_ccw_lin(rot_ccw_lin(v)), -2 * s1);
    assert(rot60ccw(v1) == canon(rot_ccw_lin(rot_ccw_lin(v))));
    let v2 = rot60ccw(v1);
    let s2 = min3(
        rot_ccw_lin(rot_ccw_lin(v)).0,
        rot_ccw_lin(rot_ccw_lin(v)).1,
        rot_ccw_lin(rot_ccw_lin(v)).2,
    );
    assert(v2 == (
        rot_ccw_lin(rot_ccw_lin(v)).0 - s2,
        rot_ccw_lin(rot_ccw_lin(v)).1 - s2,
        rot_ccw_lin(rot_ccw_lin(v)).2 - s2,
    ));
    lemma_canon_shift(rot_ccw_lin(rot_ccw_lin(rot_ccw_lin(v))), -2 * s2);
    let v3 = rot60ccw(v2);
    assert(v3 == canon(rot_ccw_lin(rot_ccw_lin(rot_ccw_lin(v)))));
    let l3 = rot_ccw_lin(rot_ccw_lin(rot_ccw_lin(v)));
    let s3 = min3(l3.0, l3.1, l3.2);
    assert(v3 == (l3.0 - s3, l3.1 - s3, l3.2 - s3));
    lemma_canon_shift(rot_ccw_lin(l3), -2 * s3);
    let v4 = rot60ccw(v3);
    assert(v4 == canon(rot_ccw_lin(l3)));
    let l4 = rot_ccw_lin(l3);
    let s4 = min3(l4.0, l4.1, l4.2);
    assert(v4 == (l4.0 - s4, l4.1 - s4, l4.2 - s4));
    lemma_canon_shift(rot_ccw_lin(l4), -2 * s4);
    let v5 = rot60ccw(v4);
    assert(v5 == canon(rot_ccw_lin(l4)));
    let l5 = rot_ccw_lin(l4);
    let s5 = min3(l5.0, l5.1, l5.2);
    assert(v5 == (l5.0 - s5, l5.1 - s5, l5.2 - s5));
    lemma_canon_shift(rot_ccw_lin(l5), -2 * s5);
    let v6 = rot60ccw(v5);
    assert(v6 == canon(rot_ccw_lin(l5)));
    // The six-fold linear composite shifts every component by 21 times the
    // component sum, so its normal form is the original normalized input.
    let s = v.0 + v.1 + v.2;
    let l6 = rot_ccw_lin(l5);
    assert(l6 == (v.0 + 21 * s, v.1 + 21 * s, v.2 + 21 * s));
    lemma_canon_shift(v, 21 * s);
    assert(canon(l6) == canon(v));
}

/// The grid distance from a point to itself is zero, and the distance is
/// symmetric in its arguments.
pub proof fn lemma_distance_reflexive_symmetric(a: (int, int, int), b: (int, int, int))
    ensures
        hex_distance(a, a) == 0,
        hex_distance(a, b) == hex_distance(b, a),
{
}

/// Round trip between a parent cell and its aperture-7 counter-clockwise
/// center child: refining a normalized parent point and taking the parent of
/// the refinement returns the original point, so refining again returns the
/// refined point.
pub proof fn lemma_aperture_7_round_trip(p: (int, int, int), c: (int, int, int))
    requires
        normalized(p),
        c == down_ap7(p),
    ensures
        up_ap7(c) == p,
        down_ap7(up_ap7(c)) == c,
{
    let l = down_ap7_lin(p);
    let m = min3(l.0, l.1, l.2);
    assert(c == (l.0 - m, l.1 - m, l.2 - m));
    let a = c.0 - c.2;
    let b = c.1 - c.2;
    assert(3 * a - b == 7 * (p.0 - p.2));
    assert(a + 2 * b == 7 * (p.1 - p.2));
    lemma_rdiv7_multiple(p.0 - p.2);
    lemma_rdiv7_multiple(p.1 - p.2);
    assert(up_ap7(c) == canon((p.0 - p.2, p.1 - p.2, 0)));
    lemma_canon_shift(p, -p.2);
    assert(up_ap7(c) == canon(p));
}

/// Round trip between a parent cell and its aperture-7 clockwise center
/// child, the mirrored counterpart of the counter-clockwise law.
pub proof fn lemma_aperture_7r_round_trip(p: (int, int, int), c: (int, int, int))
    requires
        normalized(p),
        c == down_ap7r(p),
    ensures
        up_ap7r(c) == p,
        down_ap7r(up_ap7r(c)) == c,
{
    let l = down_ap7r_lin(p);
    let m = min3(l.0, l.1, l.2);
    assert(c == (l.0 - m, l.1 - m, l.2 - m));
    let a = c.0 - c.2;
    let b = c.1 - c.2;
    assert(2 * a + b == 7 * (p.0 - p.2));
    assert(3 * b - a == 7 * (p.1 - p.2));
    lemma_rdiv7_multiple(p.0 - p.2);
    lemma_rdiv7_multiple(p.1 - p.2);
    assert(up_ap7r(c) == canon((p.0 - p.2, p.1 - p.2, 0)));
    lemma_canon_shift(p, -p.2);
    assert(up_ap7r(c) == canon(p));
}

/// Nearest rounding of an exact multiple of 7 recovers the factor.
proof fn lemma_rdiv7_multiple(t: int)
    ensures
        rdiv7(7 * t) == t,
{
    vstd::arithmetic::div_mod::lemma_fundamental_div_mod_converse(7 * t + 3, 7, t, 3);
}

} // verus!
