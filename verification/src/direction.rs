use vstd::prelude::*;

verus! {

/// An index digit: one of the six grid axes out of a cell, the cell's own
/// center, or the out-of-range marker. `NumDigits` and `PentagonSkippedDigit`
/// are symbolic aliases that decode as `Invalid` (7) and `KAxes` (1).
#[derive(Clone, Copy, Debug, PartialEq, Eq, Structural)]
pub enum Direction {
    Center,
    KAxes,
    JAxes,
    JKAxes,
    IAxes,
    IKAxes,
    IJAxes,
    Invalid,
    NumDigits,
    PentagonSkippedDigit,
}

/// The 3-bit value a direction occupies in a packed cell index.
pub open spec fn dir_digit(d: Direction) -> u64 {
    match d {
        Direction::Center => 0,
        Direction::KAxes => 1,
        Direction::JAxes => 2,
        Direction::JKAxes => 3,
        Direction::IAxes => 4,
        Direction::IKAxes => 5,
        Direction::IJAxes => 6,
        Direction::Invalid => 7,
        Direction::NumDigits => 7,
        Direction::PentagonSkippedDigit => 1,
    }
}

/// Decoding of a 3-bit digit field; values outside 0..=6 decode as `Invalid`.
pub open spec fn dir_from_digit(v: u64) -> Direction {
    if v == 0 {
        Direction::Center
    } else if v == 1 {
        Direction::KAxes
    } else if v == 2 {
        Direction::JAxes
    } else if v == 3 {
        Direction::JKAxes
    } else if v == 4 {
        Direction::IAxes
    } else if v == 5 {
        Direction::IKAxes
    } else if v == 6 {
        Direction::IJAxes
    } else {
        Direction::Invalid
    }
}

/// The fixed 6-cycle K -> IK -> I -> IJ -> J -> JK -> K; everything else is a
/// fixed point.
pub open spec fn dir_rotate_ccw(d: Direction) -> Direction {
    match d {
        Direction::KAxes => Direction::IKAxes,
        Direction::IKAxes => Direction::IAxes,
        Direction::IAxes => Direction::IJAxes,
        Direction::IJAxes => Direction::JAxes,
        Direction::JAxes => Direction::JKAxes,
        Direction::JKAxes => Direction::KAxes,
        _ => d,
    }
}

/// The fixed 6-cycle K -> JK -> J -> IJ -> I -> IK -> K; everything else is a
/// fixed point.
pub open spec fn dir_rotate_cw(d: Direction) -> Direction {
    match d {
        Direction::KAxes => Direction::JKAxes,
        Direction::JKAxes => Direction::JAxes,
        Direction::JAxes => Direction::IJAxes,
        Direction::IJAxes => Direction::IAxes,
        Direction::IAxes => Direction::IKAxes,
        Direction::IKAxes => Direction::KAxes,
        _ => d,
    }
}

/// Rotation of a raw 3-bit digit value, as stored in a packed index.
pub open spec fn digit_rotate_ccw(v: u64) -> u64 {
    dir_digit(dir_rotate_ccw(dir_from_digit(v)))
}

/// Rotation of a raw 3-bit digit value, as stored in a packed index.
pub open spec fn digit_rotate_cw(v: u64) -> u64 {
    dir_digit(dir_rotate_cw(dir_from_digit(v)))
}

impl Direction {
    /// Rotates an indexing digit 60 degrees counter-clockwise.
    pub fn rotate_60_ccw(self) -> (r: Direction)
        ensures
            r == dir_rotate_ccw(self),
    {
        match self {
            Self::KAxes => Self::IKAxes,
            Self::IKAxes => Self::IAxes,
            Self::IAxes => Self::IJAxes,
            Self::IJAxes => Self::JAxes,
            Self::JAxes => Self::JKAxes,
            Self::JKAxes => Self::KAxes,
            _ => self,
        }
    }

    /// Rotates an indexing digit 60 degrees clockwise.
    pub fn rotate_60_cw(self) -> (r: Direction)
        ensures
            r == dir_rotate_cw(self),
    {
        match self {
            Self::KAxes => Self::JKAxes,
            Self::JKAxes => Self::JAxes,
            Self::JAxes => Self::IJAxes,
            Self::IJAxes => Self::IAxes,
            Self::IAxes => Self::IKAxes,
            Self::IKAxes => Self::KAxes,
            _ => self,
        }
    }

    /// Encodes the direction as the 3-bit value it occupies in a packed index.
    pub fn digit(self) -> (r: u64)
        ensures
            r == dir_digit(self),
    {
        match self {
            Self::Center => 0,
            Self::KAxes => 1,
            Self::JAxes => 2,
            Self::JKAxes => 3,
            Self::IAxes => 4,
            Self::IKAxes => 5,
            Self::IJAxes => 6,
            Self::Invalid => 7,
            Self::NumDigits => 7,
            Self::PentagonSkippedDigit => 1,
        }
    }

    /// Decodes a 3-bit digit value; values outside 0..=6 decode as `Invalid`.
    pub fn from_digit(v: u64) -> (r: Direction)
        ensures
            r == dir_from_digit(v),
    {
        match v {
            0 => Self::Center,
            1 => Self::KAxes,
            2 => Self::JAxes,
            3 => Self::JKAxes,
            4 => Self::IAxes,
            5 => Self::IKAxes,
            6 => Self::IJAxes,
            _ => Self::Invalid,
        }
    }
}

/// Rotating a digit clockwise and then counter-clockwise (or the other way
/// around) returns the original digit.
pub proof fn lemma_digit_rotation_inverse(v: u64)
    requires
        v <= 7,
    ensures
        digit_rotate_ccw(digit_rotate_cw(v)) == v,
        digit_rotate_cw(digit_rotate_ccw(v)) == v,
{
}

} // verus!
