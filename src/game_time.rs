//! The in-game clock, held as the bit pattern of an IEEE-754 double.
use vstd::prelude::*;

verus! {

/// The sign bit of a double.
pub const SIGN_BIT: u64 = 0x8000_0000_0000_0000;

/// The bit pattern of positive infinity; every larger magnitude is a NaN.
pub const INFINITY_BITS: u64 = 0x7FF0_0000_0000_0000;

/// Elapsed game time in seconds, as the bits of a double.
///
/// The comparisons below order these values as the doubles they encode are
/// ordered: NaN compares unequal and unordered, and the two zeros are equal.
#[derive(Clone, Copy, Debug, PartialEq, Eq, Structural)]
pub struct GameTime {
    pub bits: u64,
}

/// The magnitude of a double: its bits without the sign.
pub open spec fn magnitude(bits: u64) -> nat {
    if bits >= SIGN_BIT {
        (bits - SIGN_BIT) as nat
    } else {
        bits as nat
    }
}

/// Whether a bit pattern encodes a NaN.
pub open spec fn is_nan(bits: u64) -> bool {
    magnitude(bits) > INFINITY_BITS
}

/// A key that orders non-NaN doubles as their values are ordered.
pub open spec fn order_key(bits: u64) -> int {
    if bits >= SIGN_BIT {
        -magnitude(bits)
    } else {
        magnitude(bits) as int
    }
}

/// `a > 0.0` on doubles.
pub open spec fn spec_positive(a: u64) -> bool {
    !is_nan(a) && order_key(a) > 0
}

/// `a != b` on doubles.
pub open spec fn spec_differs(a: u64, b: u64) -> bool {
    is_nan(a) || is_nan(b) || order_key(a) != order_key(b)
}

/// `a < b` on doubles.
pub open spec fn spec_less(a: u64, b: u64) -> bool {
    !is_nan(a) && !is_nan(b) && order_key(a) < order_key(b)
}

fn magnitude_of(bits: u64) -> (r: u64)
    ensures
        r as nat == magnitude(bits),
{
    if bits >= SIGN_BIT {
        bits - SIGN_BIT
    } else {
        bits
    }
}

impl GameTime {
    /// The time whose double has these bits.
    pub fn from_bits(bits: u64) -> (r: GameTime)
        ensures
            r.bits == bits,
    {
        GameTime { bits }
    }

    /// Whether the time is a NaN.
    pub fn is_nan(&self) -> (r: bool)
        ensures
            r == is_nan(self.bits),
    {
        magnitude_of(self.bits) > INFINITY_BITS
    }

    /// Whether the time is greater than zero.
    pub fn is_positive(&self) -> (r: bool)
        ensures
            r == spec_positive(self.bits),
    {
        !self.is_nan() && self.bits < SIGN_BIT && self.bits > 0
    }

    /// Whether the two times differ as doubles (`self != other`).
    pub fn differs_from(&self, other: &GameTime) -> (r: bool)
        ensures
            r == spec_differs(self.bits, other.bits),
    {
        if self.is_nan() || other.is_nan() {
            true
        } else if magnitude_of(self.bits) == 0 && magnitude_of(other.bits) == 0 {
            false
        } else {
            self.bits != other.bits
        }
    }

    /// Whether `self < other` as doubles.
    pub fn is_less_than(&self, other: &GameTime) -> (r: bool)
        ensures
            r == spec_less(self.bits, other.bits),
    {
        if self.is_nan() || other.is_nan() {
            return false;
        }
        let a_neg = self.bits >= SIGN_BIT;
        let b_neg = other.bits >= SIGN_BIT;
        let ma = magnitude_of(self.bits);
        let mb = magnitude_of(other.bits);
        if a_neg && b_neg {
            ma > mb
        } else if a_neg {
            ma > 0 || mb > 0
        } else if b_neg {
            false
        } else {
            ma < mb
        }
    }
}

} // verus!
