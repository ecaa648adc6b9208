//! Quantities as IEEE 754 double-precision values, held by their bit
//! patterns.
//!
//! The library computes nothing with these quantities. It carries them and
//! decides one thing about them: whether two of them are the same value.

use vstd::prelude::*;
use vstd::std_specs::cmp::PartialEqSpecImpl;

verus! {

/// The bit pattern with only the sign bit set; every pattern below it is a
/// magnitude.
pub const SIGN_BIT: u64 = 0x8000_0000_0000_0000;

/// The magnitude of the infinities: all exponent bits set, no fraction bit.
pub const INFINITY_MAGNITUDE: u64 = 0x7ff0_0000_0000_0000;

/// A double-precision value, held as its 64 bits: the sign bit, eleven
/// exponent bits, fifty-two fraction bits.
#[derive(Clone, Copy, Debug)]
pub struct Number {
    pub bits: u64,
}

impl Number {
    /// The bits without the sign.
    pub open spec fn magnitude(self) -> u64 {
        self.bits % SIGN_BIT
    }

    /// Not a number: all exponent bits are set and some fraction bit is.
    pub open spec fn is_nan(self) -> bool {
        self.magnitude() > INFINITY_MAGNITUDE
    }

    /// Positive or negative zero.
    pub open spec fn is_zero(self) -> bool {
        self.magnitude() == 0
    }

    /// Equality of the two values as IEEE 754 compares them: a value that is
    /// not a number equals nothing, itself included; the two zeros are equal;
    /// any other two values are equal exactly when their bits are.
    pub open spec fn same_value(self, other: Number) -> bool {
        &&& !self.is_nan()
        &&& !other.is_nan()
        &&& (self.bits == other.bits || (self.is_zero() && other.is_zero()))
    }

    /// The value with the given bits.
    pub fn from_bits(bits: u64) -> (number: Self)
        ensures
            number.bits == bits,
    {
        Number { bits }
    }

    /// The bits of the value.
    pub fn to_bits(&self) -> (bits: u64)
        ensures
            bits == self.bits,
    {
        self.bits
    }

    /// Whether the value is not a number.
    pub fn is_not_a_number(&self) -> (nan: bool)
        ensures
            nan == self.is_nan(),
    {
        self.bits % SIGN_BIT > INFINITY_MAGNITUDE
    }

    /// Equality of values is symmetric and transitive, and holds between a
    /// value and itself exactly when the value is a number.
    pub proof fn lemma_same_value_laws(a: Number, b: Number, c: Number)
        ensures
            a.same_value(b) == b.same_value(a),
            a.same_value(b) && b.same_value(c) ==> a.same_value(c),
            a.same_value(a) == !a.is_nan(),
    {
    }
}

impl PartialEq for Number {
    fn eq(&self, other: &Self) -> (equal: bool) {
        let left: u64 = self.bits % SIGN_BIT;
        let right: u64 = other.bits % SIGN_BIT;
        left <= INFINITY_MAGNITUDE && right <= INFINITY_MAGNITUDE && (self.bits == other.bits || (
        left == 0 && right == 0))
    }
}

impl PartialEqSpecImpl for Number {
    open spec fn obeys_eq_spec() -> bool {
        true
    }

    open spec fn eq_spec(&self, other: &Self) -> bool {
        self.same_value(*other)
    }
}

} // verus!
