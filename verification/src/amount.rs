//! Numbers as the snapshot carries them.

use vstd::prelude::*;

verus! {

/// A 64-bit IEEE 754 binary number, held by its bit pattern.
///
/// The crate never does arithmetic on an amount: it carries it from the
/// provider's answer to the snapshot, or puts zero in its place. The bit
/// pattern keeps every value apart from every other, so "the same amount"
/// means the same bits.
#[derive(Clone, Copy, Debug, PartialEq, Eq, Structural)]
pub struct Amount {
    pub bits: u64,
}

impl Amount {
    /// Positive zero, whose bit pattern is all zeros.
    pub open spec fn spec_zero() -> Amount {
        Amount { bits: 0 }
    }

    /// Positive zero: what stands in for a number that is not there.
    pub fn zero() -> (r: Amount)
        ensures
            r == Amount::spec_zero(),
    {
        Amount { bits: 0 }
    }

    /// The amount with the given bit pattern.
    pub fn from_bits(bits: u64) -> (r: Amount)
        ensures
            r.bits == bits,
    {
        Amount { bits }
    }

    /// The bit pattern of this amount.
    pub fn to_bits(self) -> (r: u64)
        ensures
            r == self.bits,
    {
        self.bits
    }

    /// Whether the amount is a finite number, neither an infinity nor a
    /// not-a-number: the eleven bits of its exponent are not all ones.
    pub open spec fn spec_is_finite(self) -> bool {
        (self.bits >> 52) & 0x7ff != 0x7ff
    }

    /// Whether the amount is a finite number. Only a finite number can be
    /// written to the shared file and read back.
    pub fn is_finite(self) -> (r: bool)
        ensures
            r == self.spec_is_finite(),
    {
        (self.bits >> 52) & 0x7ff != 0x7ff
    }
}

/// Zero is a finite number.
pub proof fn lemma_zero_is_finite()
    ensures
        Amount::spec_zero().spec_is_finite(),
{
    assert((0u64 >> 52) & 0x7ff != 0x7ff) by (bit_vector);
}

/// The amount of an optional number: the number itself, zero where there is none.
pub open spec fn spec_or_zero(number: Option<Amount>) -> Amount {
    match number {
        Some(a) => a,
        None => Amount::spec_zero(),
    }
}

/// Puts zero in the place of a number that is not there.
pub fn or_zero(number: Option<Amount>) -> (r: Amount)
    ensures
        r == spec_or_zero(number),
{
    match number {
        Some(a) => a,
        None => Amount::zero(),
    }
}

} // verus!
