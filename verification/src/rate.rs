//! An exchange rate as the service stores it.

use vstd::prelude::*;

verus! {

/// A 64-bit IEEE-754 number, held by its bit pattern.
///
/// The service never calculates with a rate: it receives one, keeps it and
/// shows it. Two rates are the same exactly when their bit patterns are.
#[derive(Clone, Copy, Debug, PartialEq, Eq, Structural)]
pub struct Rate {
    pub bits: u64,
}

impl Rate {
    /// Positive zero, whose bit pattern is all zeros.
    pub open spec fn zero_rate() -> Rate {
        Rate { bits: 0 }
    }

    /// The rate with the given bit pattern.
    pub fn from_bits(bits: u64) -> (rate: Rate)
        ensures
            rate.bits == bits,
    {
        Rate { bits }
    }

    /// The bit pattern of this rate.
    pub fn to_bits(&self) -> (bits: u64)
        ensures
            bits == self.bits,
    {
        self.bits
    }

    /// Positive zero.
    pub fn zero() -> (rate: Rate)
        ensures
            rate == Rate::zero_rate(),
    {
        Rate { bits: 0 }
    }
}

} // verus!
