//! How far into the current episode playback has come.
//!
//! A position arrives as a percentage in double precision. It is kept here as
//! the 64 bits of that number: for numbers that are zero or above, one number
//! is greater than another exactly when its bits, read as an integer, are
//! greater. Negative numbers have the top bit set, and what is not a number
//! lies above the bits of positive infinity.

use vstd::prelude::*;

verus! {

/// The bits of positive infinity, the largest pattern that is a number and
/// not negative.
pub const POSITIVE_INFINITY_BITS: u64 = 0x7FF0_0000_0000_0000;

/// Whether the number with bits `reported` is greater than the number with
/// bits `current`, for a `current` that is zero or above.
pub open spec fn exceeds(reported: u64, current: u64) -> bool {
    current < reported <= POSITIVE_INFINITY_BITS
}

/// The bits of the whole number `n` in double precision.
pub open spec fn whole_number_bits(n: u8) -> u64 {
    if n == 0 {
        0
    } else if n < 2 {
        0x3FF0_0000_0000_0000
    } else if n < 4 {
        (0x4000_0000_0000_0000 + (n - 2) * 0x0008_0000_0000_0000) as u64
    } else if n < 8 {
        (0x4010_0000_0000_0000 + (n - 4) * 0x0004_0000_0000_0000) as u64
    } else if n < 16 {
        (0x4020_0000_0000_0000 + (n - 8) * 0x0002_0000_0000_0000) as u64
    } else if n < 32 {
        (0x4030_0000_0000_0000 + (n - 16) * 0x0001_0000_0000_0000) as u64
    } else if n < 64 {
        (0x4040_0000_0000_0000 + (n - 32) * 0x0000_8000_0000_0000) as u64
    } else if n < 128 {
        (0x4050_0000_0000_0000 + (n - 64) * 0x0000_4000_0000_0000) as u64
    } else {
        (0x4060_0000_0000_0000 + (n - 128) * 0x0000_2000_0000_0000) as u64
    }
}

/// Computes [`whole_number_bits`].
pub fn bits_of_whole_number(n: u8) -> (bits: u64)
    ensures
        bits == whole_number_bits(n),
        bits < POSITIVE_INFINITY_BITS,
{
    let m: u64 = n as u64;
    if n == 0 {
        0
    } else if n < 2 {
        0x3FF0_0000_0000_0000
    } else if n < 4 {
        0x4000_0000_0000_0000 + (m - 2) * 0x0008_0000_0000_0000
    } else if n < 8 {
        0x4010_0000_0000_0000 + (m - 4) * 0x0004_0000_0000_0000
    } else if n < 16 {
        0x4020_0000_0000_0000 + (m - 8) * 0x0002_0000_0000_0000
    } else if n < 32 {
        0x4030_0000_0000_0000 + (m - 16) * 0x0001_0000_0000_0000
    } else if n < 64 {
        0x4040_0000_0000_0000 + (m - 32) * 0x0000_8000_0000_0000
    } else if n < 128 {
        0x4050_0000_0000_0000 + (m - 64) * 0x0000_4000_0000_0000
    } else {
        0x4060_0000_0000_0000 + (m - 128) * 0x0000_2000_0000_0000
    }
}

/// Whole numbers are in the order of their bits: comparing bits compares the
/// numbers.
pub proof fn lemma_whole_number_bits_ordered(a: u8, b: u8)
    ensures
        a <= b <==> whole_number_bits(a) <= whole_number_bits(b),
        a == b <==> whole_number_bits(a) == whole_number_bits(b),
{
}

/// The highest position seen in the episode that is loaded, as a percentage.
#[derive(Debug, Clone, Copy)]
pub struct WatchedFraction {
    bits: u64,
}

impl WatchedFraction {
    /// The bits of the percentage.
    pub closed spec fn bits(&self) -> u64 {
        self.bits
    }

    /// Holds of every value: the percentage is a number and not negative.
    #[verifier::type_invariant]
    pub closed spec fn is_percentage(&self) -> bool {
        self.bits <= POSITIVE_INFINITY_BITS
    }

    /// Nothing watched yet.
    pub fn zero() -> (fraction: WatchedFraction)
        ensures
            fraction.bits() == 0,
    {
        WatchedFraction { bits: 0 }
    }

    /// Takes note of a reported position: the fraction becomes the greater of
    /// the two, so a report that is lower, negative or not a number changes
    /// nothing.
    pub fn observe(&mut self, reported: u64)
        ensures
            final(self).bits() == if exceeds(reported, old(self).bits()) {
                reported
            } else {
                old(self).bits()
            },
    {
        if reported <= POSITIVE_INFINITY_BITS && reported > self.bits {
            self.bits = reported;
        }
    }

    /// Starts over, for a newly loaded episode.
    pub fn reset(&mut self)
        ensures
            final(self).bits() == 0,
    {
        self.bits = 0;
    }

    /// The bits of the percentage, for the caller to turn back into a number.
    pub fn to_bits(&self) -> (bits: u64)
        ensures
            bits == self.bits(),
            bits <= POSITIVE_INFINITY_BITS,
    {
        proof {
            use_type_invariant(self);
        }
        self.bits
    }

    /// Whether at least `threshold` percent were watched.
    pub fn reaches(&self, threshold: u8) -> (reached: bool)
        ensures
            reached == (self.bits() >= whole_number_bits(threshold)),
    {
        self.bits >= bits_of_whole_number(threshold)
    }
}

} // verus!
