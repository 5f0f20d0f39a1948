//! TCP sequence numbers: 32-bit values on a circle.
use vstd::prelude::*;

verus! {

/// A TCP sequence number. Arithmetic wraps modulo 2^32.
#[derive(Clone, Copy, Debug, PartialEq, Eq, Structural)]
pub struct SeqNumber {
    pub value: u32,
}

/// The number of distinct sequence numbers, 2^32.
pub open spec fn sequence_space() -> int {
    0x1_0000_0000
}

/// Half of the sequence space, 2^31.
pub open spec fn half_space() -> int {
    0x8000_0000
}

impl SeqNumber {
    /// The sequence number `n` steps further along the circle.
    pub open spec fn advanced(self, n: int) -> SeqNumber {
        SeqNumber { value: ((self.value + n) % sequence_space()) as u32 }
    }

    /// How many steps along the circle lead from `start` to `self`.
    pub open spec fn steps_from(self, start: SeqNumber) -> int {
        (self.value - start.value) % sequence_space()
    }

    /// Whether `self` comes before `other` in serial-number order: going forward from
    /// `self`, `other` is reached within half of the circle.
    pub open spec fn before(self, other: SeqNumber) -> bool {
        0 < other.steps_from(self) <= half_space()
    }

    /// The sequence number with the given value.
    pub fn new(value: u32) -> (seq: SeqNumber)
        ensures
            seq.value == value,
    {
        SeqNumber { value }
    }

    /// `self + n`, wrapping.
    pub fn plus(self, n: u32) -> (sum: SeqNumber)
        ensures
            sum == self.advanced(n as int),
    {
        SeqNumber { value: self.value.wrapping_add(n) }
    }

    /// `self + n` for the length of a buffer, wrapping.
    pub fn plus_len(self, n: usize) -> (sum: SeqNumber)
        ensures
            sum == self.advanced(n as int),
    {
        let low: u32 = (n as u64 % 0x1_0000_0000u64) as u32;
        self.plus(low)
    }

    /// `self - start`, wrapping.
    pub fn minus(self, start: SeqNumber) -> (steps: u32)
        ensures
            steps == self.steps_from(start),
    {
        self.value.wrapping_sub(start.value)
    }

    /// `self < other` in serial-number order.
    pub fn lt(self, other: SeqNumber) -> (r: bool)
        ensures
            r == self.before(other),
    {
        let steps: u32 = other.minus(self);
        0 < steps && steps <= 0x8000_0000u32
    }
}

} // verus!
