//! Laws of sequence numbers.
use crate::seq_number::{half_space, sequence_space, SeqNumber};
use vstd::prelude::*;

verus! {

/// Advancing undoes taking the difference, and the other way round.
pub proof fn advancing_undoes_difference(start: SeqNumber, end: SeqNumber, n: int)
    requires
        0 <= n < sequence_space(),
    ensures
        start.advanced(end.steps_from(start)) == end,
        start.advanced(n).steps_from(start) == n,
{
}

/// Advancing twice is advancing once by the sum.
pub proof fn advancing_adds_up(start: SeqNumber, a: int, b: int)
    ensures
        start.advanced(a).advanced(b) == start.advanced(a + b),
{
    vstd::arithmetic::div_mod::lemma_add_mod_noop_right(b, start.value + a, sequence_space());
}

/// No number is before itself. Of two different numbers, one is before the other, and unless
/// they are opposite on the circle, the other is not before the one.
pub proof fn order_is_serial(a: SeqNumber, b: SeqNumber)
    ensures
        !a.before(a),
        a != b ==> a.before(b) || b.before(a),
        a.before(b) && b.before(a) ==> b.steps_from(a) == half_space(),
{
}

/// What is ahead by less than half of the circle comes later.
pub proof fn advancing_moves_ahead(start: SeqNumber, n: int)
    requires
        0 < n < half_space(),
    ensures
        start.before(start.advanced(n)),
        !start.advanced(n).before(start),
{
}

/// A number on the way from `start` to `end` splits the way in two.
pub proof fn ways_split(start: SeqNumber, middle: SeqNumber, end: SeqNumber)
    requires
        middle.steps_from(start) <= end.steps_from(start),
    ensures
        end.steps_from(middle) == end.steps_from(start) - middle.steps_from(start),
{
}

/// Advancing counts up, and starts again at zero behind the largest number.
pub proof fn advancing_counts_up(start: SeqNumber, n: int)
    requires
        0 <= n <= u32::MAX,
    ensures
        start.value + n <= u32::MAX ==> start.advanced(n).value == start.value + n,
        start.value + n > u32::MAX ==> start.advanced(n).value == start.value + n - u32::MAX - 1,
{
}

/// The way from one number to another is their difference, taken around the circle if the
/// second is the smaller one.
pub proof fn difference_counts_steps(start: SeqNumber, end: SeqNumber)
    ensures
        start.value <= end.value ==> end.steps_from(start) == end.value - start.value,
        start.value > end.value ==> end.steps_from(start) == u32::MAX + 1 - (start.value
            - end.value),
{
}

/// A number comes before exactly those that are reached from it by going at most half of the
/// way around.
pub proof fn before_means_within_half(a: SeqNumber, b: SeqNumber)
    ensures
        a.value < b.value ==> (a.before(b) <==> b.value - a.value <= 0x8000_0000),
        a.value > b.value ==> (a.before(b) <==> a.value - b.value >= 0x8000_0000),
        a.value == b.value ==> !a.before(b),
{
}

} // verus!
