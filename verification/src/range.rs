//! Inclusive ranges of block numbers.
//!
//! A job owns a `RangeInclusive<u64>` and consumes it from the left. The
//! functions here read such a range, describe what is left of it as a
//! sequence of block numbers, and build the range that remains after a
//! prefix has been consumed.
use core::ops::RangeInclusive;
use vstd::prelude::*;

verus! {

/// A block number.
pub type BlockNumber = u64;

/// Whether the range holds no block number.
pub open spec fn is_empty(range: RangeInclusive<u64>) -> bool {
    range@.exhausted || range@.start > range@.end
}

/// How many block numbers the range holds.
pub open spec fn len(range: RangeInclusive<u64>) -> nat {
    if is_empty(range) {
        0
    } else {
        (range@.end - range@.start + 1) as nat
    }
}

/// The block numbers of the range, in ascending order.
pub open spec fn numbers(range: RangeInclusive<u64>) -> Seq<u64> {
    Seq::new(len(range), |i: int| (range@.start + i) as u64)
}

/// `RangeInclusive::start`: the lower bound that the range was made with or
/// has been advanced to.
#[verifier::external_body]
pub(crate) fn start_of(range: &RangeInclusive<u64>) -> (start: u64)
    ensures
        start == range@.start,
{
    *range.start()
}

/// `RangeInclusive::end`: the upper bound of the range.
#[verifier::external_body]
pub(crate) fn end_of(range: &RangeInclusive<u64>) -> (end: u64)
    ensures
        end == range@.end,
{
    *range.end()
}

/// `RangeInclusive::is_empty`: true when the bounds are out of order or
/// iteration has finished, which is when the range holds no item.
#[verifier::external_body]
pub(crate) fn is_empty_range(range: &RangeInclusive<u64>) -> (empty: bool)
    ensures
        empty == self::is_empty(*range),
{
    range.is_empty()
}

/// `Clone` for `RangeInclusive`. What the copy holds depends on how the
/// bounds clone, so nothing is claimed of it here.
pub assume_specification<Idx>[ <RangeInclusive<Idx> as Clone>::clone ](
    source: &RangeInclusive<Idx>,
) -> RangeInclusive<Idx> where Idx: Clone
;

/// A range that holds nothing.
pub fn empty_range() -> (range: RangeInclusive<u64>)
    ensures
        is_empty(range),
        numbers(range) == Seq::<u64>::empty(),
        range@.start == 1,
        range@.end == 0,
        !range@.exhausted,
{
    let range = RangeInclusive::new(1, 0);
    assert(numbers(range) =~= Seq::<u64>::empty());
    range
}

/// The range that is left once every block up to and including `last` is
/// done: it starts at `last + 1` and keeps the upper bound. When `last` is
/// the largest block number there is no `last + 1`, and the result is the
/// empty range.
pub fn after(last: u64, end: u64) -> (rest: RangeInclusive<u64>)
    ensures
        !rest@.exhausted,
        last < u64::MAX ==> rest@.start == last + 1 && rest@.end == end,
        last == u64::MAX ==> is_empty(rest),
        len(rest) == (if last < end { end - last } else { 0 }),
{
    if last < u64::MAX {
        RangeInclusive::new(last + 1, end)
    } else {
        empty_range()
    }
}

/// Consuming the first `n` numbers of a range leaves the numbers of
/// `after(start + n - 1, end)`.
pub proof fn lemma_numbers_after(range: RangeInclusive<u64>, n: nat, rest: RangeInclusive<u64>)
    requires
        1 <= n <= len(range),
        !rest@.exhausted,
        range@.start + n - 1 < u64::MAX ==> rest@.start == range@.start + n && rest@.end
            == range@.end,
        range@.start + n - 1 == u64::MAX ==> is_empty(rest),
    ensures
        numbers(rest) == numbers(range).skip(n as int),
        len(rest) == len(range) - n,
{
    assert(numbers(rest) =~= numbers(range).skip(n as int));
}

/// A range from which the first `n` numbers were taken is shorter by `n`,
/// and where something is left, it starts `n` later.
pub proof fn lemma_taken(before: RangeInclusive<u64>, rest: RangeInclusive<u64>, n: nat)
    requires
        n <= len(before),
        numbers(rest) == numbers(before).skip(n as int),
        before@.start + n <= u64::MAX ==> rest@.start == before@.start + n && rest@.end
            == before@.end,
    ensures
        len(rest) == len(before) - n,
        len(rest) > 0 ==> rest@.start == before@.start + n,
{
    assert(numbers(rest).len() == len(rest));
    assert(numbers(before).len() == len(before));
}

} // verus!
