//! The mathematical model of the game: the total of a row, the value of a
//! row to the player who moves first, and the end that each policy picks.

use vstd::prelude::*;

verus! {

/// The sum of all pots in `row`.
pub open spec fn total(row: Seq<u32>) -> int
    decreases row.len(),
{
    if row.len() == 0 {
        0
    } else {
        total(row.drop_last()) + row.last()
    }
}

/// What the mover collects in the end by taking the leftmost pot of `row`,
/// when both players play as well as they can afterwards: the pot itself and
/// whatever of the rest the opponent cannot secure.
pub open spec fn take_left(row: Seq<u32>) -> int
    recommends
        row.len() >= 1,
    decreases row.len(), 0int,
{
    if row.len() == 0 {
        0
    } else {
        row.first() + (total(row.drop_first()) - game_value(row.drop_first()))
    }
}

/// What the mover collects in the end by taking the rightmost pot of `row`.
pub open spec fn take_right(row: Seq<u32>) -> int
    recommends
        row.len() >= 1,
    decreases row.len(), 0int,
{
    if row.len() == 0 {
        0
    } else {
        row.last() + (total(row.drop_last()) - game_value(row.drop_last()))
    }
}

/// The largest total that the player to move can guarantee on `row` when
/// the opponent also plays to maximize their own total.
pub open spec fn game_value(row: Seq<u32>) -> int
    decreases row.len(), 1int,
{
    if row.len() == 0 {
        0
    } else if row.len() == 1 {
        row[0] as int
    } else if take_left(row) >= take_right(row) {
        take_left(row)
    } else {
        take_right(row)
    }
}

/// The end that optimal play picks: the one that leaves the opponent the
/// row of smaller value, the left end on a tie.
pub open spec fn good_end(row: Seq<u32>) -> int
    recommends
        row.len() >= 1,
{
    if game_value(row.drop_first()) <= game_value(row.drop_last()) {
        0
    } else {
        row.len() - 1
    }
}

/// The end opposite to [`good_end`].
pub open spec fn poor_end(row: Seq<u32>) -> int
    recommends
        row.len() >= 1,
{
    row.len() - 1 - good_end(row)
}

/// The total of a row is the first pot plus the total of the rest.
pub proof fn lemma_total_first(row: Seq<u32>)
    requires
        row.len() >= 1,
    ensures
        total(row) == row.first() + total(row.drop_first()),
    decreases row.len(),
{
    if row.len() == 1 {
        assert(total(row.drop_last()) == 0);
    } else {
        lemma_total_first(row.drop_last());
        assert(row.drop_last().drop_first() =~= row.drop_first().drop_last());
    }
}

/// The mover never collects less than nothing nor more than the whole row.
pub proof fn lemma_value_bounds(row: Seq<u32>)
    ensures
        0 <= game_value(row) <= total(row),
    decreases row.len(),
{
    if row.len() == 1 {
        assert(total(row.drop_last()) == 0);
    } else if row.len() >= 2 {
        lemma_value_bounds(row.drop_first());
        lemma_value_bounds(row.drop_last());
        lemma_total_first(row);
    }
}

/// Cutting a row in two at `k` cuts its total in two, and neither part is
/// negative.
pub proof fn lemma_total_split(row: Seq<u32>, k: int)
    requires
        0 <= k <= row.len(),
    ensures
        total(row) == total(row.take(k)) + total(row.skip(k)),
        0 <= total(row.take(k)),
        0 <= total(row.skip(k)),
    decreases row.len(),
{
    if k == row.len() {
        assert(row.take(k) =~= row);
        lemma_value_bounds(row);
    } else {
        lemma_total_split(row.drop_last(), k);
        assert(row.drop_last().take(k) =~= row.take(k));
        assert(row.drop_last().skip(k) =~= row.skip(k).drop_last());
    }
}

/// The total of the sub-row `[left, right)` is the difference of two
/// prefix totals.
pub proof fn lemma_total_subrange(row: Seq<u32>, left: int, right: int)
    requires
        0 <= left <= right <= row.len(),
    ensures
        total(row.subrange(left, right)) == total(row.take(right)) - total(row.take(left)),
        0 <= total(row.take(left)) <= total(row.take(right)) <= total(row),
{
    lemma_total_split(row, right);
    lemma_total_split(row.take(right), left);
    assert(row.take(right).take(left) =~= row.take(left));
    assert(row.take(right).skip(left) =~= row.subrange(left, right));
}

} // verus!
