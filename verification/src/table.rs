//! The two tables that one solve of the game builds: the prefix totals of
//! the row and the value of every contiguous sub-row.

use vstd::prelude::*;
use crate::value::{game_value, total, lemma_total_first, lemma_total_subrange, lemma_value_bounds};

verus! {

/// Prefix totals of `pots`: entry `i` is the total of the first `i` pots,
/// so the total of any sub-row is the difference of two entries.
pub fn prefix_sums(pots: &[u32]) -> (sums: Vec<u32>)
    requires
        total(pots@) <= u32::MAX,
    ensures
        sums@.len() == pots@.len() + 1,
        forall|i: int| 0 <= i <= pots@.len() ==> #[trigger] sums@[i] == total(pots@.take(i)),
{
    let n: usize = pots.len();
    let mut sums: Vec<u32> = Vec::new();
    sums.push(0);
    let mut i: usize = 0;
    while i < n
        invariant
            n == pots@.len(),
            total(pots@) <= u32::MAX,
            i <= n,
            sums@.len() == i + 1,
            forall|j: int| 0 <= j <= i ==> #[trigger] sums@[j] == total(pots@.take(j)),
        decreases n - i,
    {
        proof {
            lemma_total_subrange(pots@, i as int, i + 1);
            assert(pots@.take(i + 1).drop_last() =~= pots@.take(i as int));
        }
        let next: u32 = sums[i] + pots[i];
        sums.push(next);
        i += 1;
    }
    sums
}

/// A row of `n` zeros.
fn zero_row(n: usize) -> (row: Vec<u32>)
    ensures
        row@.len() == n,
        forall|i: int| 0 <= i < n ==> #[trigger] row@[i] == 0,
{
    let mut row: Vec<u32> = Vec::new();
    let mut i: usize = 0;
    while i < n
        invariant
            i <= n,
            row@.len() == i,
            forall|j: int| 0 <= j < i ==> #[trigger] row@[j] == 0,
        decreases n - i,
    {
        row.push(0);
        i += 1;
    }
    row
}

/// Whether `table` is square with side `n`.
pub open spec fn is_square(table: Seq<Vec<u32>>, n: int) -> bool {
    &&& table.len() == n
    &&& forall|left: int| 0 <= left < n ==> (#[trigger] table[left])@.len() == n
}

/// Whether `table` holds the game value of every sub-row of `pots` that is
/// shorter than `length`: the cell at `[left][right]` is the value of the
/// sub-row from `left` to `right`, both included.
pub open spec fn solved_below(table: Seq<Vec<u32>>, pots: Seq<u32>, length: int) -> bool {
    forall|left: int, right: int|
        0 <= left <= right < pots.len() && right - left + 1 < length ==> #[trigger] table[left]@[right]
            == game_value(pots.subrange(left, right + 1))
}

/// Whether every cell of `table` that stands for no sub-row, the right index
/// being smaller than the left one, is zero.
pub open spec fn zero_under_diagonal(table: Seq<Vec<u32>>, n: int) -> bool {
    forall|left: int, right: int| 0 <= right < left < n ==> #[trigger] table[left]@[right] == 0
}

/// What the recurrence needs of the sub-row of `pots` from `left` to
/// `right`, both included, when it is longer than one pot.
proof fn lemma_subrow_step(pots: Seq<u32>, left: int, right: int)
    requires
        0 <= left < right < pots.len(),
    ensures
        ({
            let row = pots.subrange(left, right + 1);
            let lower = pots.subrange(left + 1, right + 1);
            let upper = pots.subrange(left, right);
            &&& row.drop_first() == lower
            &&& row.drop_last() == upper
            &&& row.first() == pots[left]
            &&& row.last() == pots[right]
            &&& total(lower) == total(pots.take(right + 1)) - total(pots.take(left + 1))
            &&& total(upper) == total(pots.take(right)) - total(pots.take(left))
            &&& 0 <= game_value(lower) <= total(lower)
            &&& 0 <= game_value(upper) <= total(upper)
            &&& pots[left] + total(lower) == total(row)
            &&& pots[right] + total(upper) == total(row)
            &&& total(row) <= total(pots)
        }),
{
    let row = pots.subrange(left, right + 1);
    lemma_total_subrange(pots, left + 1, right + 1);
    lemma_total_subrange(pots, left, right);
    lemma_total_subrange(pots, left, right + 1);
    lemma_value_bounds(row.drop_first());
    lemma_value_bounds(row.drop_last());
    lemma_total_first(row);
}

/// Solves the game on every contiguous sub-row of `pots`.
///
/// The cell at `[left][right]` of the result, for `left <= right`, is the
/// largest total that the player to move can guarantee when only the pots
/// from `left` to `right` remain. The other cells are zero.
pub fn value_table(pots: &[u32]) -> (table: Vec<Vec<u32>>)
    requires
        total(pots@) <= u32::MAX,
    ensures
        is_square(table@, pots@.len() as int),
        forall|left: int, right: int|
            0 <= left <= right < pots@.len() ==> #[trigger] table@[left]@[right] == game_value(
                pots@.subrange(left, right + 1),
            ),
        zero_under_diagonal(table@, pots@.len() as int),
{
    let n: usize = pots.len();
    let sums = prefix_sums(pots);
    let mut dp: Vec<Vec<u32>> = Vec::new();
    let mut k: usize = 0;
    while k < n
        invariant
            k <= n,
            dp@.len() == k,
            forall|left: int| 0 <= left < k ==> (#[trigger] dp@[left])@.len() == n,
            forall|left: int, right: int|
                0 <= left < k && 0 <= right < n ==> #[trigger] dp@[left]@[right] == 0,
        decreases n - k,
    {
        dp.push(zero_row(n));
        k += 1;
    }
    assert(n < usize::MAX) by {
        assert(sums.len() == n + 1);
    }
    let mut length: usize = 1;
    while length <= n
        invariant
            n == pots@.len(),
            total(pots@) <= u32::MAX,
            sums@.len() == n + 1,
            forall|i: int| 0 <= i <= n ==> #[trigger] sums@[i] == total(pots@.take(i)),
            n < usize::MAX,
            1 <= length <= n + 1,
            is_square(dp@, n as int),
            solved_below(dp@, pots@, length as int),
            zero_under_diagonal(dp@, n as int),
        decreases n + 1 - length,
    {
        let mut left: usize = 0;
        while left <= n - length
            invariant
                n == pots@.len(),
                total(pots@) <= u32::MAX,
                sums@.len() == n + 1,
                forall|i: int| 0 <= i <= n ==> #[trigger] sums@[i] == total(pots@.take(i)),
                1 <= length <= n,
                left <= n - length + 1,
                is_square(dp@, n as int),
                solved_below(dp@, pots@, length as int),
                zero_under_diagonal(dp@, n as int),
                forall|l: int|
                    0 <= l < left ==> #[trigger] dp@[l]@[l + length - 1] == game_value(
                        pots@.subrange(l, l + length),
                    ),
            decreases n - length + 1 - left,
        {
            let right: usize = left + length - 1;
            let cell: u32 = if left == right {
                pots[left]
            } else {
                proof {
                    lemma_subrow_step(pots@, left as int, right as int);
                }
                let pick_left: u32 = pots[left] + (sums[right + 1] - sums[left + 1] - dp[left
                    + 1][right]);
                let pick_right: u32 = pots[right] + (sums[right] - sums[left] - dp[left][right
                    - 1]);
                if pick_left >= pick_right {
                    pick_left
                } else {
                    pick_right
                }
            };
            dp[left][right] = cell;
            left += 1;
        }
        proof {
            assert forall|l: int, r: int|
                0 <= l <= r < pots@.len() && r - l + 1 < length + 1 implies #[trigger] dp@[l]@[r]
                == game_value(pots@.subrange(l, r + 1)) by {
                if r - l + 1 == length {
                    assert(dp@[l]@[l + length - 1] == game_value(pots@.subrange(l, l + length)));
                }
            }
        }
        length += 1;
    }
    dp
}

} // verus!
