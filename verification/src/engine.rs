//! The move engine: which end of the row the automated player takes.

use vstd::prelude::*;
use crate::error::InputError;
use crate::level::{Level, level_named};
use crate::random::draw_ratio;
use crate::table::value_table;
use crate::value::{good_end, poor_end, total, lemma_total_subrange};

verus! {

/// Whether the engine accepts `row`: it holds a pot, and its total fits the
/// width in which the engine adds.
pub open spec fn is_playable(row: Seq<u32>) -> bool {
    row.len() >= 1 && total(row) <= u32::MAX
}

/// The end that the automated player takes on `row` at `level`, where
/// `coin` is the flip that the medium level consults: heads for the better
/// end, tails for the worse one.
pub open spec fn chosen_end(row: Seq<u32>, level: Level, coin: bool) -> int {
    match level {
        Level::Easy => poor_end(row),
        Level::Medium => if coin {
            good_end(row)
        } else {
            poor_end(row)
        },
        Level::Hard => good_end(row),
    }
}

/// Whether `index` is an answer of the engine on `row` at `level`: the
/// worse end at the easy level, the better end at the hard level, either
/// of the two at the medium level.
pub open spec fn is_answer(row: Seq<u32>, level: Level, index: int) -> bool {
    match level {
        Level::Easy => index == poor_end(row),
        Level::Medium => index == good_end(row) || index == poor_end(row),
        Level::Hard => index == good_end(row),
    }
}

/// Adds up the pots of a row, or finds that the sum does not fit.
pub fn row_total(pots: &[u32]) -> (sum: Option<u32>)
    ensures
        sum is Some <==> total(pots@) <= u32::MAX,
        sum is Some ==> sum->0 == total(pots@),
{
    let n: usize = pots.len();
    let mut sum: u32 = 0;
    let mut i: usize = 0;
    while i < n
        invariant
            n == pots@.len(),
            i <= n,
            sum == total(pots@.take(i as int)),
        decreases n - i,
    {
        proof {
            lemma_total_subrange(pots@, i as int, i + 1);
            assert(pots@.take(i + 1).drop_last() =~= pots@.take(i as int));
        }
        match sum.checked_add(pots[i]) {
            Some(next) => {
                sum = next;
            },
            None => {
                return None;
            },
        }
        i += 1;
    }
    assert(pots@.take(n as int) =~= pots@);
    Some(sum)
}

/// Solves the game on `pots` and returns the better end and the worse end,
/// in this order. On a row of one pot both are that pot.
pub fn best_ends(pots: &[u32]) -> (ends: (usize, usize))
    requires
        is_playable(pots@),
    ensures
        ends.0 == good_end(pots@),
        ends.1 == poor_end(pots@),
{
    let n: usize = pots.len();
    if n == 1 {
        return (0, 0);
    }
    let dp = value_table(pots);
    proof {
        assert(pots@.drop_first() =~= pots@.subrange(1, n as int));
        assert(pots@.drop_last() =~= pots@.subrange(0, n - 1));
    }
    let good_resp: usize = if dp[1][n - 1] <= dp[0][n - 2] {
        0
    } else {
        n - 1
    };
    let bad_resp: usize = if good_resp == 0 {
        n - 1
    } else {
        0
    };
    (good_resp, bad_resp)
}

/// The move of the automated player on `pots` at `level`, given the flip
/// of the coin that the medium level consults.
pub fn select_move(pots: &[u32], level: Level, coin: bool) -> (index: usize)
    requires
        is_playable(pots@),
    ensures
        index == chosen_end(pots@, level, coin),
{
    let (good_resp, bad_resp) = best_ends(pots);
    match level {
        Level::Easy => bad_resp,
        Level::Medium => if coin {
            good_resp
        } else {
            bad_resp
        },
        Level::Hard => good_resp,
    }
}

/// The move of the automated player on `pots` at the level that `level`
/// names.
///
/// At the easy and the hard level the answer is a function of the row. At
/// the medium level a fair coin is flipped, and the answer is the one that
/// [`select_move`] gives for whichever side came up.
pub fn optimal_move(pots: &[u32], level: &str) -> (index: usize)
    requires
        is_playable(pots@),
    ensures
        index == 0 || index == pots@.len() - 1,
        is_answer(pots@, level_named(level@), index as int),
{
    let level = Level::from_name(level);
    let coin: bool = match level {
        Level::Medium => {
            let mut rng = rand::thread_rng();
            draw_ratio(&mut rng, 1, 2)
        },
        _ => true,
    };
    select_move(pots, level, coin)
}

/// Answers a request for a move: turns away a row that the engine does not
/// accept and otherwise plays as [`optimal_move`] does.
pub fn checked_move(pots: &[u32], level: &str) -> (answer: Result<usize, InputError>)
    ensures
        answer == Err::<usize, InputError>(InputError::EmptyRow) <==> pots@.len() == 0,
        answer == Err::<usize, InputError>(InputError::TotalOverflow) <==> pots@.len() > 0 && total(
            pots@,
        ) > u32::MAX,
        answer is Ok <==> is_playable(pots@),
        answer matches Ok(index) ==> {
            &&& index == 0 || index == pots@.len() - 1
            &&& is_answer(pots@, level_named(level@), index as int)
        },
{
    if pots.len() == 0 {
        return Err(InputError::EmptyRow);
    }
    match row_total(pots) {
        None => Err(InputError::TotalOverflow),
        Some(_) => Ok(optimal_move(pots, level)),
    }
}

} // verus!
