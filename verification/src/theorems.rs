//! What holds of the engine on every row: statements about the end that it
//! takes, proved from the model.

use vstd::prelude::*;
use crate::engine::{chosen_end, is_answer};
use crate::level::{Level, level_named};
use crate::value::{
    game_value, good_end, poor_end, take_left, take_right, total, lemma_total_first,
};

verus! {

/// The engine takes an end of the row: the first pot or the last one, at
/// every level and on either side of the coin.
pub proof fn theorem_move_is_an_end(row: Seq<u32>, level: Level, coin: bool)
    requires
        row.len() >= 1,
    ensures
        chosen_end(row, level, coin) == 0 || chosen_end(row, level, coin) == row.len() - 1,
        0 <= chosen_end(row, level, coin) < row.len(),
{
}

/// On a row of a single pot the engine takes that pot, at every level and
/// on either side of the coin.
pub proof fn theorem_single_pot(row: Seq<u32>, level: Level, coin: bool)
    requires
        row.len() == 1,
    ensures
        chosen_end(row, level, coin) == 0,
{
}

/// A name other than `EASY` and `MEDIUM` stands for the hardest level, and
/// at that level the move depends on the row alone: it is the better end,
/// whatever the coin shows.
pub proof fn theorem_hard_is_fixed(row: Seq<u32>, name: Seq<char>, coin_a: bool, coin_b: bool)
    requires
        name != "EASY"@,
        name != "MEDIUM"@,
    ensures
        level_named(name) == Level::Hard,
        chosen_end(row, level_named(name), coin_a) == chosen_end(row, level_named(name), coin_b),
        chosen_end(row, level_named(name), coin_a) == good_end(row),
{
}

/// At the easy level the move depends on the row alone, and it is the end
/// opposite to the one that the hard level takes on the same row.
pub proof fn theorem_easy_is_opposite(row: Seq<u32>, coin_a: bool, coin_b: bool)
    requires
        row.len() >= 1,
    ensures
        chosen_end(row, Level::Easy, coin_a) == chosen_end(row, Level::Easy, coin_b),
        chosen_end(row, Level::Easy, coin_a) == row.len() - 1 - chosen_end(
            row,
            Level::Hard,
            coin_b,
        ),
{
}

/// At the medium level the two sides of the coin lead to the two ends of
/// the row: heads to the end of the hard level, tails to the end of the
/// easy level. On a row of two pots or more these are different ends.
pub proof fn theorem_medium_reaches_both_ends(row: Seq<u32>, coin: bool)
    requires
        row.len() >= 1,
    ensures
        chosen_end(row, Level::Medium, true) == chosen_end(row, Level::Hard, coin),
        chosen_end(row, Level::Medium, false) == chosen_end(row, Level::Easy, coin),
        chosen_end(row, Level::Medium, true) + chosen_end(row, Level::Medium, false) == row.len()
            - 1,
        row.len() >= 2 ==> chosen_end(row, Level::Medium, true) != chosen_end(
            row,
            Level::Medium,
            false,
        ),
{
}

/// The answers of the engine at a level are the moves that the two sides
/// of the coin lead to at that level, and no others.
pub proof fn theorem_answers_follow_the_coin(row: Seq<u32>, level: Level, index: int)
    ensures
        is_answer(row, level, index) <==> exists|coin: bool|
            index == #[trigger] chosen_end(row, level, coin),
{
    if is_answer(row, level, index) {
        let coin = index == good_end(row);
        assert(index == chosen_end(row, level, coin));
    }
}

/// Taking the better end earns the mover the value of the row, and taking
/// the worse end earns no more than that.
pub proof fn theorem_good_end_is_optimal(row: Seq<u32>)
    requires
        row.len() >= 1,
    ensures
        good_end(row) == 0 ==> take_left(row) == game_value(row),
        good_end(row) != 0 ==> take_right(row) == game_value(row),
        take_left(row) <= game_value(row),
        take_right(row) <= game_value(row),
        take_left(row) == total(row) - game_value(row.drop_first()),
        take_right(row) == total(row) - game_value(row.drop_last()),
{
    lemma_total_first(row);
}

/// Reading a row backwards does not change its total.
pub proof fn lemma_total_reversed(row: Seq<u32>)
    ensures
        total(row.reverse()) == total(row),
    decreases row.len(),
{
    if row.len() > 0 {
        let back = row.reverse();
        assert(back.drop_last() =~= row.drop_first().reverse());
        lemma_total_reversed(row.drop_first());
        lemma_total_first(row);
    }
}

/// Reading a row backwards does not change what it is worth to the mover.
pub proof fn theorem_value_of_reversed(row: Seq<u32>)
    ensures
        game_value(row.reverse()) == game_value(row),
    decreases row.len(),
{
    let back = row.reverse();
    if row.len() >= 2 {
        assert(back.drop_first() =~= row.drop_last().reverse());
        assert(back.drop_last() =~= row.drop_first().reverse());
        theorem_value_of_reversed(row.drop_last());
        theorem_value_of_reversed(row.drop_first());
        lemma_total_reversed(row.drop_last());
        lemma_total_reversed(row.drop_first());
    }
}

/// Whether the two rows that a move can leave are worth the same to the
/// opponent, so that the better end is picked by the rule for ties.
pub open spec fn is_tied(row: Seq<u32>) -> bool {
    game_value(row.drop_first()) == game_value(row.drop_last())
}

/// On the row read backwards the engine takes the mirrored end: index `i`
/// becomes index `len - 1 - i`, at every level and on the same side of the
/// coin. A row of two pots or more whose ends are tied is left out: there
/// the rule for ties takes the left end of both readings.
pub proof fn theorem_reversal_flips(row: Seq<u32>, level: Level, coin: bool)
    requires
        row.len() >= 1,
        row.len() == 1 || !is_tied(row),
    ensures
        chosen_end(row.reverse(), level, coin) == row.len() - 1 - chosen_end(row, level, coin),
{
    let back = row.reverse();
    assert(back.drop_first() =~= row.drop_last().reverse());
    assert(back.drop_last() =~= row.drop_first().reverse());
    theorem_value_of_reversed(row.drop_last());
    theorem_value_of_reversed(row.drop_first());
}

/// On a row whose ends are tied the engine takes the same index on the row
/// and on the row read backwards.
pub proof fn theorem_reversal_keeps_tied(row: Seq<u32>, level: Level, coin: bool)
    requires
        row.len() >= 1,
        is_tied(row),
    ensures
        chosen_end(row.reverse(), level, coin) == chosen_end(row, level, coin),
{
    let back = row.reverse();
    assert(back.drop_first() =~= row.drop_last().reverse());
    assert(back.drop_last() =~= row.drop_first().reverse());
    theorem_value_of_reversed(row.drop_last());
    theorem_value_of_reversed(row.drop_first());
}

} // verus!
