//! What the value of a row means: the total that the first mover can hold
//! against every way of playing, and the most that any way of playing
//! earns against an opponent who plays well.

use vstd::prelude::*;
use crate::theorems::theorem_good_end_is_optimal;
use crate::value::{game_value, good_end, total};

verus! {

/// What the player who moves first on `row` collects by the end of the
/// game, when that player decides by `first` and the opponent by `second`.
/// A way of playing looks at the row that is left and answers whether to
/// take its left end.
pub open spec fn collected(
    row: Seq<u32>,
    first: spec_fn(Seq<u32>) -> bool,
    second: spec_fn(Seq<u32>) -> bool,
) -> int
    decreases row.len(),
{
    if row.len() == 0 {
        0
    } else if first(row) {
        row.first() + (total(row.drop_first()) - collected(row.drop_first(), second, first))
    } else {
        row.last() + (total(row.drop_last()) - collected(row.drop_last(), second, first))
    }
}

/// The way of playing that takes the better end of every row.
pub open spec fn plays_well() -> spec_fn(Seq<u32>) -> bool {
    |row: Seq<u32>| good_end(row) == 0
}

/// Playing well earns the first mover at least the value of the row,
/// however the opponent plays; and no way of playing earns the first mover
/// more than that value against an opponent who plays well.
pub proof fn theorem_value_is_guaranteed(row: Seq<u32>, other: spec_fn(Seq<u32>) -> bool)
    ensures
        collected(row, plays_well(), other) >= game_value(row),
        collected(row, other, plays_well()) <= game_value(row),
    decreases row.len(),
{
    if row.len() > 0 {
        theorem_good_end_is_optimal(row);
        theorem_value_is_guaranteed(row.drop_first(), other);
        theorem_value_is_guaranteed(row.drop_last(), other);
    }
}

/// When both players play well, the first mover collects exactly the value
/// of the row.
pub proof fn theorem_value_is_reached(row: Seq<u32>)
    ensures
        collected(row, plays_well(), plays_well()) == game_value(row),
{
    theorem_value_is_guaranteed(row, plays_well());
}

} // verus!
