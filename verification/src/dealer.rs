//! The dealer: a fresh row of pots for a new game.

use vstd::prelude::*;
use crate::error::InputError;
use crate::random::draw_between;
use crate::value::total;

verus! {

/// The least that a dealt pot holds.
pub const LOWEST_POT: u32 = 1;

/// The most that a dealt pot holds.
pub const HIGHEST_POT: u32 = 9;

/// Whether every pot of `row` holds what a dealt pot may hold.
pub open spec fn is_dealt(row: Seq<u32>) -> bool {
    forall|i: int| 0 <= i < row.len() ==> LOWEST_POT <= #[trigger] row[i] <= HIGHEST_POT
}

/// The total of a dealt row lies between its length times the least pot
/// and its length times the largest one.
pub proof fn lemma_dealt_total(row: Seq<u32>)
    requires
        is_dealt(row),
    ensures
        LOWEST_POT * row.len() <= total(row) <= HIGHEST_POT * row.len(),
    decreases row.len(),
{
    if row.len() > 0 {
        assert forall|i: int| 0 <= i < row.drop_last().len() implies LOWEST_POT
            <= #[trigger] row.drop_last()[i] <= HIGHEST_POT by {
            assert(row.drop_last()[i] == row[i]);
        }
        lemma_dealt_total(row.drop_last());
    }
}

/// Deals the row of a new game: `pot_count` pots, each drawn on its own
/// from `LOWEST_POT` to `HIGHEST_POT`. A count of zero is turned away, so
/// that no empty row ever reaches the engine.
pub fn start_game(pot_count: u32) -> (dealt: Result<Vec<u32>, InputError>)
    ensures
        dealt is Err <==> pot_count == 0,
        dealt is Err ==> dealt == Err::<Vec<u32>, InputError>(InputError::ZeroPotCount),
        dealt matches Ok(pots) ==> {
            &&& pots@.len() == pot_count
            &&& is_dealt(pots@)
            &&& LOWEST_POT * pot_count <= total(pots@) <= HIGHEST_POT * pot_count
        },
{
    if pot_count == 0 {
        return Err(InputError::ZeroPotCount);
    }
    let mut rng = rand::thread_rng();
    let mut pots: Vec<u32> = Vec::new();
    let mut i: u32 = 0;
    while i < pot_count
        invariant
            i <= pot_count,
            pots@.len() == i,
            is_dealt(pots@),
        decreases pot_count - i,
    {
        let pot: u32 = draw_between(&mut rng, LOWEST_POT, HIGHEST_POT);
        pots.push(pot);
        i += 1;
    }
    proof {
        lemma_dealt_total(pots@);
    }
    Ok(pots)
}

} // verus!
