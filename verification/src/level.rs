//! The difficulty level of the automated player.

use vstd::prelude::*;

verus! {

/// How well the automated player plays.
#[derive(Clone, Copy, Debug, PartialEq, Eq, Structural)]
pub enum Level {
    /// Always the worse end.
    Easy,
    /// The better or the worse end, by the flip of a fair coin.
    Medium,
    /// Always the better end.
    Hard,
}

/// The level that a name stands for. `EASY` and `MEDIUM` name their levels;
/// every other text, `HARD` among them, stands for the hardest level.
pub open spec fn level_named(name: Seq<char>) -> Level {
    if name == "EASY"@ {
        Level::Easy
    } else if name == "MEDIUM"@ {
        Level::Medium
    } else {
        Level::Hard
    }
}

/// Whether two texts hold the same characters.
fn same_text(a: &str, b: &str) -> (same: bool)
    ensures
        same == (a@ == b@),
{
    let n: usize = a.unicode_len();
    if n != b.unicode_len() {
        return false;
    }
    let mut i: usize = 0;
    while i < n
        invariant
            n == a@.len(),
            n == b@.len(),
            i <= n,
            forall|j: int| 0 <= j < i ==> a@[j] == b@[j],
        decreases n - i,
    {
        if a.get_char(i) != b.get_char(i) {
            return false;
        }
        i += 1;
    }
    assert(a@ =~= b@);
    true
}

impl Level {
    /// Reads a level from its name. No name is refused: one that is
    /// neither `EASY` nor `MEDIUM` gives [`Level::Hard`].
    pub fn from_name(name: &str) -> (level: Level)
        ensures
            level == level_named(name@),
    {
        if same_text(name, "EASY") {
            Level::Easy
        } else if same_text(name, "MEDIUM") {
            Level::Medium
        } else {
            Level::Hard
        }
    }
}

impl Default for Level {
    /// The hardest level, which is also what an unknown name gives.
    fn default() -> (level: Level)
        ensures
            level == Level::Hard,
    {
        Level::Hard
    }
}

} // verus!
