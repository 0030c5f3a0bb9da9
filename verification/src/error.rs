//! The reasons for which a request is turned away.

use vstd::prelude::*;

verus! {

/// Why a request is turned away before the engine runs.
#[derive(Clone, Copy, Debug, PartialEq, Eq, Structural)]
pub enum InputError {
    /// The row holds no pot.
    EmptyRow,
    /// The pots of the row add up to more than a `u32` holds.
    TotalOverflow,
    /// A new row of zero pots was asked for.
    ZeroPotCount,
}

/// The sentence that tells a client what was wrong with its request.
pub open spec fn message_of(error: InputError) -> Seq<char> {
    match error {
        InputError::EmptyRow => "the row of pots is empty"@,
        InputError::TotalOverflow => "the pots add up to more than the engine can count"@,
        InputError::ZeroPotCount => "a game needs at least one pot"@,
    }
}

impl InputError {
    /// The sentence that tells a client what was wrong with its request.
    pub fn message(&self) -> (text: &'static str)
        ensures
            text@ == message_of(*self),
    {
        match self {
            InputError::EmptyRow => "the row of pots is empty",
            InputError::TotalOverflow => "the pots add up to more than the engine can count",
            InputError::ZeroPotCount => "a game needs at least one pot",
        }
    }
}

} // verus!
