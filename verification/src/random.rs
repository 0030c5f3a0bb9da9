//! The random draws of the game, taken from the `rand` crate's thread-local
//! generator. Nothing in this file is proved: each contract states what the
//! `rand` crate documents of the call.
//!
//! The generator seeds itself from the operating system, at its first use
//! on a thread and again from time to time, and panics where that source
//! fails. No argument decides this, so no `requires` can leave it out.

use rand::rngs::ThreadRng;
use rand::Rng;
use vstd::prelude::*;

verus! {

/// The handle to the thread-local generator of the `rand` crate. Its state
/// is hidden: no contract speaks of it.
#[verifier::external_type_specification]
#[verifier::external_body]
pub struct ExThreadRng(rand::rngs::ThreadRng);

/// `rand::thread_rng` hands out the generator of the current thread.
/// Nothing is claimed of what it returns.
pub assume_specification[ rand::thread_rng ]() -> (rng: ThreadRng);

/// Calls `rand::Rng::gen_range` on the inclusive range from `low` to `high`.
///
/// The claim is that the value drawn lies in that range. The call panics
/// on an empty range, which `requires` leaves out. Which value of the range
/// comes is left open.
#[verifier::external_body]
pub(crate) fn draw_between(rng: &mut ThreadRng, low: u32, high: u32) -> (drawn: u32)
    requires
        low <= high,
    ensures
        low <= drawn <= high,
{
    rng.gen_range(low..=high)
}

/// Calls `rand::Rng::gen_ratio`, which answers `true` with a chance of
/// `numerator` in `denominator`.
///
/// The claim is only what holds of every draw: the answer is `true` where
/// the two numbers are equal and `false` where the numerator is zero. The
/// call panics on a zero denominator and on a numerator above the
/// denominator, which `requires` leaves out.
#[verifier::external_body]
pub(crate) fn draw_ratio(rng: &mut ThreadRng, numerator: u32, denominator: u32) -> (hit: bool)
    requires
        numerator <= denominator,
        denominator > 0,
    ensures
        numerator == denominator ==> hit,
        numerator == 0 ==> !hit,
{
    rng.gen_ratio(numerator, denominator)
}

} // verus!
