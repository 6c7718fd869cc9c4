//! The probability law of the game.
//!
//! With `n` teeth still unresolved, the tooth under check is the bad one with
//! one chance in `n`: one integer is drawn from `1..=n` out of the verified
//! random value, and the tooth bites exactly when the draw is 1. The fewer
//! teeth remain, the likelier the bite; the last tooth always bites.

use vstd::prelude::*;
use vstd::set_lib::*;

verus! {

/// What the resolution of one tooth comes to.
#[derive(Clone, Copy, Debug, PartialEq, Eq, Structural)]
pub enum Outcome {
    /// The tooth was the bad one.
    Bite,
    /// The tooth was harmless.
    Safe,
}

/// The value of `ephemeral_vrf_sdk::rnd::random_u8_with_range` on the random
/// bytes `randomness` and the inclusive bounds `min_value` and `max_value`.
pub uninterp spec fn ranged_draw(randomness: Seq<u8>, min_value: u8, max_value: u8) -> u8;

/// Calls `ephemeral_vrf_sdk::rnd::random_u8_with_range`, which maps 32 random
/// bytes to an integer between the two bounds, both included. It is a function
/// of its three arguments alone and stops the program when the lower bound
/// exceeds the upper one. Trusted: that the result is the named value and lies
/// within the bounds.
#[verifier::external_body]
fn random_u8_with_range(randomness: &[u8; 32], min_value: u8, max_value: u8) -> (draw: u8)
    requires
        min_value <= max_value,
    ensures
        draw == ranged_draw(randomness@, min_value, max_value),
        min_value <= draw <= max_value,
{
    ephemeral_vrf_sdk::rnd::random_u8_with_range(randomness, min_value, max_value)
}

/// The integer drawn from `1..=teeth_remaining` out of `randomness`.
pub open spec fn draw_for(randomness: Seq<u8>, teeth_remaining: u8) -> u8 {
    ranged_draw(randomness, 1, teeth_remaining)
}

/// The outcome that a draw stands for: a bite for 1, safety for anything else.
pub open spec fn outcome_of(draw: u8) -> Outcome {
    if draw == 1 {
        Outcome::Bite
    } else {
        Outcome::Safe
    }
}

/// The draws that can come up while `teeth_remaining` teeth are unresolved.
pub open spec fn possible_draws(teeth_remaining: u8) -> Set<int> {
    set_int_range(1, teeth_remaining + 1)
}

/// Those of the possible draws on which the tooth bites.
pub open spec fn biting_draws(teeth_remaining: u8) -> Set<int> {
    possible_draws(teeth_remaining).filter(|d: int| outcome_of(d as u8) == Outcome::Bite)
}

/// Tells the outcome from the integer that was drawn.
pub fn outcome_of_draw(draw: u8) -> (outcome: Outcome)
    ensures
        outcome == outcome_of(draw),
{
    if draw == 1 {
        Outcome::Bite
    } else {
        Outcome::Safe
    }
}

/// Decides whether the tooth under check bites, given the verified random
/// value and the number of teeth not yet resolved, the one under check
/// included. There must be at least one such tooth.
pub fn resolve(random_value: &[u8; 32], teeth_remaining: u8) -> (outcome: Outcome)
    requires
        teeth_remaining >= 1,
    ensures
        outcome == outcome_of(draw_for(random_value@, teeth_remaining)),
        1 <= draw_for(random_value@, teeth_remaining) <= teeth_remaining,
        teeth_remaining == 1 ==> outcome == Outcome::Bite,
{
    outcome_of_draw(random_u8_with_range(random_value, 1, teeth_remaining))
}

/// Of the `n` draws that are possible while `n` teeth remain, exactly one
/// bites. A draw that is uniform over the possible ones therefore bites with
/// probability `1/n`, which grows as `n` falls and is certainty at `n == 1`.
pub proof fn lemma_one_draw_in_n_bites(teeth_remaining: u8)
    requires
        teeth_remaining >= 1,
    ensures
        possible_draws(teeth_remaining).finite(),
        possible_draws(teeth_remaining).len() == teeth_remaining,
        biting_draws(teeth_remaining) =~= set![1int],
        biting_draws(teeth_remaining).len() == 1,
{
    lemma_int_range(1, teeth_remaining + 1);
    assert(biting_draws(teeth_remaining) =~= set![1int]);
}

} // verus!
