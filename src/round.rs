use vstd::prelude::*;
use crate::game::{is_guess_letter, GameState, RoundModel};

verus! {

/// What the round asks for next.
#[derive(Clone, Copy, Debug, PartialEq, Eq, Structural)]
pub enum RoundStep {
    /// The round goes on: draw it and wait for a letter.
    AwaitGuess,
    /// The round is decided: draw it, then the outcome screen.
    GameOver { won: bool },
}

/// The step that a round in state `m` asks for.
pub open spec fn step_of(m: RoundModel) -> RoundStep {
    if m.is_won() {
        RoundStep::GameOver { won: true }
    } else if m.is_lost() {
        RoundStep::GameOver { won: false }
    } else {
        RoundStep::AwaitGuess
    }
}

/// One turn of the round: applies the letter just read, if there is one,
/// then decides whether the round is won, lost, or waits for another letter.
/// A decided round takes no more input.
pub fn main_loop(state: &mut GameState, guess: Option<char>) -> (r: RoundStep)
    requires
        old(state)@.wf(),
        guess matches Some(c) ==> is_guess_letter(c),
    ensures
        final(state)@ == (match guess {
            Some(c) => old(state)@.guess(c),
            None => old(state)@,
        }),
        final(state)@.wf(),
        r == step_of(final(state)@),
{
    match guess {
        Some(c) => state.apply_guess(c),
        None => {},
    }
    if state.is_won() {
        RoundStep::GameOver { won: true }
    } else if state.is_lost() {
        RoundStep::GameOver { won: false }
    } else {
        RoundStep::AwaitGuess
    }
}

} // verus!
