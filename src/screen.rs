use vstd::prelude::*;
use vstd::string::*;
use crate::art::{hangman_stage, stage_frame};
use crate::game::{masked, GameState};

verus! {

/// A piece of text to write with its first character at a screen cell.
pub struct ScreenText {
    pub column: u16,
    pub row: u16,
    pub text: String,
}

pub open spec fn placed(t: ScreenText, column: u16, row: u16, text: Seq<char>) -> bool {
    t.column == column && t.row == row && t.text@ == text
}

/// The message of the outcome screen.
pub open spec fn outcome_message(won: bool) -> Seq<char> {
    if won {
        "YOU WIN! \u{1F389}"@
    } else {
        "YOU LOSE! \u{1F480}"@
    }
}

/// What the screen shows while a round is played, top to bottom: the gallows
/// frame for the wrong-guess count, the masked word, and the letters guessed
/// in the order they came.
pub fn interface_layout(state: &GameState) -> (r: Vec<ScreenText>)
    ensures
        r@.len() == 3,
        placed(
            r@[0],
            5,
            2,
            stage_frame(if state@.wrong < 6 { state@.wrong as int } else { 6 })@,
        ),
        placed(r@[1], 10, 15, "Word: "@ + masked(state@.word, state@.guessed)),
        placed(r@[2], 10, 17, "Guessed: "@ + state@.guessed),
{
    let frame = String::from_str(hangman_stage(state.stage_index()));
    let word = String::from_str("Word: ").concat(state.current_display().as_str());
    let guessed = String::from_str("Guessed: ").concat(state.guessed_letters().as_str());
    let mut r: Vec<ScreenText> = Vec::new();
    r.push(ScreenText { column: 5, row: 2, text: frame });
    r.push(ScreenText { column: 10, row: 15, text: word });
    r.push(ScreenText { column: 10, row: 17, text: guessed });
    r
}

/// What the screen shows once a round is decided: the outcome, the secret
/// word, and the replay prompt.
pub fn game_over_layout(win: bool, secret_word: &str) -> (r: Vec<ScreenText>)
    ensures
        r@.len() == 3,
        placed(r@[0], 10, 5, outcome_message(win)),
        placed(r@[1], 10, 6, "The word was: "@ + secret_word@),
        placed(r@[2], 10, 8, "Play again? (Y/N)"@),
{
    let message = if win {
        String::from_str("YOU WIN! \u{1F389}")
    } else {
        String::from_str("YOU LOSE! \u{1F480}")
    };
    let word = String::from_str("The word was: ").concat(secret_word);
    let prompt = String::from_str("Play again? (Y/N)");
    let mut r: Vec<ScreenText> = Vec::new();
    r.push(ScreenText { column: 10, row: 5, text: message });
    r.push(ScreenText { column: 10, row: 6, text: word });
    r.push(ScreenText { column: 10, row: 8, text: prompt });
    r
}

} // verus!
