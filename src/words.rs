use vstd::prelude::*;
use vstd::string::*;
use rand::seq::SliceRandom;

verus! {

/// The word played when the word list is empty.
pub const FALLBACK_WORD: &'static str = "hangman";

/// Relies on rand's SliceRandom::choose, drawing with the thread-local
/// generator: nothing exactly when the list is empty, otherwise a copy of one
/// of its words.
#[verifier::external_body]
fn choose_word(words: &Vec<String>) -> (r: Option<String>)
    ensures
        r is None <==> words@.len() == 0,
        r matches Some(w) ==> exists|i: int| 0 <= i < words@.len() && w@ == (#[trigger] words@[i])@,
{
    words.choose(&mut rand::thread_rng()).cloned()
}

/// Draws the secret word for a round: one of `words`, or the fallback word
/// when there are none.
pub fn select_random_word(words: &Vec<String>) -> (r: String)
    ensures
        words@.len() == 0 ==> r@ == FALLBACK_WORD@,
        words@.len() > 0 ==> exists|i: int| 0 <= i < words@.len() && r@ == (#[trigger] words@[i])@,
{
    match choose_word(words) {
        Some(w) => w,
        None => String::from_str(FALLBACK_WORD),
    }
}

} // verus!
