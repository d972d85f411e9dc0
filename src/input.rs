use vstd::prelude::*;
use crate::game::is_guess_letter;

verus! {

pub open spec fn is_ascii_upper(c: char) -> bool {
    'A' <= c && c <= 'Z'
}

pub open spec fn is_ascii_letter(c: char) -> bool {
    is_guess_letter(c) || is_ascii_upper(c)
}

/// The ASCII lowercase form of `c`: an uppercase ASCII letter moves to its
/// lowercase partner, anything else stays.
pub open spec fn ascii_lower(c: char) -> char {
    if is_ascii_upper(c) {
        (c as u32 + 32) as char
    } else {
        c
    }
}

/// Relies on char::to_ascii_lowercase: 'A'..='Z' map to 'a'..='z', every
/// other character is returned unchanged.
pub assume_specification[ char::to_ascii_lowercase ](c: &char) -> (r: char)
    ensures
        r == ascii_lower(*c),
;

/// Relies on char::is_ascii_alphabetic: true exactly on 'A'..='Z' and 'a'..='z'.
pub assume_specification[ char::is_ascii_alphabetic ](c: &char) -> (r: bool)
    ensures
        r == is_ascii_letter(*c),
;

/// A keystroke as the game sees it: a printable character, or any other key.
#[derive(Clone, Copy, Debug, PartialEq, Eq, Structural)]
pub enum KeyInput {
    Char(char),
    Other,
}

/// The letter guess that a keystroke stands for, if any.
pub open spec fn key_guess(key: KeyInput) -> Option<char> {
    match key {
        KeyInput::Char(c) => if is_ascii_letter(c) {
            Some(ascii_lower(c))
        } else {
            None
        },
        KeyInput::Other => None,
    }
}

/// The replay decision that a keystroke stands for, if any.
pub open spec fn key_replay(key: KeyInput) -> Option<bool> {
    match key {
        KeyInput::Char(c) => if c == 'y' || c == 'Y' {
            Some(true)
        } else if c == 'n' || c == 'N' {
            Some(false)
        } else {
            None
        },
        KeyInput::Other => None,
    }
}

/// Reads a keystroke as a letter guess: an ASCII letter gives its lowercase
/// form; every other key is to be ignored.
pub fn guess_from_key(key: KeyInput) -> (r: Option<char>)
    ensures
        r == key_guess(key),
        r matches Some(c) ==> is_guess_letter(c),
{
    match key {
        KeyInput::Char(c) => {
            let lower = c.to_ascii_lowercase();
            if lower.is_ascii_alphabetic() {
                Some(lower)
            } else {
                None
            }
        },
        KeyInput::Other => None,
    }
}

/// Reads a keystroke as the answer to the replay prompt: `y` or `Y` to play
/// again, `n` or `N` to stop; every other key is to be ignored.
pub fn replay_from_key(key: KeyInput) -> (r: Option<bool>)
    ensures
        r == key_replay(key),
{
    match key {
        KeyInput::Char(c) => {
            if c == 'y' || c == 'Y' {
                Some(true)
            } else if c == 'n' || c == 'N' {
                Some(false)
            } else {
                None
            }
        },
        KeyInput::Other => None,
    }
}

} // verus!
