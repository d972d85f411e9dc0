//! A terminal word-guessing game: the round state, its rules, the gallows
//! art, the screen layout and the decisions taken on each keystroke.
pub mod game;
pub mod text;
pub mod input;
pub mod art;
pub mod round;
pub mod screen;
pub mod words;
