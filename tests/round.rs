use hangman::art::{hangman_stage, STAGE_0, STAGE_3, STAGE_6};
use hangman::game::GameState;
use hangman::input::{guess_from_key, replay_from_key, KeyInput};
use hangman::round::{main_loop, RoundStep};
use hangman::screen::{game_over_layout, interface_layout};
use hangman::words::{select_random_word, FALLBACK_WORD};

fn round(word: &str) -> GameState {
    GameState::new(word.to_string())
}

#[test]
fn correct_guesses_win_without_misses() {
    let mut s = round("cat");
    for c in ['c', 'a', 't'] {
        assert!(!s.is_won());
        s.apply_guess(c);
        assert_eq!(s.incorrect_guesses(), 0);
    }
    assert!(s.is_won());
    assert!(!s.is_lost());
    assert_eq!(s.current_display(), "c a t");
}

#[test]
fn six_misses_lose() {
    let mut s = round("cat");
    for c in ['x', 'y', 'z', 'q', 'w', 'e'] {
        s.apply_guess(c);
    }
    assert_eq!(s.incorrect_guesses(), 6);
    assert!(s.is_lost());
    assert!(!s.is_won());
    assert!(s.is_over());
    assert_eq!(s.current_display(), "_ _ _");
}

#[test]
fn repeated_guess_is_ignored() {
    let mut s = round("cat");
    s.apply_guess('c');
    s.apply_guess('c');
    s.apply_guess('c');
    assert_eq!(s.guessed_letters(), "c");
    assert_eq!(s.incorrect_guesses(), 0);
}

#[test]
fn repeated_miss_counts_once() {
    let mut once = round("cat");
    once.apply_guess('z');
    let mut twice = round("cat");
    twice.apply_guess('z');
    twice.apply_guess('z');
    assert_eq!(once.guessed_letters(), twice.guessed_letters());
    assert_eq!(once.incorrect_guesses(), twice.incorrect_guesses());
    assert_eq!(twice.incorrect_guesses(), 1);
}

#[test]
fn wrong_count_grows_and_stays_bounded() {
    let mut s = round("cat");
    let mut last = s.incorrect_guesses();
    for c in ['b', 'c', 'd', 'e', 'f', 'a', 'g', 'h', 'i', 'j', 'k', 't'] {
        s.apply_guess(c);
        let now = s.incorrect_guesses();
        assert!(now >= last);
        assert!(now <= 6);
        last = now;
    }
    assert_eq!(s.incorrect_guesses(), 6);
    assert!(s.is_lost());
    assert_eq!(s.guessed_letters(), "bcdefagh");
}

#[test]
fn won_when_every_distinct_letter_guessed() {
    let mut s = round("banana");
    s.apply_guess('b');
    s.apply_guess('a');
    assert!(!s.is_won());
    assert_eq!(s.current_display(), "b a _ a _ a");
    s.apply_guess('n');
    assert!(s.is_won());
}

#[test]
fn lost_only_at_six_misses() {
    let mut s = round("cat");
    for c in ['x', 'y', 'z', 'q', 'w'] {
        s.apply_guess(c);
    }
    assert_eq!(s.incorrect_guesses(), 5);
    assert!(!s.is_lost());
    s.apply_guess('c');
    assert!(!s.is_lost());
    s.apply_guess('e');
    assert!(s.is_lost());
}

#[test]
fn guesses_after_the_end_change_nothing() {
    let mut s = round("cat");
    for c in ['c', 'a', 't'] {
        s.apply_guess(c);
    }
    s.apply_guess('z');
    assert_eq!(s.guessed_letters(), "cat");
    assert_eq!(s.incorrect_guesses(), 0);
}

#[test]
fn display_masks_unguessed_letters() {
    let mut s = round("hello");
    assert_eq!(s.current_display(), "_ _ _ _ _");
    s.apply_guess('l');
    assert_eq!(s.current_display(), "_ _ l l _");
    s.apply_guess('z');
    assert_eq!(s.current_display(), "_ _ l l _");
}

#[test]
fn new_round_lowercases_the_word() {
    let s = round("CaT");
    assert_eq!(s.secret_word(), "cat");
    assert_eq!(s.guessed_letters(), "");
    assert_eq!(s.incorrect_guesses(), 0);
    assert_eq!(s.current_display(), "_ _ _");
}

#[test]
fn single_letter_word_display() {
    let mut s = round("a");
    assert_eq!(s.current_display(), "_");
    s.apply_guess('a');
    assert_eq!(s.current_display(), "a");
    assert!(s.is_won());
}

#[test]
fn stage_index_follows_misses() {
    let mut s = round("cat");
    assert_eq!(s.stage_index(), 0);
    s.apply_guess('x');
    s.apply_guess('y');
    assert_eq!(s.stage_index(), 2);
}

#[test]
fn stage_frames_clamp() {
    assert_eq!(hangman_stage(0), STAGE_0);
    assert_eq!(hangman_stage(3), STAGE_3);
    assert_eq!(hangman_stage(6), STAGE_6);
    assert_eq!(hangman_stage(9), STAGE_6);
    assert_ne!(STAGE_0, STAGE_6);
}

#[test]
fn letter_keys_become_lowercase_guesses() {
    assert_eq!(guess_from_key(KeyInput::Char('a')), Some('a'));
    assert_eq!(guess_from_key(KeyInput::Char('Q')), Some('q'));
    assert_eq!(guess_from_key(KeyInput::Char('7')), None);
    assert_eq!(guess_from_key(KeyInput::Char('-')), None);
    assert_eq!(guess_from_key(KeyInput::Char('é')), None);
    assert_eq!(guess_from_key(KeyInput::Other), None);
}

#[test]
fn replay_keys() {
    assert_eq!(replay_from_key(KeyInput::Char('y')), Some(true));
    assert_eq!(replay_from_key(KeyInput::Char('Y')), Some(true));
    assert_eq!(replay_from_key(KeyInput::Char('n')), Some(false));
    assert_eq!(replay_from_key(KeyInput::Char('N')), Some(false));
    assert_eq!(replay_from_key(KeyInput::Char('x')), None);
    assert_eq!(replay_from_key(KeyInput::Other), None);
}

#[test]
fn round_turns_until_won() {
    let mut s = round("cat");
    assert_eq!(main_loop(&mut s, None), RoundStep::AwaitGuess);
    assert_eq!(main_loop(&mut s, Some('c')), RoundStep::AwaitGuess);
    assert_eq!(main_loop(&mut s, Some('x')), RoundStep::AwaitGuess);
    assert_eq!(main_loop(&mut s, Some('a')), RoundStep::AwaitGuess);
    assert_eq!(main_loop(&mut s, Some('t')), RoundStep::GameOver { won: true });
    assert_eq!(s.incorrect_guesses(), 1);
}

#[test]
fn round_turns_until_lost() {
    let mut s = round("cat");
    let mut step = main_loop(&mut s, None);
    for c in ['x', 'y', 'z', 'q', 'w', 'e'] {
        assert_eq!(step, RoundStep::AwaitGuess);
        step = main_loop(&mut s, Some(c));
    }
    assert_eq!(step, RoundStep::GameOver { won: false });
}

#[test]
fn empty_word_list_gives_fallback_round() {
    let w = select_random_word(&Vec::new());
    assert_eq!(w, FALLBACK_WORD);
    assert_eq!(w, "hangman");
    let mut s = GameState::new(w);
    assert_eq!(s.current_display(), "_ _ _ _ _ _ _");
    for c in ['h', 'a', 'n', 'g', 'm'] {
        s.apply_guess(c);
    }
    assert!(s.is_won());
    assert_eq!(s.incorrect_guesses(), 0);
}

#[test]
fn word_is_drawn_from_the_list() {
    let words = vec!["apple".to_string(), "pear".to_string()];
    for _ in 0..20 {
        let w = select_random_word(&words);
        assert!(words.contains(&w));
    }
    let one = vec!["Plum".to_string()];
    assert_eq!(select_random_word(&one), "Plum");
}

#[test]
fn play_screen_layout() {
    let mut s = round("cat");
    s.apply_guess('a');
    s.apply_guess('z');
    let lines = interface_layout(&s);
    assert_eq!(lines.len(), 3);
    assert_eq!((lines[0].column, lines[0].row), (5, 2));
    assert_eq!(lines[0].text, hangman_stage(1));
    assert_eq!((lines[1].column, lines[1].row), (10, 15));
    assert_eq!(lines[1].text, "Word: _ a _");
    assert_eq!((lines[2].column, lines[2].row), (10, 17));
    assert_eq!(lines[2].text, "Guessed: az");
}

#[test]
fn outcome_screen_layout() {
    let won = game_over_layout(true, "cat");
    assert_eq!((won[0].column, won[0].row), (10, 5));
    assert_eq!(won[0].text, "YOU WIN! \u{1F389}");
    assert_eq!((won[1].column, won[1].row), (10, 6));
    assert_eq!(won[1].text, "The word was: cat");
    assert_eq!((won[2].column, won[2].row), (10, 8));
    assert_eq!(won[2].text, "Play again? (Y/N)");
    let lost = game_over_layout(false, "dog");
    assert_eq!(lost[0].text, "YOU LOSE! \u{1F480}");
    assert_eq!(lost[1].text, "The word was: dog");
}
