use vstd::prelude::*;
use crate::text::{chars_of, lowercase, lowercase_of, string_of};

verus! {

/// The number of wrong guesses that ends a round.
pub const MAX_WRONG: u8 = 6;

/// A letter that may be guessed: a lowercase ASCII letter.
pub open spec fn is_guess_letter(c: char) -> bool {
    'a' <= c && c <= 'z'
}

/// How many of the guessed letters do not occur in the word.
pub open spec fn miss_count(word: Seq<char>, guessed: Seq<char>) -> nat
    decreases guessed.len(),
{
    if guessed.len() == 0 {
        0
    } else {
        miss_count(word, guessed.drop_last()) + if word.contains(guessed.last()) {
            0nat
        } else {
            1nat
        }
    }
}

/// How one letter of the word is shown: itself once guessed, else `_`.
pub open spec fn mask_char(c: char, guessed: Seq<char>) -> char {
    if guessed.contains(c) {
        c
    } else {
        '_'
    }
}

/// The word with each letter shown or hidden, the positions separated by
/// single spaces.
pub open spec fn masked(word: Seq<char>, guessed: Seq<char>) -> Seq<char>
    decreases word.len(),
{
    if word.len() == 0 {
        seq![]
    } else if word.len() == 1 {
        seq![mask_char(word[0], guessed)]
    } else {
        masked(word.drop_last(), guessed) + seq![' ', mask_char(word.last(), guessed)]
    }
}

/// The abstract state of one round.
pub struct RoundModel {
    pub word: Seq<char>,
    pub guessed: Seq<char>,
    pub wrong: nat,
}

impl RoundModel {
    /// Every letter of the word has been guessed.
    pub open spec fn is_won(self) -> bool {
        forall|i: int| 0 <= i < self.word.len() ==> #[trigger] self.guessed.contains(self.word[i])
    }

    pub open spec fn is_lost(self) -> bool {
        self.wrong == MAX_WRONG as nat && !self.is_won()
    }

    pub open spec fn is_over(self) -> bool {
        self.is_won() || self.is_lost()
    }

    /// The state after guessing `c`: nothing changes once the round is over
    /// or when `c` was guessed before; otherwise `c` is recorded, and counts
    /// as a miss when the word lacks it.
    pub open spec fn guess(self, c: char) -> RoundModel {
        if self.is_over() || self.guessed.contains(c) {
            self
        } else {
            RoundModel {
                word: self.word,
                guessed: self.guessed.push(c),
                wrong: self.wrong + if self.word.contains(c) {
                    0nat
                } else {
                    1nat
                },
            }
        }
    }

    /// The invariant of every round.
    pub open spec fn wf(self) -> bool {
        &&& self.guessed.no_duplicates()
        &&& forall|i: int| 0 <= i < self.guessed.len() ==> is_guess_letter(#[trigger] self.guessed[i])
        &&& self.wrong == miss_count(self.word, self.guessed)
        &&& self.wrong <= MAX_WRONG as nat
    }
}

/// One round: the secret word, the letters guessed in the order they came,
/// and the count of wrong guesses.
pub struct GameState {
    secret_word: Vec<char>,
    guessed_letters: Vec<char>,
    incorrect_guesses: u8,
}

impl View for GameState {
    type V = RoundModel;

    closed spec fn view(&self) -> RoundModel {
        RoundModel {
            word: self.secret_word@,
            guessed: self.guessed_letters@,
            wrong: self.incorrect_guesses as nat,
        }
    }
}

/// Whether `c` occurs in `v`.
fn contains_char(v: &Vec<char>, c: char) -> (r: bool)
    ensures
        r == v@.contains(c),
{
    let mut i: usize = 0;
    while i < v.len()
        invariant
            i <= v.len(),
            forall|j: int| 0 <= j < i ==> v@[j] != c,
        decreases v.len() - i,
    {
        if v[i] == c {
            return true;
        }
        i = i + 1;
    }
    false
}

impl GameState {
    /// A fresh round for `secret_word`, lowercased: nothing guessed yet.
    pub fn new(secret_word: String) -> (r: GameState)
        ensures
            r@.word == lowercase_of(secret_word@),
            r@.guessed == Seq::<char>::empty(),
            r@.wrong == 0,
            r@.wf(),
    {
        let lower = lowercase(secret_word.as_str());
        GameState { secret_word: chars_of(lower.as_str()), guessed_letters: Vec::new(), incorrect_guesses: 0 }
    }

    /// The secret word.
    pub fn secret_word(&self) -> (r: String)
        ensures
            r@ == self@.word,
    {
        string_of(&self.secret_word)
    }

    /// The letters guessed so far, in the order they were guessed.
    pub fn guessed_letters(&self) -> (r: String)
        ensures
            r@ == self@.guessed,
    {
        string_of(&self.guessed_letters)
    }

    /// The number of wrong guesses so far.
    pub fn incorrect_guesses(&self) -> (r: u8)
        ensures
            r as nat == self@.wrong,
    {
        self.incorrect_guesses
    }

    /// The index of the gallows frame to show: the wrong-guess count, at most
    /// the last frame.
    pub fn stage_index(&self) -> (r: usize)
        ensures
            r as nat == if self@.wrong < 6 {
                self@.wrong
            } else {
                6
            },
    {
        if self.incorrect_guesses < MAX_WRONG {
            self.incorrect_guesses as usize
        } else {
            MAX_WRONG as usize
        }
    }

    /// The word as the player sees it: guessed letters shown, the others as
    /// `_`, separated by spaces.
    pub fn current_display(&self) -> (r: String)
        ensures
            r@ == masked(self@.word, self@.guessed),
    {
        let ghost word = self@.word;
        let ghost guessed = self@.guessed;
        let mut out = String::new();
        let mut i: usize = 0;
        while i < self.secret_word.len()
            invariant
                word == self.secret_word@,
                guessed == self.guessed_letters@,
                i <= word.len(),
                out@ == masked(word.take(i as int), guessed),
            decreases word.len() - i,
        {
            let c = self.secret_word[i];
            let shown = if contains_char(&self.guessed_letters, c) {
                c
            } else {
                '_'
            };
            if i > 0 {
                out.push(' ');
            }
            out.push(shown);
            assert(word.take(i + 1).drop_last() == word.take(i as int));
            i = i + 1;
        }
        assert(word.take(word.len() as int) == word);
        out
    }

    /// Whether every letter of the word has been guessed.
    pub fn is_won(&self) -> (r: bool)
        ensures
            r == self@.is_won(),
    {
        let mut i: usize = 0;
        while i < self.secret_word.len()
            invariant
                i <= self.secret_word.len(),
                forall|j: int| 0 <= j < i ==> self.guessed_letters@.contains(#[trigger] self.secret_word@[j]),
            decreases self.secret_word.len() - i,
        {
            if !contains_char(&self.guessed_letters, self.secret_word[i]) {
                assert(!self@.guessed.contains(self@.word[i as int]));
                return false;
            }
            i = i + 1;
        }
        true
    }

    /// Whether the round is lost: all wrong guesses used and the word not found.
    pub fn is_lost(&self) -> (r: bool)
        ensures
            r == self@.is_lost(),
    {
        self.incorrect_guesses == MAX_WRONG && !self.is_won()
    }

    /// Whether the round has ended, won or lost.
    pub fn is_over(&self) -> (r: bool)
        ensures
            r == self@.is_over(),
    {
        self.is_won() || self.is_lost()
    }

    /// Records a guess. A letter guessed before, or any guess once the round
    /// is over, changes nothing; a new letter the word lacks costs one wrong
    /// guess.
    pub fn apply_guess(&mut self, letter: char)
        requires
            old(self)@.wf(),
            is_guess_letter(letter),
        ensures
            final(self)@ == old(self)@.guess(letter),
            final(self)@.wf(),
            final(self)@.word == old(self)@.word,
            old(self)@.wrong <= final(self)@.wrong <= MAX_WRONG as nat,
    {
        if self.is_over() || contains_char(&self.guessed_letters, letter) {
            return;
        }
        let hit = contains_char(&self.secret_word, letter);
        let ghost before = self.guessed_letters@;
        self.guessed_letters.push(letter);
        assert(self.guessed_letters@.drop_last() == before);
        if !hit {
            assert(self.incorrect_guesses < MAX_WRONG);
            self.incorrect_guesses = self.incorrect_guesses + 1;
        }
    }
}

/// Every guess keeps a round valid, and the wrong-guess count never goes
/// down and never passes the limit.
pub proof fn lemma_wrong_count_monotone_bounded(m: RoundModel, c: char)
    requires
        m.wf(),
        is_guess_letter(c),
    ensures
        m.guess(c).wf(),
        m.wrong <= m.guess(c).wrong <= MAX_WRONG as nat,
{
    if !(m.is_over() || m.guessed.contains(c)) {
        let next = m.guess(c);
        assert(next.guessed.drop_last() == m.guessed);
    }
}

/// Guessing a letter a second time changes nothing: two guesses of `c`
/// leave the round as one guess of `c` does.
pub proof fn lemma_guess_idempotent(m: RoundModel, c: char)
    ensures
        m.guess(c).guess(c) == m.guess(c),
{
    let once = m.guess(c);
    if !(m.is_over() || m.guessed.contains(c)) {
        assert(once.guessed[once.guessed.len() - 1] == c);
        assert(once.guessed.contains(c));
    }
}

/// A round is won exactly when the set of distinct letters of the word is
/// contained in the set of guessed letters.
pub proof fn lemma_won_iff_letters_guessed(m: RoundModel)
    ensures
        m.is_won() <==> m.word.to_set().subset_of(m.guessed.to_set()),
{
    if m.is_won() {
        assert forall|c: char| m.word.to_set().contains(c) implies m.guessed.to_set().contains(c) by {
            let i = choose|i: int| 0 <= i < m.word.len() && m.word[i] == c;
            assert(m.guessed.contains(m.word[i]));
        }
    }
    if m.word.to_set().subset_of(m.guessed.to_set()) {
        assert forall|i: int| 0 <= i < m.word.len() implies #[trigger] m.guessed.contains(m.word[i]) by {
            assert(m.word.to_set().contains(m.word[i]));
        }
    }
}

/// The masked display keeps the word's letters in order, one position per
/// letter separated by spaces: a letter is shown exactly when it has been
/// guessed, and every other one reads `_`.
pub proof fn lemma_masked_display(word: Seq<char>, guessed: Seq<char>)
    ensures
        masked(word, guessed).len() == if word.len() == 0 {
            0
        } else {
            2 * word.len() - 1
        },
        forall|i: int|
            0 <= i < word.len() ==> #[trigger] masked(word, guessed)[2 * i] == if guessed.contains(
                word[i],
            ) {
                word[i]
            } else {
                '_'
            },
        forall|i: int| 0 <= i < word.len() - 1 ==> #[trigger] masked(word, guessed)[2 * i + 1] == ' ',
    decreases word.len(),
{
    if word.len() > 1 {
        lemma_masked_display(word.drop_last(), guessed);
        let prev = word.drop_last();
        assert forall|i: int| 0 <= i < word.len() implies #[trigger] masked(word, guessed)[2 * i]
            == mask_char(word[i], guessed) by {
            if i < word.len() - 1 {
                assert(masked(prev, guessed)[2 * i] == mask_char(prev[i], guessed));
            }
        }
        assert forall|i: int| 0 <= i < word.len() - 1 implies #[trigger] masked(word, guessed)[2 * i
            + 1] == ' ' by {
            if i < word.len() - 2 {
                assert(masked(prev, guessed)[2 * i + 1] == ' ');
            }
        }
    }
}

} // verus!
