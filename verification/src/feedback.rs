//! Per-letter feedback for a guess against a secret word.

use vstd::prelude::*;

verus! {

use crate::WORD_LENGTH;
use vstd::string::StringSliceAdditionalSpecFns;

/// Classification of one guess letter against the secret word.
#[derive(Clone, Copy, Debug, PartialEq, Eq, Structural)]
pub enum LetterFeedback {
    /// The letter matches the secret letter at the same position.
    Correct,
    /// The letter appears in the secret at a position that was not an
    /// exact match, at some other index.
    Present,
    /// The letter contributes to no match.
    Miss,
}

impl Default for LetterFeedback {
    fn default() -> (r: Self)
        ensures
            r == LetterFeedback::Miss,
    {
        LetterFeedback::Miss
    }
}

/// Feedback for a whole guess: one entry per letter position.
#[derive(Clone, Debug, PartialEq, Eq)]
pub struct WordFeedback(pub [LetterFeedback; WORD_LENGTH]);

impl Default for WordFeedback {
    /// Before anything is matched, every position is a `Miss`.
    fn default() -> (r: Self)
        ensures
            r.0@.len() == WORD_LENGTH,
            forall|i: int| 0 <= i < r.0@.len() ==> r.0@[i] == LetterFeedback::Miss,
    {
        WordFeedback([LetterFeedback::Miss, LetterFeedback::Miss, LetterFeedback::Miss])
    }
}

impl WordFeedback {
    /// The game is won exactly when every position is an exact match.
    pub fn game_is_won(&self) -> (r: bool)
        ensures
            r == feedback_is_winning(self.0@),
    {
        let mut i: usize = 0;
        while i < WORD_LENGTH
            invariant
                i <= WORD_LENGTH,
                self.0@.len() == WORD_LENGTH,
                forall|j: int| 0 <= j < i ==> self.0@[j] == LetterFeedback::Correct,
            decreases WORD_LENGTH - i,
        {
            if !matches!(self.0[i], LetterFeedback::Correct) {
                return false;
            }
            i += 1;
        }
        true
    }
}

/// Win predicate over a feedback sequence: all entries are exact matches.
pub open spec fn feedback_is_winning(entries: Seq<LetterFeedback>) -> bool {
    forall|j: int| 0 <= j < entries.len() ==> entries[j] == LetterFeedback::Correct
}

/// The secret has, at some position that is not an exact match, the given
/// letter. These are the letters the second pass of the feedback algorithm
/// may still credit as `Present`.
pub open spec fn has_unmatched_occurrence(secret: Seq<u8>, guess: Seq<u8>, letter: u8) -> bool {
    exists|j: int| 0 <= j < secret.len() && secret[j] != guess[j] && secret[j] == letter
}

/// Feedback owed to position `i` of the guess: an exact match is `Correct`;
/// otherwise a letter that occurs among the secret's unmatched letters is
/// `Present`; everything else is `Miss`. The `Present` test does not consume
/// an unmatched letter, so a repeated guess letter can be credited more than
/// once for a single occurrence in the secret.
pub open spec fn letter_feedback_spec(secret: Seq<u8>, guess: Seq<u8>, i: int) -> LetterFeedback
    recommends
        secret.len() == guess.len(),
        0 <= i < guess.len(),
{
    if secret[i] == guess[i] {
        LetterFeedback::Correct
    } else if has_unmatched_occurrence(secret, guess, guess[i]) {
        LetterFeedback::Present
    } else {
        LetterFeedback::Miss
    }
}

/// Feedback owed to a whole guess, position by position.
pub open spec fn word_feedback_spec(secret: Seq<u8>, guess: Seq<u8>) -> Seq<LetterFeedback> {
    Seq::new(guess.len(), |i: int| letter_feedback_spec(secret, guess, i))
}

/// The feedback engine is deterministic and total on words of the fixed
/// length: the feedback owed to a (secret, guess) pair is one sequence, with
/// exactly one entry per letter of the guess.
pub proof fn lemma_feedback_deterministic(
    secret: Seq<u8>,
    guess: Seq<u8>,
    a: Seq<LetterFeedback>,
    b: Seq<LetterFeedback>,
)
    requires
        guess.len() == WORD_LENGTH,
        a == word_feedback_spec(secret, guess),
        b == word_feedback_spec(secret, guess),
    ensures
        a == b,
        a.len() == WORD_LENGTH,
{
}

/// A guess equal to the secret earns `Correct` at every position: its
/// feedback is winning.
pub proof fn lemma_correct_guess_wins(secret: Seq<u8>, guess: Seq<u8>)
    requires
        guess == secret,
    ensures
        feedback_is_winning(word_feedback_spec(secret, guess)),
{
    assert forall|j: int| 0 <= j < guess.len() implies word_feedback_spec(secret, guess)[j]
        == LetterFeedback::Correct by {
        assert(secret[j] == guess[j]);
    }
}

/// Winning feedback is earned by the exact secret alone: if every entry is
/// `Correct`, the guess and the secret agree at every position.
pub proof fn lemma_winning_guess_is_secret(secret: Seq<u8>, guess: Seq<u8>)
    requires
        secret.len() == guess.len(),
        feedback_is_winning(word_feedback_spec(secret, guess)),
    ensures
        guess == secret,
{
    assert forall|i: int| 0 <= i < secret.len() implies secret[i] == guess[i] by {
        assert(word_feedback_spec(secret, guess)[i] == LetterFeedback::Correct);
    }
    assert(guess =~= secret);
}

/// A guess letter that occurs nowhere in the secret earns a `Miss`.
pub proof fn lemma_absent_letter_misses(secret: Seq<u8>, guess: Seq<u8>, i: int)
    requires
        secret.len() == guess.len(),
        0 <= i < guess.len(),
        forall|j: int| 0 <= j < secret.len() ==> secret[j] != guess[i],
    ensures
        word_feedback_spec(secret, guess)[i] == LetterFeedback::Miss,
{
    assert(secret[i] != guess[i]);
    assert(!has_unmatched_occurrence(secret, guess, guess[i]));
}

/// Does `v` hold `letter`?
fn vec_contains_byte(v: &Vec<u8>, letter: u8) -> (r: bool)
    ensures
        r == v@.contains(letter),
{
    let mut k: usize = 0;
    while k < v.len()
        invariant
            k <= v@.len(),
            forall|j: int| 0 <= j < k ==> v@[j] != letter,
        decreases v@.len() - k,
    {
        if v[k] == letter {
            return true;
        }
        k += 1;
    }
    false
}

/// The feedback engine: classify every letter of `guess` against `secret`.
///
/// Both words must measure `WORD_LENGTH` in letters and in bytes alike —
/// that is, be ASCII — so the per-byte classification below is a per-letter
/// one.
///
/// First pass: collect the secret's letters at positions without an exact
/// match. Second pass: mark exact matches `Correct`, letters found among the
/// collected ones `Present`, the rest `Miss`.
pub fn compute_feedback(secret: &str, guess: &str) -> (r: WordFeedback)
    requires
        secret@.len() == WORD_LENGTH,
        secret.spec_bytes().len() == WORD_LENGTH,
        guess@.len() == WORD_LENGTH,
        guess.spec_bytes().len() == WORD_LENGTH,
    ensures
        r.0@ == word_feedback_spec(secret.spec_bytes(), guess.spec_bytes()),
{
    let sb = secret.as_bytes();
    let gb = guess.as_bytes();

    let mut unmatched: Vec<u8> = Vec::new();
    let mut i: usize = 0;
    while i < WORD_LENGTH
        invariant
            sb@ == secret.spec_bytes(),
            gb@ == guess.spec_bytes(),
            sb@.len() == WORD_LENGTH,
            gb@.len() == WORD_LENGTH,
            i <= WORD_LENGTH,
            forall|b: u8|
                unmatched@.contains(b) <==> exists|j: int|
                    0 <= j < i && sb@[j] != gb@[j] && sb@[j] == b,
        decreases WORD_LENGTH - i,
    {
        if sb[i] != gb[i] {
            let ghost prev = unmatched@;
            unmatched.push(sb[i]);
            proof {
                assert forall|b: u8| unmatched@.contains(b) implies exists|j: int|
                    0 <= j < i + 1 && sb@[j] != gb@[j] && sb@[j] == b by {
                    let k = choose|k: int| 0 <= k < unmatched@.len() && unmatched@[k] == b;
                    if k < prev.len() {
                        assert(prev.contains(b));
                    } else {
                        assert(sb@[i as int] == b);
                    }
                }
                assert forall|b: u8|
                    (exists|j: int| 0 <= j < i + 1 && sb@[j] != gb@[j] && sb@[j] == b) implies
                    unmatched@.contains(b) by {
                    let j = choose|j: int| 0 <= j < i + 1 && sb@[j] != gb@[j] && sb@[j] == b;
                    if j < i {
                        assert(prev.contains(b));
                        let k = choose|k: int| 0 <= k < prev.len() && prev[k] == b;
                        assert(unmatched@[k] == b);
                    } else {
                        assert(unmatched@[prev.len() as int] == b);
                    }
                }
            }
        }
        i += 1;
    }

    let mut entries: Vec<LetterFeedback> = Vec::new();
    let mut i: usize = 0;
    while i < WORD_LENGTH
        invariant
            sb@ == secret.spec_bytes(),
            gb@ == guess.spec_bytes(),
            sb@.len() == WORD_LENGTH,
            gb@.len() == WORD_LENGTH,
            i <= WORD_LENGTH,
            entries@.len() == i,
            forall|b: u8|
                unmatched@.contains(b) <==> has_unmatched_occurrence(sb@, gb@, b),
            forall|j: int| 0 <= j < i ==> entries@[j] == letter_feedback_spec(sb@, gb@, j),
        decreases WORD_LENGTH - i,
    {
        let e = if sb[i] == gb[i] {
            LetterFeedback::Correct
        } else if vec_contains_byte(&unmatched, gb[i]) {
            LetterFeedback::Present
        } else {
            LetterFeedback::Miss
        };
        entries.push(e);
        i += 1;
    }

    let r = WordFeedback([entries[0], entries[1], entries[2]]);
    proof {
        assert(r.0@ =~= word_feedback_spec(secret.spec_bytes(), guess.spec_bytes()));
    }
    r
}

} // verus!
