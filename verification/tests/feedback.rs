use zk_wordle::feedback::{LetterFeedback, WordFeedback};
use zk_wordle::feedback::compute_feedback;
use zk_wordle::WORD_LENGTH;

#[test]
fn feedback_for_rotated_guess() {
    // secret "cat", guess "act": the final 't' sits at its own position and
    // is an exact match; 'a' and 'c' appear among the unmatched letters
    // {'c', 'a'} of the secret.
    let fb = compute_feedback("cat", "act");
    assert_eq!(
        fb,
        WordFeedback([
            LetterFeedback::Present,
            LetterFeedback::Present,
            LetterFeedback::Correct,
        ])
    );
    assert!(!fb.game_is_won());
}

#[test]
fn feedback_all_present_for_derangement() {
    // secret "cat", guess "tca": no letter sits at its own position, every
    // letter occurs in the secret, so everything is present.
    let fb = compute_feedback("cat", "tca");
    assert_eq!(
        fb,
        WordFeedback([
            LetterFeedback::Present,
            LetterFeedback::Present,
            LetterFeedback::Present,
        ])
    );
    assert!(!fb.game_is_won());
}

#[test]
fn feedback_all_correct_for_equal_guess() {
    let fb = compute_feedback("cat", "cat");
    assert_eq!(
        fb,
        WordFeedback([
            LetterFeedback::Correct,
            LetterFeedback::Correct,
            LetterFeedback::Correct,
        ])
    );
    assert!(fb.game_is_won());
}

#[test]
fn feedback_all_miss_for_disjoint_guess() {
    let fb = compute_feedback("dog", "cat");
    assert_eq!(
        fb,
        WordFeedback([
            LetterFeedback::Miss,
            LetterFeedback::Miss,
            LetterFeedback::Miss,
        ])
    );
    assert!(!fb.game_is_won());
}

#[test]
fn feedback_is_deterministic_and_full_length() {
    let a = compute_feedback("bus", "sub");
    let b = compute_feedback("bus", "sub");
    assert_eq!(a, b);
    assert_eq!(a.0.len(), WORD_LENGTH);
}

#[test]
fn feedback_mixed_positions() {
    // secret "bat", guess "tab": the 'a' sits at its own position, 't' and
    // 'b' are elsewhere in the secret.
    let fb = compute_feedback("bat", "tab");
    assert_eq!(
        fb,
        WordFeedback([
            LetterFeedback::Present,
            LetterFeedback::Correct,
            LetterFeedback::Present,
        ])
    );
    // secret "bat", guess "bit": first and last letters exact, middle absent.
    let fb = compute_feedback("bat", "bit");
    assert_eq!(
        fb,
        WordFeedback([
            LetterFeedback::Correct,
            LetterFeedback::Miss,
            LetterFeedback::Correct,
        ])
    );
}

#[test]
fn repeated_guess_letter_is_credited_per_position() {
    // secret "tab", guess "tt" + "t": position 0 matches exactly; the other
    // two guess letters are each tested against the unmatched letters
    // {"a", "b"} of the secret, so they miss.
    let fb = compute_feedback("tab", "ttt");
    assert_eq!(
        fb,
        WordFeedback([
            LetterFeedback::Correct,
            LetterFeedback::Miss,
            LetterFeedback::Miss,
        ])
    );
    // secret "abc", guess "caa": the unmatched letters of the secret are all
    // three of them, so both 'a's of the guess are credited as present —
    // the contains test consumes nothing.
    let fb = compute_feedback("abc", "caa");
    assert_eq!(
        fb,
        WordFeedback([
            LetterFeedback::Present,
            LetterFeedback::Present,
            LetterFeedback::Present,
        ])
    );
}

#[test]
fn win_predicate_iff_all_correct() {
    let all = WordFeedback([
        LetterFeedback::Correct,
        LetterFeedback::Correct,
        LetterFeedback::Correct,
    ]);
    assert!(all.game_is_won());
    let almost = WordFeedback([
        LetterFeedback::Correct,
        LetterFeedback::Correct,
        LetterFeedback::Present,
    ]);
    assert!(!almost.game_is_won());
    let none = WordFeedback([
        LetterFeedback::Miss,
        LetterFeedback::Miss,
        LetterFeedback::Miss,
    ]);
    assert!(!none.game_is_won());
}

#[test]
fn default_letter_feedback_is_miss() {
    assert_eq!(LetterFeedback::default(), LetterFeedback::Miss);
    assert_eq!(
        WordFeedback::default(),
        WordFeedback([
            LetterFeedback::Miss,
            LetterFeedback::Miss,
            LetterFeedback::Miss,
        ])
    );
    assert!(!WordFeedback::default().game_is_won());
}
