use zk_wordle::wordlist::{pick_word, sentinel_guess, validate_guess, word_list};
use zk_wordle::WORD_LENGTH;

#[test]
fn valid_guesses_pass_validation() {
    assert!(validate_guess("cat"));
    assert!(validate_guess("dog"));
    assert!(validate_guess("zzz"));
}

#[test]
fn wrong_length_guesses_are_rejected() {
    assert!(!validate_guess(""));
    assert!(!validate_guess("ca"));
    assert!(!validate_guess("cats"));
}

#[test]
fn non_letter_guesses_are_rejected() {
    assert!(!validate_guess("caT"));
    assert!(!validate_guess("c4t"));
    assert!(!validate_guess("c t"));
    assert!(!validate_guess("äöü"));
}

#[test]
fn sentinel_is_never_a_valid_guess() {
    let sentinel = sentinel_guess();
    assert_eq!(sentinel, "___");
    assert_eq!(sentinel.len(), WORD_LENGTH);
    assert!(!validate_guess(sentinel));
}

#[test]
fn word_list_holds_ninety_valid_words() {
    let words = word_list();
    assert_eq!(words.len(), 90);
    for w in &words {
        assert!(validate_guess(w));
    }
    assert!(words.contains(&"cat"));
    assert!(words.contains(&"dog"));
    assert!(!words.contains(&sentinel_guess()));
}

#[test]
fn picked_word_is_a_valid_dictionary_word() {
    for _ in 0..32 {
        let w = pick_word();
        assert!(validate_guess(w));
        assert!(word_list().contains(&w));
    }
}
