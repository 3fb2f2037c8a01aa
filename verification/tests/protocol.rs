use zk_wordle::commitment::{commit_word, Digest, DIGEST_BYTES};
use zk_wordle::feedback::LetterFeedback;
use zk_wordle::protocol::{Game, Player, ProtocolError, RoundState, Server};
use zk_wordle::ATTEMPT_LIMIT;

#[test]
fn commitment_is_sha256_of_the_secret() {
    // SHA-256("cat"), byte by byte: the digest is a real hash of the word,
    // not the word itself or anything derived inside this crate.
    let expected = Digest([
        119, 175, 119, 139, 81, 171, 212, 163, 197, 28, 93, 221, 151, 32, 74, 156, 58, 230, 20,
        235, 204, 183, 90, 96, 108, 59, 104, 101, 174, 214, 116, 78,
    ]);
    assert_eq!(commit_word("cat"), expected);
    assert!(commit_word("cat").equals(&expected));
}

#[test]
fn commitment_is_stable_across_rounds() {
    let server = Server::new("cat");
    let setup_digest = server.get_secret_word_hash();
    let round_one = server.check_round("act");
    let round_two = server.check_round("dog");
    assert_eq!(round_one.correct_word_hash, setup_digest);
    assert_eq!(round_two.correct_word_hash, setup_digest);
}

#[test]
fn commitments_of_different_secrets_differ() {
    assert_ne!(commit_word("cat"), commit_word("dog"));
    assert!(!commit_word("cat").equals(&commit_word("dog")));
}

#[test]
fn digest_equals_is_value_comparison() {
    let a = Digest([7u8; DIGEST_BYTES]);
    let b = Digest([7u8; DIGEST_BYTES]);
    let mut c = Digest([7u8; DIGEST_BYTES]);
    c.0[31] = 8;
    assert!(a.equals(&b));
    assert!(!a.equals(&c));
}

#[test]
fn honest_round_is_accepted() {
    let server = Server::new("cat");
    let player = Player { hash: server.get_secret_word_hash() };
    let state = server.check_round("act");
    let feedback = player
        .check_receipt(true, state)
        .expect("an honest round yields feedback");
    assert_eq!(
        feedback.0,
        [
            LetterFeedback::Present,
            LetterFeedback::Present,
            LetterFeedback::Correct,
        ]
    );
}

#[test]
fn swapped_secret_is_reported_as_cheating() {
    // The player committed to "cat" at setup; the server answers a round
    // about "dog". The proof itself is fine, so the player must see the
    // cheat and receive no feedback.
    let honest = Server::new("cat");
    let player = Player { hash: honest.get_secret_word_hash() };
    let dishonest = Server::new("dog");
    let state = dishonest.check_round("act");
    assert_eq!(
        player.check_receipt(true, state),
        Err(ProtocolError::ServerCheated)
    );
}

#[test]
fn invalid_proof_is_distinguished_from_cheating() {
    let server = Server::new("cat");
    let player = Player { hash: server.get_secret_word_hash() };
    let state = server.check_round("act");
    assert_eq!(
        player.check_receipt(false, state),
        Err(ProtocolError::InvalidProof)
    );
}

#[test]
fn game_exhausts_after_attempt_limit() {
    let mut game = Game::new(ATTEMPT_LIMIT);
    assert_eq!(game.current_phase(), RoundState::Setup);
    game.begin_guessing();
    let mut rounds: usize = 0;
    while game.wants_guess() {
        game.apply_round(false);
        rounds += 1;
        assert!(rounds <= ATTEMPT_LIMIT);
    }
    assert_eq!(rounds, ATTEMPT_LIMIT);
    assert_eq!(game.current_phase(), RoundState::Exhausted);
    // A finished game asks for nothing further.
    game.apply_round(false);
    assert_eq!(game.current_phase(), RoundState::Exhausted);
}

#[test]
fn game_stops_at_a_win() {
    let mut game = Game::new(ATTEMPT_LIMIT);
    game.begin_guessing();
    game.apply_round(false);
    assert_eq!(game.current_phase(), RoundState::Guessing { attempt: 1 });
    game.apply_round(true);
    assert_eq!(game.current_phase(), RoundState::Won);
    assert!(!game.wants_guess());
    game.apply_round(false);
    assert_eq!(game.current_phase(), RoundState::Won);
}

#[test]
fn full_game_ends_in_a_win() {
    // A whole game, driven the way a front end would drive it: setup fixes
    // the commitment, then verified rounds feed the state machine.
    let server = Server::new("cat");
    let player = Player { hash: server.get_secret_word_hash() };
    let mut game = Game::new(ATTEMPT_LIMIT);
    game.begin_guessing();

    let guesses = ["dog", "act", "cat"];
    let mut turn = 0;
    while game.wants_guess() && turn < guesses.len() {
        let state = server.check_round(guesses[turn]);
        let score = player.check_receipt(true, state).expect("honest rounds are accepted");
        game.apply_round(score.game_is_won());
        turn += 1;
    }
    assert_eq!(turn, 3);
    assert_eq!(game.current_phase(), RoundState::Won);
}

#[test]
fn win_on_last_attempt_still_wins() {
    let mut game = Game::new(2);
    game.begin_guessing();
    game.apply_round(false);
    assert_eq!(game.current_phase(), RoundState::Guessing { attempt: 1 });
    game.apply_round(true);
    assert_eq!(game.current_phase(), RoundState::Won);
}
