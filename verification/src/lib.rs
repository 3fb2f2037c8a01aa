//! A verifiable word-guessing game: a server that knows a secret word
//! answers letter-by-letter feedback for a player's guesses, and every
//! answer is bound by a commitment digest to one fixed secret, so a lying
//! server is detected rather than trusted.

use vstd::prelude::*;

pub mod commitment;
pub mod feedback;
pub mod protocol;
pub mod wordlist;

verus! {

/// Number of letters in every secret word and every guess.
pub const WORD_LENGTH: usize = 3;

/// Number of guess rounds a player gets before the game is lost.
pub const ATTEMPT_LIMIT: usize = 6;

} // verus!
