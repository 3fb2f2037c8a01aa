//! The round protocol: the provable program the server runs each round, the
//! player's verification gate, and the state machine that enforces the
//! attempt limit.

use vstd::prelude::*;

verus! {

use crate::WORD_LENGTH;
use crate::commitment::{Digest, commit_word, digest_of};
use crate::feedback::{WordFeedback, compute_feedback, word_feedback_spec};
use crate::wordlist::{is_valid_word, lemma_valid_word_bytes, sentinel_guess};
use vstd::string::StringSliceAdditionalSpecFns;

/// The public output one proof attests to: the commitment digest of the
/// secret used that round, and the feedback for the guess. Nothing else —
/// neither the secret nor the guess — leaves the proof.
#[derive(Clone, Debug, PartialEq, Eq)]
pub struct GameState {
    /// Digest of the secret word the round was answered about.
    pub correct_word_hash: Digest,
    /// Per-letter feedback for the round's guess.
    pub feedback: WordFeedback,
}

/// The party that holds the secret word. It never reveals the word; it only
/// answers rounds, each answer carrying the word's commitment digest.
pub struct Server<'a> {
    secret_word: &'a str,
}

impl<'a> Server<'a> {
    /// The bytes of the held secret. Closed: the letters themselves stay
    /// inside the server.
    pub closed spec fn secret_bytes(&self) -> Seq<u8> {
        self.secret_word.spec_bytes()
    }

    /// The letters of the held secret. Closed, like the bytes.
    pub closed spec fn secret_chars(&self) -> Seq<char> {
        self.secret_word@
    }

    /// A server is well formed when its secret has the fixed word length,
    /// counted in letters and in bytes alike — an ASCII word.
    pub open spec fn wf(&self) -> bool {
        &&& self.secret_chars().len() == WORD_LENGTH
        &&& self.secret_bytes().len() == WORD_LENGTH
    }

    pub fn new(secret_word: &'a str) -> (r: Self)
        requires
            is_valid_word(secret_word@),
        ensures
            r.secret_chars() == secret_word@,
            r.secret_bytes() == secret_word.spec_bytes(),
            r.wf(),
    {
        proof {
            lemma_valid_word_bytes(secret_word);
        }
        Server { secret_word }
    }

    /// One round of the provable program: the computation every proof
    /// attests to. From the held secret and one guess it produces the public
    /// game state — the digest of the secret, recomputed fresh this round,
    /// and the feedback for the guess. The guess must measure `WORD_LENGTH`
    /// in letters and in bytes alike; on anything else the program owes no
    /// round at all.
    pub fn check_round(&self, guess_word: &str) -> (r: GameState)
        requires
            self.wf(),
            guess_word@.len() == WORD_LENGTH,
            guess_word.spec_bytes().len() == WORD_LENGTH,
        ensures
            r.correct_word_hash@ == digest_of(self.secret_bytes()),
            r.feedback.0@ == word_feedback_spec(self.secret_bytes(), guess_word.spec_bytes()),
    {
        let feedback = compute_feedback(self.secret_word, guess_word);
        let correct_word_hash = commit_word(self.secret_word);
        GameState { correct_word_hash, feedback }
    }

    /// The setup round: run the program once on the sentinel guess, purely
    /// to learn the commitment digest; the feedback of this round means
    /// nothing and is dropped.
    pub fn get_secret_word_hash(&self) -> (r: Digest)
        requires
            self.wf(),
        ensures
            r@ == digest_of(self.secret_bytes()),
    {
        let state = self.check_round(sentinel_guess());
        state.correct_word_hash
    }
}

/// The two fatal, distinguishable ways a round can fail at the player's
/// verification gate.
#[derive(Clone, Copy, Debug, PartialEq, Eq, Structural)]
pub enum ProtocolError {
    /// The proof itself does not check out: it is corrupted or forged, and
    /// its claimed output cannot be trusted at all.
    InvalidProof,
    /// The proof is valid but commits to a different secret than the one
    /// fixed at setup: the server cheated.
    ServerCheated,
}

/// The party that guesses. It holds only the commitment digest recorded at
/// setup, never the secret.
pub struct Player {
    /// The digest fixed at setup, the single source of truth every round's
    /// claimed digest is compared against.
    pub hash: Digest,
}

impl Player {
    /// The verification gate. `proof_is_valid` is the verdict of the proof
    /// engine on the round's proof against the agreed program identity;
    /// `claimed` is the public output that proof carries. Feedback is
    /// released only when the proof checks out and its digest equals the
    /// one committed at setup; otherwise the round fails with the
    /// distinguishing error and no game outcome is reported.
    pub fn check_receipt(&self, proof_is_valid: bool, claimed: GameState) -> (r: Result<
        WordFeedback,
        ProtocolError,
    >)
        ensures
            !proof_is_valid ==> r == Result::<WordFeedback, ProtocolError>::Err(
                ProtocolError::InvalidProof,
            ),
            proof_is_valid && claimed.correct_word_hash@ != self.hash@ ==> r == Result::<
                WordFeedback,
                ProtocolError,
            >::Err(ProtocolError::ServerCheated),
            proof_is_valid && claimed.correct_word_hash@ == self.hash@ ==> r == Result::<
                WordFeedback,
                ProtocolError,
            >::Ok(claimed.feedback),
    {
        if !proof_is_valid {
            return Err(ProtocolError::InvalidProof);
        }
        if !claimed.correct_word_hash.equals(&self.hash) {
            return Err(ProtocolError::ServerCheated);
        }
        Ok(claimed.feedback)
    }
}

/// The phase a game is in.
#[derive(Clone, Copy, Debug, PartialEq, Eq, Structural)]
pub enum RoundState {
    /// The commitment digest has not been recorded yet.
    Setup,
    /// `attempt` guess rounds have been answered without a win.
    Guessing { attempt: usize },
    /// A round's feedback was all exact matches.
    Won,
    /// The attempt limit was reached without a win.
    Exhausted,
}

/// Where one guess round takes the protocol: a win ends the game, the last
/// allowed attempt without a win exhausts it, anything else moves to the
/// next attempt. Terminal phases, and the setup phase, do not move.
pub open spec fn protocol_step(state: RoundState, limit: usize, won: bool) -> RoundState {
    match state {
        RoundState::Guessing { attempt } => if won {
            RoundState::Won
        } else if attempt + 1 >= limit {
            RoundState::Exhausted
        } else {
            RoundState::Guessing { attempt: (attempt + 1) as usize }
        },
        _ => state,
    }
}

/// Where a whole sequence of guess rounds takes the protocol.
pub open spec fn protocol_run(state: RoundState, limit: usize, outcomes: Seq<bool>) -> RoundState
    decreases outcomes.len(),
{
    if outcomes.len() == 0 {
        state
    } else {
        protocol_run(
            protocol_step(state, limit, outcomes[0]),
            limit,
            outcomes.subrange(1, outcomes.len() as int),
        )
    }
}

/// One game's protocol state: the attempt limit fixed at construction, and
/// the current phase.
pub struct Game {
    attempt_limit: usize,
    state: RoundState,
}

impl Game {
    /// The attempt limit this game was constructed with.
    pub closed spec fn limit(&self) -> usize {
        self.attempt_limit
    }

    /// The phase this game is in.
    pub closed spec fn phase(&self) -> RoundState {
        self.state
    }

    /// A game never stands in a guessing phase at or past its limit.
    pub open spec fn wf(&self) -> bool {
        &&& 1 <= self.limit()
        &&& match self.phase() {
            RoundState::Guessing { attempt } => attempt < self.limit(),
            _ => true,
        }
    }

    pub fn new(attempt_limit: usize) -> (g: Game)
        requires
            1 <= attempt_limit,
        ensures
            g.limit() == attempt_limit,
            g.phase() == RoundState::Setup,
            g.wf(),
    {
        Game { attempt_limit, state: RoundState::Setup }
    }

    /// Leave setup once the commitment digest is recorded: guessing starts
    /// at attempt zero.
    pub fn begin_guessing(&mut self)
        requires
            old(self).wf(),
            old(self).phase() == RoundState::Setup,
        ensures
            final(self).limit() == old(self).limit(),
            final(self).phase() == (RoundState::Guessing { attempt: 0 }),
            final(self).wf(),
    {
        self.state = RoundState::Guessing { attempt: 0 };
    }

    /// Consume one verified round's outcome: `won` says whether its feedback
    /// was all exact matches. A game that is not in a guessing phase —
    /// finished, or still in setup — is left exactly as it stands.
    pub fn apply_round(&mut self, won: bool)
        requires
            old(self).wf(),
        ensures
            final(self).limit() == old(self).limit(),
            final(self).phase() == protocol_step(old(self).phase(), old(self).limit(), won),
            final(self).wf(),
    {
        match self.state {
            RoundState::Guessing { attempt } => {
                if won {
                    self.state = RoundState::Won;
                } else if attempt + 1 >= self.attempt_limit {
                    self.state = RoundState::Exhausted;
                } else {
                    self.state = RoundState::Guessing { attempt: attempt + 1 };
                }
            },
            _ => {},
        }
    }

    /// The game asks for another guess only while it is in a guessing phase.
    pub fn wants_guess(&self) -> (r: bool)
        ensures
            r == (self.phase() is Guessing),
    {
        matches!(self.state, RoundState::Guessing { .. })
    }

    pub fn current_phase(&self) -> (r: RoundState)
        ensures
            r == self.phase(),
    {
        self.state
    }
}

/// A game that has ended stays ended, whatever rounds are thrown at it.
pub proof fn lemma_terminal_absorbing(state: RoundState, limit: usize, outcomes: Seq<bool>)
    requires
        state == RoundState::Won || state == RoundState::Exhausted,
    ensures
        protocol_run(state, limit, outcomes) == state,
    decreases outcomes.len(),
{
    if outcomes.len() > 0 {
        lemma_terminal_absorbing(state, limit, outcomes.subrange(1, outcomes.len() as int));
    }
}

/// From attempt `attempt`, enough rounds without a win exhaust the game.
proof fn lemma_no_win_exhausts_from(
    attempt: usize,
    limit: usize,
    outcomes: Seq<bool>,
)
    requires
        attempt < limit,
        outcomes.len() >= limit - attempt,
        forall|i: int| 0 <= i < outcomes.len() ==> !outcomes[i],
    ensures
        protocol_run(RoundState::Guessing { attempt }, limit, outcomes) == RoundState::Exhausted,
    decreases outcomes.len(),
{
    let rest = outcomes.subrange(1, outcomes.len() as int);
    assert(!outcomes[0]);
    if attempt + 1 >= limit {
        lemma_terminal_absorbing(RoundState::Exhausted, limit, rest);
    } else {
        lemma_no_win_exhausts_from((attempt + 1) as usize, limit, rest);
    }
}

/// The round protocol never runs past its attempt limit: a game that starts
/// guessing and sees `limit` rounds, none of them a win, stands at
/// `Exhausted` — it asks for no further round.
pub proof fn lemma_attempt_limit_exhausts(limit: usize, outcomes: Seq<bool>)
    requires
        1 <= limit,
        outcomes.len() >= limit,
        forall|i: int| 0 <= i < outcomes.len() ==> !outcomes[i],
    ensures
        protocol_run(RoundState::Guessing { attempt: 0 }, limit, outcomes)
            == RoundState::Exhausted,
{
    lemma_no_win_exhausts_from(0, limit, outcomes);
}

} // verus!
