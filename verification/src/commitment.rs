//! The commitment scheme: a fixed-width digest binds every round of a game
//! to one secret word without revealing it.

use vstd::prelude::*;

verus! {

use vstd::string::StringSliceAdditionalSpecFns;

/// Width of a commitment digest in bytes.
pub const DIGEST_BYTES: usize = 32;

/// A fixed-width cryptographic digest of a secret word. Compared by value:
/// two rounds answer about the same secret exactly when their digests agree.
#[derive(Clone, Copy, Debug, PartialEq, Eq)]
pub struct Digest(pub [u8; DIGEST_BYTES]);

impl View for Digest {
    type V = Seq<u8>;

    open spec fn view(&self) -> Seq<u8> {
        self.0@
    }
}

impl Digest {
    /// Value comparison of two digests, byte by byte.
    pub fn equals(&self, other: &Digest) -> (r: bool)
        ensures
            r == (self@ == other@),
    {
        let mut i: usize = 0;
        while i < DIGEST_BYTES
            invariant
                i <= DIGEST_BYTES,
                self@.len() == DIGEST_BYTES,
                other@.len() == DIGEST_BYTES,
                forall|j: int| 0 <= j < i ==> self@[j] == other@[j],
            decreases DIGEST_BYTES - i,
        {
            if self.0[i] != other.0[i] {
                return false;
            }
            i += 1;
        }
        proof {
            assert(self@ =~= other@);
        }
        true
    }
}

/// The digest the commitment scheme assigns to a byte string. It is a
/// function of the bytes alone, so the digests of two rounds run against the
/// same secret are equal whatever the guesses were.
pub uninterp spec fn digest_of(bytes: Seq<u8>) -> Seq<u8>;

/// Relies on `risc0_zkvm::sha::Impl::hash_bytes`: the SHA-256 digest of the
/// input (FIPS 180-4), 32 bytes, a function of the input bytes alone.
#[verifier::external_body]
fn sha256_digest(bytes: &[u8]) -> (r: Digest)
    ensures
        r@ == digest_of(bytes@),
{
    let d = <risc0_zkvm::sha::Impl as risc0_zkvm::sha::Sha256>::hash_bytes(bytes);
    let mut out = [0u8; DIGEST_BYTES];
    out.copy_from_slice(d.as_bytes());
    Digest(out)
}

/// Commit to a word: the digest of its bytes.
pub fn commit_word(word: &str) -> (r: Digest)
    ensures
        r@ == digest_of(word.spec_bytes()),
{
    sha256_digest(word.as_bytes())
}

/// Commitment stability: two digests derived from the same secret are equal,
/// regardless of which guesses the rounds that produced them answered.
pub proof fn lemma_commitment_stable(secret: Seq<u8>, h1: Seq<u8>, h2: Seq<u8>)
    requires
        h1 == digest_of(secret),
        h2 == digest_of(secret),
    ensures
        h1 == h2,
{
}

} // verus!
