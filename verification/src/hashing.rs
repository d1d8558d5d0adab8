//! Hashing combinators: a single-message digest, a hash of two messages
//! concatenated, and an iterated hash of that concatenation.

use vstd::prelude::*;

use crate::primitives::{
    ascii_str_of, ascii_string, concat_bytes, hex_bytes_of, hex_encode, lemma_hex_bytes_ascii,
    sha1_digest, sha1_of,
};

verus! {

/// The digest after `rounds` further SHA-1 applications to `h`.
pub open spec fn iter_sha1(h: Seq<u8>, rounds: nat) -> Seq<u8>
    decreases rounds,
{
    if rounds == 0 {
        h
    } else {
        sha1_of(iter_sha1(h, (rounds - 1) as nat))
    }
}

/// The hex-encoded SHA-1 digest of `a` followed by `b`, no delimiter.
pub open spec fn concat_hash_spec(a: Seq<u8>, b: Seq<u8>) -> Seq<u8> {
    hex_bytes_of(sha1_of(a + b))
}

/// The hex encoding of the digest of `a ++ b` after `rounds` further
/// SHA-1 applications.
pub open spec fn iter_hash_spec(a: Seq<u8>, b: Seq<u8>, rounds: nat) -> Seq<u8> {
    hex_bytes_of(iter_sha1(sha1_of(a + b), rounds))
}

/// SHA-1 of a single message: the raw 20-byte digest.
pub fn hash_single(message: &[u8]) -> (digest: Vec<u8>)
    ensures
        digest@ == sha1_of(message@),
        digest@.len() == 20,
{
    sha1_digest(message)
}

/// The hex digest of two messages concatenated, as ASCII bytes.
pub(crate) fn concat_hash_bytes(message1: &[u8], message2: &[u8]) -> (hash: Vec<u8>)
    ensures
        hash@ == concat_hash_spec(message1@, message2@),
        hash@.len() == 40,
{
    let concatenated = concat_bytes(message1, message2);
    let digest = sha1_digest(concatenated.as_slice());
    hex_encode(digest.as_slice())
}

/// Hashes the concatenation of two messages: SHA-1 of `message1` followed
/// by `message2` (no delimiter), hex-encoded.
pub fn concatenate_and_hash(message1: &[u8], message2: &[u8]) -> (hash: String)
    ensures
        hash@ == ascii_str_of(concat_hash_spec(message1@, message2@)),
        hash@.len() == 40,
{
    let bytes = concat_hash_bytes(message1, message2);
    proof {
        lemma_hex_bytes_ascii(sha1_of(message1@ + message2@));
    }
    ascii_string(bytes)
}

/// The iterated hex digest as ASCII bytes; the counter falls by 2 per
/// round, so an even `iteration` yields `iteration / 2` extra rounds.
pub(crate) fn iter_hash_bytes(message1: &[u8], message2: &[u8], iteration: u8) -> (hash: Vec<u8>)
    requires
        iteration % 2 == 0,
    ensures
        hash@ == iter_hash_spec(message1@, message2@, (iteration / 2) as nat),
        hash@.len() == 40,
{
    let concatenated = concat_bytes(message1, message2);
    let ghost h0 = sha1_of(message1@ + message2@);
    let mut hash = sha1_digest(concatenated.as_slice());
    let ghost rounds: nat = 0;
    let mut i: u8 = iteration;
    while i > 0
        invariant
            i % 2 == 0,
            i <= iteration,
            2 * rounds == iteration - i,
            hash@ == iter_sha1(h0, rounds),
            hash@.len() == 20,
        decreases i,
    {
        hash = sha1_digest(hash.as_slice());
        proof {
            rounds = rounds + 1;
        }
        i = i - 2;
    }
    proof {
        assert(rounds == (iteration / 2) as nat);
    }
    hex_encode(hash.as_slice())
}

/// Hashes the concatenation of two messages, then re-hashes the digest
/// while a counter starting at `iteration` stays above zero, falling by 2
/// per round; the result is hex-encoded.
///
/// The counter is an 8-bit value whose decrement wraps on underflow, so an
/// odd starting value never reaches zero and the computation would not
/// terminate; odd counts are therefore excluded.
pub fn concatenate_and_hash_multiple(message1: &[u8], message2: &[u8], iteration: u8) -> (hash:
    String)
    requires
        iteration % 2 == 0,
    ensures
        hash@ == ascii_str_of(iter_hash_spec(message1@, message2@, (iteration / 2) as nat)),
        hash@.len() == 40,
{
    let bytes = iter_hash_bytes(message1, message2, iteration);
    proof {
        lemma_hex_bytes_ascii(iter_sha1(sha1_of(message1@ + message2@), (iteration / 2) as nat));
    }
    ascii_string(bytes)
}

/// An iteration count of zero performs no extra hashing round, so the
/// iterated hash equals the plain concatenated hash; a count of two
/// performs exactly one extra SHA-1 round on the digest.
pub proof fn lemma_iteration_rounds(a: Seq<u8>, b: Seq<u8>)
    ensures
        iter_hash_spec(a, b, 0) == concat_hash_spec(a, b),
        iter_hash_spec(a, b, 1) == hex_bytes_of(sha1_of(sha1_of(a + b))),
{
    assert(iter_sha1(sha1_of(a + b), 1) == sha1_of(iter_sha1(sha1_of(a + b), 0)));
}

} // verus!
