//! Session key and IV derivation: a hex identity from a name, an IV from
//! the identity's raw digest, and a fresh random key.

use vstd::prelude::*;

use crate::primitives::{
    ascii_str_of, ascii_string, concat_bytes, hex_bytes_of, hex_encode, lemma_hex_bytes_ascii,
    sha1_digest, sha1_of,
};

verus! {

/// Derives the session identity: the lowercase hex encoding of the SHA-1
/// digest of the name followed by the surname.
pub fn generate_id(name: &[u8], surname: &[u8]) -> (id: String)
    ensures
        id@ == ascii_str_of(hex_bytes_of(sha1_of(name@ + surname@))),
        id@.len() == 40,
{
    let full_name = concat_bytes(name, surname);
    let digest = sha1_digest(full_name.as_slice());
    let encoded = hex_encode(digest.as_slice());
    proof {
        lemma_hex_bytes_ascii(sha1_of(name@ + surname@));
    }
    ascii_string(encoded)
}

/// Derives an initialization vector: the first 16 bytes of a digest salt.
///
/// The salt is the raw (non-hex) identity digest; a SHA-1 digest is 20
/// bytes, so the precondition holds for every identity.
pub fn generate_iv(salt: &[u8]) -> (iv: Vec<u8>)
    requires
        salt@.len() >= 16,
    ensures
        iv@ == salt@.subrange(0, 16),
        iv@.len() == 16,
{
    let mut iv: Vec<u8> = Vec::new();
    let mut i: usize = 0;
    while i < 16
        invariant
            i <= 16,
            salt@.len() >= 16,
            iv@ == salt@.subrange(0, i as int),
        decreases 16 - i,
    {
        iv.push(salt[i]);
        proof {
            assert(iv@ =~= salt@.subrange(0, i + 1 as int));
        }
        i = i + 1;
    }
    iv
}

/// Generates a fresh symmetric key of the requested length.
///
/// Relies on rand::thread_rng and rand::Rng::fill: the buffer is filled
/// with cryptographically seeded random bytes; nothing is promised of
/// their values.
#[verifier::external_body]
pub fn generate_key(length: usize) -> (key: Vec<u8>)
    ensures
        key@.len() == length,
{
    let mut bytes = vec![0u8; length];
    rand::Rng::fill(&mut rand::thread_rng(), &mut bytes[..]);
    bytes
}

} // verus!
