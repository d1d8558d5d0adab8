//! MAC generation and the three verification protocols: a tag is the
//! hex-encoded CBC encryption of a message's SHA-1 digest; verification
//! decrypts the ciphertext(s), recomputes the tag and compares.

use vstd::prelude::*;

use crate::hashing::{concat_hash_bytes, concat_hash_spec, iter_hash_bytes, iter_hash_spec};
use crate::primitives::{
    aes_cbc_dec, aes_cbc_enc, ascii_str_of, ascii_string, bytes_eq, decrypt, encrypt,
    hex_bytes_of, hex_encode, lemma_hex_bytes_ascii, sha1_digest, sha1_of, CryptoError,
};

verus! {

/// The authentication tag for a message, as ASCII hex bytes: the
/// hex-encoded AES-128-CBC encryption of the message's SHA-1 digest.
pub open spec fn mac_bytes_spec(key: Seq<u8>, iv: Seq<u8>, message: Seq<u8>) -> Seq<u8> {
    hex_bytes_of(aes_cbc_enc(sha1_of(message), key, iv))
}

/// The authentication tag as a character string.
pub open spec fn mac_str_spec(key: Seq<u8>, iv: Seq<u8>, message: Seq<u8>) -> Seq<char> {
    ascii_str_of(mac_bytes_spec(key, iv, message))
}

/// Whether direct verification accepts: the ciphertext decrypts, and the
/// claimed tag equals the tag of the recovered message.
pub open spec fn verify_direct_accepts(
    key: Seq<u8>,
    iv: Seq<u8>,
    ciphertext: Seq<u8>,
    mac: Seq<u8>,
) -> bool {
    match aes_cbc_dec(ciphertext, key, iv) {
        Some(message) => mac == mac_bytes_spec(key, iv, message),
        None => false,
    }
}

/// Whether concatenated verification accepts: both ciphertexts decrypt,
/// and the claimed tag equals the tag of the hex digest of the recovered
/// coordinates concatenated.
pub open spec fn verify_concat_accepts(
    key: Seq<u8>,
    iv: Seq<u8>,
    ct_latitude: Seq<u8>,
    ct_longitude: Seq<u8>,
    mac: Seq<u8>,
) -> bool {
    match (aes_cbc_dec(ct_latitude, key, iv), aes_cbc_dec(ct_longitude, key, iv)) {
        (Some(latitude), Some(longitude)) => mac == mac_bytes_spec(
            key,
            iv,
            concat_hash_spec(latitude, longitude),
        ),
        _ => false,
    }
}

/// Whether iterated-concatenated verification accepts, for a given number
/// of extra hashing rounds.
pub open spec fn verify_iterated_accepts(
    key: Seq<u8>,
    iv: Seq<u8>,
    ct_latitude: Seq<u8>,
    ct_longitude: Seq<u8>,
    rounds: nat,
    mac: Seq<u8>,
) -> bool {
    match (aes_cbc_dec(ct_latitude, key, iv), aes_cbc_dec(ct_longitude, key, iv)) {
        (Some(latitude), Some(longitude)) => mac == mac_bytes_spec(
            key,
            iv,
            iter_hash_spec(latitude, longitude, rounds),
        ),
        _ => false,
    }
}

/// The authentication tag for a message, as ASCII hex bytes.
pub(crate) fn generate_mac_bytes(key: &[u8], iv: &[u8], message: &[u8]) -> (mac: Vec<u8>)
    requires
        key@.len() == 16,
        iv@.len() == 16,
    ensures
        mac@ == mac_bytes_spec(key@, iv@, message@),
        mac@.len() == 64,
{
    let digest = sha1_digest(message);
    let ciphertext = encrypt(digest.as_slice(), key, iv);
    hex_encode(ciphertext.as_slice())
}

/// Generates the authentication tag for a message: the hex encoding (64
/// characters) of the AES-128-CBC encryption of the message's SHA-1
/// digest. Deterministic in (key, iv, message).
pub fn generate_mac(key: &[u8], iv: &[u8], message: &[u8]) -> (mac: String)
    requires
        key@.len() == 16,
        iv@.len() == 16,
    ensures
        mac@ == mac_str_spec(key@, iv@, message@),
        mac@.len() == 64,
{
    let bytes = generate_mac_bytes(key, iv, message);
    proof {
        lemma_hex_bytes_ascii(aes_cbc_enc(sha1_of(message@), key@, iv@));
    }
    ascii_string(bytes)
}

/// Direct verification: decrypts the ciphertext, recomputes the tag of
/// the recovered message, and compares it byte-for-byte to the claimed
/// tag (given as ASCII hex bytes). Fails only when decryption fails.
pub fn verification_simple(key: &[u8], iv: &[u8], encrypted_message: &[u8], mac: &[u8]) -> (valid:
    Result<bool, CryptoError>)
    requires
        key@.len() == 16,
        iv@.len() == 16,
    ensures
        aes_cbc_dec(encrypted_message@, key@, iv@) is Some ==> valid == Ok::<bool, CryptoError>(
            verify_direct_accepts(key@, iv@, encrypted_message@, mac@),
        ),
        aes_cbc_dec(encrypted_message@, key@, iv@) is None ==> valid == Err::<bool, CryptoError>(
            CryptoError::DecryptionFailed,
        ),
{
    match decrypt(encrypted_message, key, iv) {
        Ok(message) => {
            let computed = generate_mac_bytes(key, iv, message.as_slice());
            Ok(bytes_eq(computed.as_slice(), mac))
        },
        Err(e) => Err(e),
    }
}

/// Concatenated verification: decrypts both coordinates, hashes their
/// concatenation, recomputes the tag over that hex digest, and compares
/// it to the claimed tag. Fails only when a decryption fails.
pub fn verification_concatenate(
    key: &[u8],
    iv: &[u8],
    encrypted_latitude: &[u8],
    encrypted_longitude: &[u8],
    mac: &[u8],
) -> (valid: Result<bool, CryptoError>)
    requires
        key@.len() == 16,
        iv@.len() == 16,
    ensures
        aes_cbc_dec(encrypted_latitude@, key@, iv@) is Some && aes_cbc_dec(
            encrypted_longitude@,
            key@,
            iv@,
        ) is Some ==> valid == Ok::<bool, CryptoError>(
            verify_concat_accepts(key@, iv@, encrypted_latitude@, encrypted_longitude@, mac@),
        ),
        aes_cbc_dec(encrypted_latitude@, key@, iv@) is None || aes_cbc_dec(
            encrypted_longitude@,
            key@,
            iv@,
        ) is None ==> valid == Err::<bool, CryptoError>(CryptoError::DecryptionFailed),
{
    let decrypted_latitude = match decrypt(encrypted_latitude, key, iv) {
        Ok(latitude) => latitude,
        Err(e) => {
            return Err(e);
        },
    };
    let decrypted_longitude = match decrypt(encrypted_longitude, key, iv) {
        Ok(longitude) => longitude,
        Err(e) => {
            return Err(e);
        },
    };
    let message = concat_hash_bytes(decrypted_latitude.as_slice(), decrypted_longitude.as_slice());
    let computed = generate_mac_bytes(key, iv, message.as_slice());
    Ok(bytes_eq(computed.as_slice(), mac))
}

/// Iterated-concatenated verification: like concatenated verification,
/// but with the iterated hash under the supplied iteration count, which
/// must match the count used at generation for the tag to be accepted.
pub fn verification_concatenate_multiple(
    key: &[u8],
    iv: &[u8],
    encrypted_latitude: &[u8],
    encrypted_longitude: &[u8],
    iteration: u8,
    mac: &[u8],
) -> (valid: Result<bool, CryptoError>)
    requires
        key@.len() == 16,
        iv@.len() == 16,
        iteration % 2 == 0,
    ensures
        aes_cbc_dec(encrypted_latitude@, key@, iv@) is Some && aes_cbc_dec(
            encrypted_longitude@,
            key@,
            iv@,
        ) is Some ==> valid == Ok::<bool, CryptoError>(
            verify_iterated_accepts(
                key@,
                iv@,
                encrypted_latitude@,
                encrypted_longitude@,
                (iteration / 2) as nat,
                mac@,
            ),
        ),
        aes_cbc_dec(encrypted_latitude@, key@, iv@) is None || aes_cbc_dec(
            encrypted_longitude@,
            key@,
            iv@,
        ) is None ==> valid == Err::<bool, CryptoError>(CryptoError::DecryptionFailed),
{
    let decrypted_latitude = match decrypt(encrypted_latitude, key, iv) {
        Ok(latitude) => latitude,
        Err(e) => {
            return Err(e);
        },
    };
    let decrypted_longitude = match decrypt(encrypted_longitude, key, iv) {
        Ok(longitude) => longitude,
        Err(e) => {
            return Err(e);
        },
    };
    let message = iter_hash_bytes(
        decrypted_latitude.as_slice(),
        decrypted_longitude.as_slice(),
        iteration,
    );
    let computed = generate_mac_bytes(key, iv, message.as_slice());
    Ok(bytes_eq(computed.as_slice(), mac))
}

/// The tag is a function of (key, iv, message) alone: any two tags
/// generated for the same inputs are identical.
pub proof fn lemma_generate_mac_deterministic(
    key: Seq<u8>,
    iv: Seq<u8>,
    message: Seq<u8>,
    tag1: Seq<u8>,
    tag2: Seq<u8>,
)
    requires
        tag1 == mac_bytes_spec(key, iv, message),
        tag2 == mac_bytes_spec(key, iv, message),
    ensures
        tag1 == tag2,
{
}

/// Verification soundness: a tag generated for a message is accepted by
/// direct verification against a ciphertext that decrypts back to that
/// message. The hypothesis is exactly what the contract of `encrypt`
/// gives for the message's own ciphertext.
pub proof fn lemma_verify_direct_sound(key: Seq<u8>, iv: Seq<u8>, message: Seq<u8>, ciphertext: Seq<u8>)
    requires
        aes_cbc_dec(ciphertext, key, iv) == Some(message),
    ensures
        verify_direct_accepts(key, iv, ciphertext, mac_bytes_spec(key, iv, message)),
{
}

} // verus!
