//! Cryptographic primitives: SHA-1 hashing, AES-128-CBC encryption with
//! PKCS#7 padding, and lowercase hex encoding, together with the spec-level
//! names their results are stated over.

use block_modes::BlockMode;
use sha1::Digest;
use vstd::prelude::*;

verus! {

/// The one recoverable failure of the cryptographic layer: a ciphertext
/// whose length is not a multiple of the block size, or whose padding is
/// malformed after decryption.
#[derive(Clone, Copy, Debug, PartialEq, Eq, Structural)]
pub enum CryptoError {
    DecryptionFailed,
}

/// The SHA-1 digest of a byte string; a function of the message alone.
pub uninterp spec fn sha1_of(message: Seq<u8>) -> Seq<u8>;

/// The AES-128-CBC/PKCS#7 encryption of a byte string under a 16-byte key
/// and 16-byte IV; a function of its three arguments alone.
pub uninterp spec fn aes_cbc_enc(data: Seq<u8>, key: Seq<u8>, iv: Seq<u8>) -> Seq<u8>;

/// The AES-128-CBC/PKCS#7 decryption of a ciphertext: `Some(plaintext)`
/// when the length is a block multiple and the padding is well-formed
/// after decryption, `None` otherwise.
pub uninterp spec fn aes_cbc_dec(ciphertext: Seq<u8>, key: Seq<u8>, iv: Seq<u8>) -> Option<
    Seq<u8>,
>;

/// The lowercase hex digit (as an ASCII byte) for a nibble.
pub open spec fn hex_digit(nibble: u8) -> u8 {
    if nibble < 10 {
        (48 + nibble) as u8
    } else {
        (87 + nibble) as u8
    }
}

/// Lowercase hex encoding as ASCII bytes: two digits per input byte, high
/// nibble first.
pub open spec fn hex_bytes_of(s: Seq<u8>) -> Seq<u8> {
    Seq::new(
        2 * s.len(),
        |i: int|
            if i % 2 == 0 {
                hex_digit(s[i / 2] >> 4)
            } else {
                hex_digit(s[i / 2] & 0x0f)
            },
    )
}

/// The character string read off a sequence of ASCII bytes.
pub open spec fn ascii_str_of(s: Seq<u8>) -> Seq<char> {
    Seq::new(s.len(), |i: int| s[i] as char)
}

/// A hex encoding is twice as long as its input and consists of ASCII
/// bytes only.
pub proof fn lemma_hex_bytes_ascii(s: Seq<u8>)
    ensures
        hex_bytes_of(s).len() == 2 * s.len(),
        forall|i: int| 0 <= i < hex_bytes_of(s).len() ==> hex_bytes_of(s)[i] < 128,
{
    assert forall|i: int| 0 <= i < hex_bytes_of(s).len() implies hex_bytes_of(s)[i] < 128 by {
        let b = s[i / 2];
        assert(b >> 4 < 16) by (bit_vector);
        assert(b & 0x0f < 16) by (bit_vector);
    }
}

/// Relies on sha1::Sha1 through the Digest interface: a 20-byte digest
/// determined by the message bytes alone.
#[verifier::external_body]
pub(crate) fn sha1_digest(message: &[u8]) -> (digest: Vec<u8>)
    ensures
        digest@ == sha1_of(message@),
        digest@.len() == 20,
{
    let mut hasher = sha1::Sha1::new();
    hasher.update(message);
    hasher.finalize().to_vec()
}

/// Relies on hex::encode: lowercase hex, two digits per byte, high nibble
/// first.
#[verifier::external_body]
pub(crate) fn hex_encode(data: &[u8]) -> (encoded: Vec<u8>)
    ensures
        encoded@ == hex_bytes_of(data@),
{
    hex::encode(data).into_bytes()
}

/// Relies on String::from_utf8: bytes below 128 are valid UTF-8 and decode
/// to one character per byte.
#[verifier::external_body]
pub(crate) fn ascii_string(bytes: Vec<u8>) -> (s: String)
    requires
        forall|i: int| 0 <= i < bytes@.len() ==> bytes@[i] < 128,
    ensures
        s@ == ascii_str_of(bytes@),
{
    String::from_utf8(bytes).expect("ascii bytes are valid utf-8")
}

/// Encrypts a byte string under AES-128-CBC with PKCS#7 padding.
///
/// Relies on block_modes::BlockMode::encrypt_vec with Cbc<Aes128, Pkcs7>:
/// the ciphertext is a function of (data, key, iv); its length is the data
/// length padded up to the next multiple of 16; decrypt_vec inverts it
/// under the same key and IV.
#[verifier::external_body]
pub fn encrypt(data: &[u8], key: &[u8], iv: &[u8]) -> (ciphertext: Vec<u8>)
    requires
        key@.len() == 16,
        iv@.len() == 16,
        data@.len() + 16 <= usize::MAX,
    ensures
        ciphertext@ == aes_cbc_enc(data@, key@, iv@),
        ciphertext@.len() == data@.len() + 16 - (data@.len() % 16),
        aes_cbc_dec(ciphertext@, key@, iv@) == Some(data@),
{
    let cipher = block_modes::Cbc::<aes::Aes128, block_modes::block_padding::Pkcs7>::new_from_slices(
        key,
        iv,
    ).expect("key and iv are 16 bytes");
    block_modes::BlockMode::encrypt_vec(cipher, data)
}

/// Decrypts an AES-128-CBC/PKCS#7 ciphertext.
///
/// Relies on block_modes::BlockMode::decrypt_vec with Cbc<Aes128, Pkcs7>:
/// it returns the unpadded plaintext, which is shorter than the
/// ciphertext, or an error when the ciphertext length is not a multiple
/// of 16 or the padding is malformed after decryption.
///
/// When at most one block of padding was stripped — the case of every
/// ciphertext that `encrypt` produces — the padding is canonical, so
/// re-encrypting the plaintext under the same key and IV gives back the
/// ciphertext. (No more is promised: unpadding strips as many bytes as
/// the final byte says, which on a crafted multi-block ciphertext can
/// exceed one block, and re-encryption then yields a shorter ciphertext.)
#[verifier::external_body]
pub fn decrypt(encrypted_data: &[u8], key: &[u8], iv: &[u8]) -> (plaintext: Result<
    Vec<u8>,
    CryptoError,
>)
    requires
        key@.len() == 16,
        iv@.len() == 16,
    ensures
        match plaintext {
            Ok(p) => aes_cbc_dec(encrypted_data@, key@, iv@) == Some(p@) && p@.len()
                <= encrypted_data@.len() && (encrypted_data@.len() <= p@.len() + 16
                ==> aes_cbc_enc(p@, key@, iv@) == encrypted_data@),
            Err(e) => aes_cbc_dec(encrypted_data@, key@, iv@) is None && e
                == CryptoError::DecryptionFailed,
        },
{
    let cipher = block_modes::Cbc::<aes::Aes128, block_modes::block_padding::Pkcs7>::new_from_slices(
        key,
        iv,
    ).expect("key and iv are 16 bytes");
    match block_modes::BlockMode::decrypt_vec(cipher, encrypted_data) {
        Ok(p) => Ok(p),
        Err(_) => Err(CryptoError::DecryptionFailed),
    }
}

/// Concatenates two byte strings.
pub(crate) fn concat_bytes(a: &[u8], b: &[u8]) -> (joined: Vec<u8>)
    ensures
        joined@ == a@ + b@,
{
    let mut joined = vstd::slice::slice_to_vec(a);
    let mut i: usize = 0;
    while i < b.len()
        invariant
            i <= b@.len(),
            joined@ == a@ + b@.subrange(0, i as int),
        decreases b@.len() - i,
    {
        joined.push(b[i]);
        proof {
            assert(joined@ =~= a@ + b@.subrange(0, i + 1 as int));
        }
        i = i + 1;
    }
    proof {
        assert(b@.subrange(0, b@.len() as int) =~= b@);
    }
    joined
}

/// Byte-for-byte comparison of two byte strings.
pub(crate) fn bytes_eq(a: &[u8], b: &[u8]) -> (r: bool)
    ensures
        r == (a@ == b@),
{
    if a.len() != b.len() {
        return false;
    }
    let mut i: usize = 0;
    while i < a.len()
        invariant
            i <= a@.len(),
            a@.len() == b@.len(),
            forall|j: int| 0 <= j < i ==> a@[j] == b@[j],
        decreases a@.len() - i,
    {
        if a[i] != b[i] {
            return false;
        }
        i = i + 1;
    }
    proof {
        assert(a@ =~= b@);
    }
    true
}

} // verus!
