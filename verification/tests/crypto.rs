use safecoord::derivation::{generate_id, generate_iv, generate_key};
use safecoord::hashing::{concatenate_and_hash, concatenate_and_hash_multiple, hash_single};
use safecoord::primitives::{decrypt, encrypt, CryptoError};
use block_modes::BlockMode;
use sha1::{Digest, Sha1};

fn test_key() -> Vec<u8> {
    (0u8..16).collect()
}

fn test_iv() -> Vec<u8> {
    (100u8..116).collect()
}

#[test]
fn sha1_known_answer() {
    // SHA-1("abc") = a9993e364706816aba3e25717850c26c9cd0d89d
    let id = generate_id(b"a", b"bc");
    assert_eq!(id, "a9993e364706816aba3e25717850c26c9cd0d89d");
    assert_eq!(id.len(), 40);
}

#[test]
fn sha1_empty_known_answer() {
    // SHA-1("") = da39a3ee5e6b4b0d3255bfef95601890afd80709
    let digest = hash_single(b"");
    assert_eq!(hex::encode(&digest), "da39a3ee5e6b4b0d3255bfef95601890afd80709");
    assert_eq!(digest.len(), 20);
}

#[test]
fn iv_is_digest_prefix() {
    let digest = hash_single(b"AliceSmith");
    let iv = generate_iv(&digest);
    assert_eq!(iv.len(), 16);
    assert_eq!(&iv[..], &digest[..16]);
}

#[test]
fn key_has_requested_length() {
    let key = generate_key(16);
    assert_eq!(key.len(), 16);
    let other = generate_key(16);
    // Two fresh random 16-byte keys coincide with negligible probability.
    assert_ne!(key, other);
}

#[test]
fn encrypt_decrypt_round_trip() {
    let key = test_key();
    let iv = test_iv();
    for message in [
        &b""[..],
        &b"40.7128"[..],
        &b"exactly sixteen!"[..],
        &b"a longer message spanning several cipher blocks, with padding"[..],
    ] {
        let ciphertext = encrypt(message, &key, &iv);
        assert_eq!(ciphertext.len() % 16, 0);
        assert_eq!(ciphertext.len(), message.len() + 16 - message.len() % 16);
        let plaintext = decrypt(&ciphertext, &key, &iv).expect("round trip decrypts");
        assert_eq!(plaintext, message);
    }
}

#[test]
fn encrypt_matches_cipher_crate() {
    let key = test_key();
    let iv = test_iv();
    let message = b"-74.0060";
    let ciphertext = encrypt(message, &key, &iv);
    let cipher = block_modes::Cbc::<aes::Aes128, block_modes::block_padding::Pkcs7>::new_from_slices(
        &key, &iv,
    )
    .unwrap();
    let expected = block_modes::BlockMode::encrypt_vec(cipher, message);
    assert_eq!(ciphertext, expected);
}

#[test]
fn decrypt_then_encrypt_restores_ciphertext() {
    let key = test_key();
    let iv = test_iv();
    for message in [&b""[..], &b"40.7128"[..], &b"exactly sixteen!"[..]] {
        let ciphertext = encrypt(message, &key, &iv);
        let plaintext = decrypt(&ciphertext, &key, &iv).expect("round trip decrypts");
        assert_eq!(encrypt(&plaintext, &key, &iv), ciphertext);
    }
}

#[test]
fn decrypt_rejects_bad_length() {
    let key = test_key();
    let iv = test_iv();
    let garbage = vec![7u8; 15];
    assert_eq!(decrypt(&garbage, &key, &iv), Err(CryptoError::DecryptionFailed));
}

#[test]
fn decrypt_rejects_bad_padding() {
    let key = test_key();
    let iv = test_iv();
    let mut ciphertext = encrypt(b"40.7128", &key, &iv);
    let last = ciphertext.len() - 1;
    ciphertext[last] ^= 0xff;
    assert_eq!(decrypt(&ciphertext, &key, &iv), Err(CryptoError::DecryptionFailed));
}

#[test]
fn concat_hash_matches_sha1() {
    let hash = concatenate_and_hash(b"40.7128", b"-74.0060");
    let expected = hex::encode(Sha1::digest(b"40.7128-74.0060"));
    assert_eq!(hash, expected);
    assert_eq!(hash.len(), 40);
}

#[test]
fn concat_hash_is_order_sensitive() {
    let ab = concatenate_and_hash(b"40.7128", b"-74.0060");
    let ba = concatenate_and_hash(b"-74.0060", b"40.7128");
    assert_ne!(ab, ba);
}

#[test]
fn iterated_hash_zero_rounds_equals_concat_hash() {
    let plain = concatenate_and_hash(b"40.7128", b"-74.0060");
    let iterated = concatenate_and_hash_multiple(b"40.7128", b"-74.0060", 0);
    assert_eq!(iterated, plain);
}

#[test]
fn iterated_hash_two_is_one_extra_round() {
    let iterated = concatenate_and_hash_multiple(b"40.7128", b"-74.0060", 2);
    let h0 = Sha1::digest(b"40.7128-74.0060");
    let h1 = Sha1::digest(&h0);
    assert_eq!(iterated, hex::encode(h1));
}

#[test]
fn iterated_hash_six_is_three_rounds() {
    let iterated = concatenate_and_hash_multiple(b"a", b"b", 6);
    let mut digest = Sha1::digest(b"ab");
    for _ in 0..3 {
        digest = Sha1::digest(&digest);
    }
    assert_eq!(iterated, hex::encode(digest));
}
