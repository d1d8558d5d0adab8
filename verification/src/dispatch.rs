//! Scheme dispatch: the three protocol variants, selection from a method
//! identifier, and the generation entry point of each method.

use vstd::prelude::*;

use crate::hashing::{
    concat_hash_bytes, concat_hash_spec, iter_hash_bytes, iter_hash_spec,
};
use crate::mac::{generate_mac, mac_str_spec};
use crate::primitives::{ascii_str_of, ascii_string, lemma_hex_bytes_ascii, sha1_of};

verus! {

/// The three authentication protocols.
#[derive(Clone, Copy, Debug, PartialEq, Eq, Structural)]
pub enum Method {
    Direct,
    Concatenated,
    IteratedConcatenated,
}

/// The method a selector byte string names: `"1"`, `"2"` or `"3"`;
/// anything else names none.
pub open spec fn method_of(choice: Seq<u8>) -> Option<Method> {
    if choice == seq![49u8] {
        Some(Method::Direct)
    } else if choice == seq![50u8] {
        Some(Method::Concatenated)
    } else if choice == seq![51u8] {
        Some(Method::IteratedConcatenated)
    } else {
        None
    }
}

/// Selects a protocol from a method selector. An unrecognized selector
/// yields `None`: the operation is declined and nothing cryptographic
/// happens.
pub fn select_method(choice: &[u8]) -> (method: Option<Method>)
    ensures
        method == method_of(choice@),
{
    if choice.len() == 1 {
        let c = choice[0];
        proof {
            assert(choice@ =~= seq![choice@[0]]);
        }
        if c == 49 {
            Some(Method::Direct)
        } else if c == 50 {
            Some(Method::Concatenated)
        } else if c == 51 {
            Some(Method::IteratedConcatenated)
        } else {
            None
        }
    } else {
        None
    }
}

/// Method 1 (direct): one tag per coordinate, each over the coordinate
/// itself, so that direct verification against the coordinate's own
/// ciphertext accepts the tag it generated.
pub fn method1(key: &[u8], iv: &[u8], latitude: &[u8], longitude: &[u8]) -> (macs: (
    String,
    String,
))
    requires
        key@.len() == 16,
        iv@.len() == 16,
    ensures
        macs.0@ == mac_str_spec(key@, iv@, latitude@),
        macs.1@ == mac_str_spec(key@, iv@, longitude@),
{
    let mac1 = generate_mac(key, iv, latitude);
    let mac2 = generate_mac(key, iv, longitude);
    (mac1, mac2)
}

/// Method 2 (concatenated): the hex digest of both coordinates
/// concatenated, and one tag over that digest's bytes.
pub fn method2(key: &[u8], iv: &[u8], latitude: &[u8], longitude: &[u8]) -> (out: (String, String))
    requires
        key@.len() == 16,
        iv@.len() == 16,
    ensures
        out.0@ == ascii_str_of(concat_hash_spec(latitude@, longitude@)),
        out.1@ == mac_str_spec(key@, iv@, concat_hash_spec(latitude@, longitude@)),
{
    let hash_bytes = concat_hash_bytes(latitude, longitude);
    let mac = generate_mac(key, iv, hash_bytes.as_slice());
    proof {
        lemma_hex_bytes_ascii(sha1_of(latitude@ + longitude@));
    }
    let hash = ascii_string(hash_bytes);
    (hash, mac)
}

/// Method 3 (iterated concatenated): like method 2 but with the iterated
/// hash under the caller's iteration count, which must be carried to
/// verification unchanged.
pub fn method3(
    key: &[u8],
    iv: &[u8],
    latitude: &[u8],
    longitude: &[u8],
    iteration: u8,
) -> (out: (String, String))
    requires
        key@.len() == 16,
        iv@.len() == 16,
        iteration % 2 == 0,
    ensures
        out.0@ == ascii_str_of(iter_hash_spec(latitude@, longitude@, (iteration / 2) as nat)),
        out.1@ == mac_str_spec(
            key@,
            iv@,
            iter_hash_spec(latitude@, longitude@, (iteration / 2) as nat),
        ),
{
    let hash_bytes = iter_hash_bytes(latitude, longitude, iteration);
    let mac = generate_mac(key, iv, hash_bytes.as_slice());
    proof {
        lemma_hex_bytes_ascii(
            crate::hashing::iter_sha1(sha1_of(latitude@ + longitude@), (iteration / 2) as nat),
        );
    }
    let hash = ascii_string(hash_bytes);
    (hash, mac)
}

} // verus!
