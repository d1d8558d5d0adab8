//! Message-authentication schemes over geographic coordinates.
//!
//! Coordinate strings are encrypted with AES-128 in CBC mode under a
//! session key and an IV derived from a user identity; authentication
//! tags are produced and checked by three protocols: a direct MAC per
//! ciphertext, a MAC over the hash of both coordinates concatenated, and
//! a MAC over an iterated hash of that concatenation.

pub mod derivation;
pub mod dispatch;
pub mod hashing;
pub mod mac;
pub mod primitives;
