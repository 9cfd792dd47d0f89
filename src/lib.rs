use vstd::prelude::*;
use crate::encoded::{encoded_result, parse_key, EncodedVerKey};
use crate::error::ConversionError;
use crate::types::{AlgTag, EncTag};

pub mod base58;
pub mod encoded;
pub mod error;
pub mod laws;
pub mod signkey;
mod signer;
pub mod text;
pub mod types;
mod utf8;
pub mod verkey;
mod wipe;

verus! {

/// The full key for a short-form (or long-form) key relative to a
/// destination, with the default algorithm and encoding.
pub fn build_full_verkey(dest: &str, key: &str) -> (r: Result<EncodedVerKey, ConversionError>)
    ensures
        encoded_result(r) == parse_key(key@, Some(dest@), AlgTag::Ed25519, EncTag::Base58),
{
    EncodedVerKey::from_str_qualified(key, Some(dest), None, None)
}

} // verus!
