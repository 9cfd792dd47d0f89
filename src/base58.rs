use vstd::prelude::*;
use crate::text::holds_char;

verus! {

/// The base58 text of a byte string, as the `bs58` crate writes it.
pub uninterp spec fn base58_text(b: Seq<u8>) -> Seq<char>;

/// The bytes that a text denotes in base58, or `None` where the text is not
/// base58, as the `bs58` crate reads it.
pub uninterp spec fn base58_bytes(s: Seq<char>) -> Option<Seq<u8>>;

/// The contents of an optional byte vector.
pub open spec fn bytes_of(r: Option<Vec<u8>>) -> Option<Seq<u8>> {
    match r {
        Some(v) => Some(v@),
        None => None,
    }
}

/// Relies on `bs58::encode(..).into_string()`: the text depends on the bytes
/// alone, it uses only the base58 alphabet (which has no ':'), and
/// `bs58::decode` reads it back as those bytes.
#[verifier::external_body]
pub(crate) fn encode(b: &[u8]) -> (r: String)
    ensures
        r@ == base58_text(b@),
        base58_bytes(r@) == Some(b@),
        !holds_char(r@, ':'),
{
    bs58::encode(b).into_string()
}

/// Relies on `bs58::decode(..).into_vec()`: the result depends on the text
/// alone, and any character outside the base58 alphabet (such as ':') makes
/// it fail.
#[verifier::external_body]
pub(crate) fn decode(s: &str) -> (r: Option<Vec<u8>>)
    ensures
        bytes_of(r) == base58_bytes(s@),
        r is Some ==> !holds_char(s@, ':'),
{
    match bs58::decode(s).into_vec() {
        Ok(v) => Some(v),
        Err(_) => None,
    }
}

} // verus!
