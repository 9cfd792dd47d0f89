use vstd::prelude::*;
use ursa::keys::{PrivateKey, PublicKey};
use ursa::signatures::ed25519::Ed25519Sha512;
use ursa::signatures::SignatureScheme;
use ursa::CryptoError;
use crate::base58::bytes_of;

verus! {

/// The Ed25519 secret key (seed followed by public key) that a seed expands
/// to.
pub uninterp spec fn ed25519_secret_from_seed(seed: Seq<u8>) -> Seq<u8>;

/// The Ed25519 signature of a message under a secret key, or `None` where
/// the secret key is malformed.
pub uninterp spec fn ed25519_signature(secret: Seq<u8>, message: Seq<u8>) -> Option<Seq<u8>>;

/// The verdict on a signature: `Some(true)` where it is valid, `Some(false)`
/// where it is well formed but does not match, `None` where the public key or
/// the signature is malformed.
pub uninterp spec fn ed25519_verdict(public: Seq<u8>, message: Seq<u8>, signature: Seq<u8>) -> Option<bool>;

/// The X25519 secret key derived from an Ed25519 secret key.
pub uninterp spec fn x25519_secret_of(secret: Seq<u8>) -> Seq<u8>;

/// The X25519 public key derived from an Ed25519 public key, or `None` where
/// the key is not a valid curve point.
pub uninterp spec fn x25519_public_of(public: Seq<u8>) -> Option<Seq<u8>>;

/// Relies on ursa's `Ed25519Sha512::keypair(None)`: it always gives a fresh
/// random key pair, whose secret key is the 32-byte seed followed by the
/// public key of that seed, laid out as `expand_keypair` lays it out.
#[verifier::external_body]
pub fn ed25519_generate() -> (r: Option<Vec<u8>>)
    ensures
        r is Some,
        r matches Some(sk) ==> sk@.len() == 64,
        r matches Some(sk) ==> sk@ == ed25519_secret_from_seed(sk@.take(32)),
{
    match Ed25519Sha512::new().keypair(None) {
        Ok((_pk, sk)) => Some(sk.0.clone()),
        Err(_) => None,
    }
}

/// Relies on ursa's `Ed25519Sha512::expand_keypair`: it fails exactly on a
/// seed shorter than 32 bytes, and otherwise keeps the first 32 bytes of the
/// seed as the front of the 64-byte secret key.
#[verifier::external_body]
pub fn ed25519_expand(seed: &[u8]) -> (r: Option<Vec<u8>>)
    ensures
        r is None <==> seed@.len() < 32,
        r matches Some(sk) ==> sk@ == ed25519_secret_from_seed(seed@),
        r matches Some(sk) ==> sk@.len() == 64 && sk@.take(32) == seed@.take(32),
{
    match Ed25519Sha512::expand_keypair(seed) {
        Ok((_pk, sk)) => Some(sk.0.clone()),
        Err(_) => None,
    }
}

/// Relies on ursa's `Ed25519Sha512::sign`: deterministic, failing on a
/// secret key that is not 64 bytes, and giving 64-byte signatures.
#[verifier::external_body]
pub fn ed25519_sign(secret: &[u8], message: &[u8]) -> (r: Option<Vec<u8>>)
    ensures
        bytes_of(r) == ed25519_signature(secret@, message@),
        secret@.len() != 64 ==> r is None,
        r matches Some(sig) ==> sig@.len() == 64,
{
    let sk = PrivateKey(secret.to_vec());
    match Ed25519Sha512::new().sign(message, &sk) {
        Ok(sig) => Some(sig),
        Err(_) => None,
    }
}

/// Relies on ursa's `Ed25519Sha512::verify`: `Ok(true)` for a valid
/// signature, `SigningError` for a well-formed one that does not match, and
/// `ParseError` for a public key that is not 32 bytes or a malformed
/// signature.
#[verifier::external_body]
pub fn ed25519_verify(public: &[u8], message: &[u8], signature: &[u8]) -> (r: Option<bool>)
    ensures
        r == ed25519_verdict(public@, message@, signature@),
        public@.len() != 32 ==> r is None,
{
    let pk = PublicKey(public.to_vec());
    match Ed25519Sha512::new().verify(message, signature, &pk) {
        Ok(valid) => Some(valid),
        Err(CryptoError::SigningError(_)) => Some(false),
        Err(_) => None,
    }
}

/// Relies on ursa's `Ed25519Sha512::sign_key_to_key_exchange`: it fails
/// exactly on a key shorter than 32 bytes, and otherwise gives 32 bytes.
#[verifier::external_body]
pub fn x25519_secret(secret: &[u8]) -> (r: Option<Vec<u8>>)
    ensures
        r is None <==> secret@.len() < 32,
        r matches Some(x) ==> x@ == x25519_secret_of(secret@) && x@.len() == 32,
{
    let sk = PrivateKey(secret.to_vec());
    match Ed25519Sha512::sign_key_to_key_exchange(&sk) {
        Ok(x) => Some(x.0.clone()),
        Err(_) => None,
    }
}

/// Relies on ursa's `Ed25519Sha512::ver_key_to_key_exchange`: it fails on a
/// key that is not 32 bytes, and otherwise gives 32 bytes or fails.
#[verifier::external_body]
pub fn x25519_public(public: &[u8]) -> (r: Option<Vec<u8>>)
    ensures
        bytes_of(r) == x25519_public_of(public@),
        public@.len() != 32 ==> r is None,
        r matches Some(x) ==> x@.len() == 32,
{
    let pk = PublicKey(public.to_vec());
    match Ed25519Sha512::ver_key_to_key_exchange(&pk) {
        Ok(x) => Some(x.0.clone()),
        Err(_) => None,
    }
}

} // verus!
