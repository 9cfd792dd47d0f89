use vstd::prelude::*;
use vstd::slice::slice_to_vec;
use crate::encoded::alg_or_default;
use crate::error::ConversionError;
use crate::signer::{self, ed25519_secret_from_seed, ed25519_signature, x25519_secret_of};
use crate::text::same_bytes;
use crate::types::{AlgTag, KeyType};
use crate::verkey::{VerKey, PUBLIC_KEY_LEN};
use crate::wipe::{empty_text, wipe_bytes};

verus! {

/// The outcome of signing a message with a key of an algorithm.
pub open spec fn sign_outcome(alg: AlgTag, secret: Seq<u8>, message: Seq<u8>) -> Result<Seq<u8>, ConversionError> {
    match alg {
        AlgTag::Ed25519 => match ed25519_signature(secret, message) {
            Some(s) => Ok(s),
            None => Err(ConversionError::SigningFailed),
        },
        _ => Err(ConversionError::UnsupportedAlgorithm),
    }
}

/// A raw signing (secret) key and its algorithm. For Ed25519 the bytes are
/// the 32-byte seed followed by the 32-byte public key.
#[derive(Clone, Debug)]
pub struct SignKey {
    pub key: Vec<u8>,
    pub alg: KeyType,
}

pub open spec fn signkey_result(r: Result<SignKey, ConversionError>) -> Result<(Seq<u8>, AlgTag), ConversionError> {
    match r {
        Ok(k) => Ok((k.key@, k.alg@)),
        Err(e) => Err(e),
    }
}

impl SignKey {
    pub fn new(key: &[u8], alg: Option<KeyType>) -> (r: Self)
        ensures
            r.key@ == key@,
            r.alg@ == alg_or_default(alg),
    {
        let alg = match alg {
            Some(a) => a,
            None => KeyType::ED25519,
        };
        SignKey { key: slice_to_vec(key), alg }
    }

    /// A fresh random key of an algorithm (Ed25519 by default, the only one
    /// supported).
    pub fn generate(alg: Option<KeyType>) -> (r: Result<Self, ConversionError>)
        ensures
            alg_or_default(alg) != AlgTag::Ed25519 ==> r == Err::<Self, ConversionError>(
                ConversionError::UnsupportedAlgorithm,
            ),
            alg_or_default(alg) == AlgTag::Ed25519 ==> match r {
                Ok(k) => k.alg@ == AlgTag::Ed25519 && k.key@.len() == 64 && k.key@
                    == ed25519_secret_from_seed(k.key@.take(32)),
                Err(_) => false,
            },
    {
        let alg = match alg {
            Some(a) => a,
            None => KeyType::ED25519,
        };
        match alg {
            KeyType::ED25519 => match signer::ed25519_generate() {
                Some(sk) => Ok(SignKey { key: sk, alg: KeyType::ED25519 }),
                None => Err(ConversionError::KeyDerivationFailed),
            },
            _ => Err(ConversionError::UnsupportedAlgorithm),
        }
    }

    /// The Ed25519 key that a seed of at least 32 bytes expands to.
    pub fn from_seed(seed: &[u8]) -> (r: Result<Self, ConversionError>)
        ensures
            seed@.len() < 32 ==> r == Err::<Self, ConversionError>(ConversionError::KeyDerivationFailed),
            seed@.len() >= 32 ==> signkey_result(r) == Ok::<(Seq<u8>, AlgTag), ConversionError>(
                (ed25519_secret_from_seed(seed@), AlgTag::Ed25519),
            ),
            r matches Ok(k) ==> k.key@.len() == 64 && k.key@.take(32) == seed@.take(32),
    {
        match signer::ed25519_expand(seed) {
            Some(sk) => Ok(SignKey { key: sk, alg: KeyType::ED25519 }),
            None => Err(ConversionError::KeyDerivationFailed),
        }
    }

    /// The public half of an Ed25519 key: its bytes from offset 32 on.
    pub fn public_key(&self) -> (r: Result<VerKey, ConversionError>)
        ensures
            self.alg@ != AlgTag::Ed25519 ==> r == Err::<VerKey, ConversionError>(
                ConversionError::UnsupportedAlgorithm,
            ),
            self.alg@ == AlgTag::Ed25519 && self.key@.len() < 32 ==> r == Err::<VerKey, ConversionError>(
                ConversionError::InvalidKeyLength,
            ),
            self.alg@ == AlgTag::Ed25519 && self.key@.len() >= 32 ==> (r matches Ok(v) && v.key@
                == self.key@.skip(32) && v.alg@ == AlgTag::Ed25519),
    {
        match self.alg {
            KeyType::ED25519 => {
                if self.key.len() < PUBLIC_KEY_LEN {
                    return Err(ConversionError::InvalidKeyLength);
                }
                let (_, public) = self.key.as_slice().split_at(PUBLIC_KEY_LEN);
                Ok(VerKey { key: slice_to_vec(public), alg: KeyType::ED25519 })
            },
            _ => Err(ConversionError::UnsupportedAlgorithm),
        }
    }

    pub fn key_bytes(&self) -> (r: Vec<u8>)
        ensures
            r@ == self.key@,
    {
        slice_to_vec(self.key.as_slice())
    }

    /// The X25519 secret key for key exchange, from an Ed25519 key.
    pub fn key_exchange(&self) -> (r: Result<Self, ConversionError>)
        ensures
            self.alg@ != AlgTag::Ed25519 ==> r == Err::<Self, ConversionError>(
                ConversionError::UnsupportedAlgorithm,
            ),
            self.alg@ == AlgTag::Ed25519 && self.key@.len() < 32 ==> r == Err::<Self, ConversionError>(
                ConversionError::KeyExchangeConversionFailed,
            ),
            self.alg@ == AlgTag::Ed25519 && self.key@.len() >= 32 ==> signkey_result(r) == Ok::<
                (Seq<u8>, AlgTag),
                ConversionError,
            >((x25519_secret_of(self.key@), AlgTag::X25519)),
    {
        match self.alg {
            KeyType::ED25519 => match signer::x25519_secret(self.key.as_slice()) {
                Some(x) => Ok(SignKey { key: x, alg: KeyType::X25519 }),
                None => Err(ConversionError::KeyExchangeConversionFailed),
            },
            _ => Err(ConversionError::UnsupportedAlgorithm),
        }
    }

    /// The signature of a message under this key.
    pub fn sign(&self, message: &[u8]) -> (r: Result<Vec<u8>, ConversionError>)
        ensures
            match r {
                Ok(s) => Ok(s@),
                Err(e) => Err(e),
            } == sign_outcome(self.alg@, self.key@, message@),
    {
        match self.alg {
            KeyType::ED25519 => match signer::ed25519_sign(self.key.as_slice(), message) {
                Some(s) => Ok(s),
                None => Err(ConversionError::SigningFailed),
            },
            _ => Err(ConversionError::UnsupportedAlgorithm),
        }
    }

    /// Wipes the key bytes and resets the algorithm to the unspecified
    /// (empty) tag.
    pub fn zeroize(&mut self)
        ensures
            final(self).key@ == Seq::<u8>::empty(),
            final(self).alg@ == AlgTag::Other(Seq::<char>::empty()),
        opens_invariants none
        no_unwind
    {
        wipe_bytes(&mut self.key);
        self.alg = KeyType::Other(empty_text());
    }
}

impl Drop for SignKey {
    /// Disposal wipes the key, as `zeroize` does.
    fn drop(&mut self)
        ensures
            final(self).key@ == Seq::<u8>::empty(),
            final(self).alg@ == AlgTag::Other(Seq::<char>::empty()),
        opens_invariants none
        no_unwind
    {
        self.zeroize();
    }
}

impl PartialEq for SignKey {
    fn eq(&self, o: &SignKey) -> (r: bool) {
        same_bytes(self.key.as_slice(), o.key.as_slice()) && self.alg == o.alg
    }
}

impl vstd::std_specs::cmp::PartialEqSpecImpl for SignKey {
    open spec fn obeys_eq_spec() -> bool {
        true
    }

    open spec fn eq_spec(&self, o: &SignKey) -> bool {
        self.key@ == o.key@ && self.alg@ == o.alg@
    }
}

impl Eq for SignKey {
}

} // verus!
