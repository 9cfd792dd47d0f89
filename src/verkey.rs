use vstd::prelude::*;
use vstd::slice::slice_to_vec;
use crate::base58::{self, base58_text};
use crate::encoded::{alg_or_default, decoded_key, long_form_of, EncodedKeyView, EncodedVerKey};
use crate::error::ConversionError;
use crate::signer::{self, ed25519_verdict, x25519_public_of};
use crate::text::same_bytes;
use crate::types::{AlgTag, EncTag, KeyEncoding, KeyType};
use crate::wipe::{empty_text, wipe_bytes};

verus! {

/// The length of an Ed25519 public key in bytes.
pub const PUBLIC_KEY_LEN: usize = 32;

/// The outcome of checking a key's length: only 32-byte keys pass.
pub open spec fn length_check(b: Seq<u8>) -> Result<(), ConversionError> {
    if b.len() == 32 {
        Ok(())
    } else {
        Err(ConversionError::InvalidKeyLength)
    }
}

/// The outcome of verifying a signature with an algorithm and public key.
pub open spec fn verify_outcome(alg: AlgTag, public: Seq<u8>, message: Seq<u8>, signature: Seq<u8>) -> Result<
    bool,
    ConversionError,
> {
    match alg {
        AlgTag::Ed25519 => match ed25519_verdict(public, message, signature) {
            Some(v) => Ok(v),
            None => Err(ConversionError::VerificationError),
        },
        _ => Err(ConversionError::UnsupportedAlgorithm),
    }
}

/// The outcome of deriving the key-exchange public key from a public key.
pub open spec fn exchange_outcome(alg: AlgTag, public: Seq<u8>) -> Result<Seq<u8>, ConversionError> {
    match alg {
        AlgTag::Ed25519 => match x25519_public_of(public) {
            Some(x) => Ok(x),
            None => Err(ConversionError::KeyExchangeConversionFailed),
        },
        _ => Err(ConversionError::UnsupportedAlgorithm),
    }
}

/// A raw verification (public) key and its algorithm.
#[derive(Clone, Debug)]
pub struct VerKey {
    pub key: Vec<u8>,
    pub alg: KeyType,
}

pub open spec fn verkey_result(r: Result<VerKey, ConversionError>) -> Result<(Seq<u8>, AlgTag), ConversionError> {
    match r {
        Ok(k) => Ok((k.key@, k.alg@)),
        Err(e) => Err(e),
    }
}

/// Derives the X25519 public key from an Ed25519 public key.
pub fn exchange_public(alg: &KeyType, public: &[u8]) -> (r: Result<VerKey, ConversionError>)
    ensures
        verkey_result(r) == match exchange_outcome(alg@, public@) {
            Ok(x) => Ok((x, AlgTag::X25519)),
            Err(e) => Err(e),
        },
{
    match alg {
        KeyType::ED25519 => match signer::x25519_public(public) {
            Some(x) => Ok(VerKey { key: x, alg: KeyType::X25519 }),
            None => Err(ConversionError::KeyExchangeConversionFailed),
        },
        _ => Err(ConversionError::UnsupportedAlgorithm),
    }
}

/// Verifies a signature on a message with a public key of an algorithm.
pub fn verify_with(alg: &KeyType, public: &[u8], message: &[u8], signature: &[u8]) -> (r: Result<
    bool,
    ConversionError,
>)
    ensures
        r == verify_outcome(alg@, public@, message@, signature@),
{
    match alg {
        KeyType::ED25519 => match signer::ed25519_verify(public, message, signature) {
            Some(v) => Ok(v),
            None => Err(ConversionError::VerificationError),
        },
        _ => Err(ConversionError::UnsupportedAlgorithm),
    }
}

impl VerKey {
    pub fn new(key: &[u8], alg: Option<KeyType>) -> (r: Self)
        ensures
            r.key@ == key@,
            r.alg@ == alg_or_default(alg),
    {
        let alg = match alg {
            Some(a) => a,
            None => KeyType::ED25519,
        };
        VerKey { key: slice_to_vec(key), alg }
    }

    /// The key in base58 text.
    pub fn as_base58(&self) -> (r: Result<EncodedVerKey, ConversionError>)
        ensures
            r matches Ok(e) && e@ == (EncodedKeyView {
                key: base58_text(self.key@),
                alg: self.alg@,
                enc: EncTag::Base58,
            }),
            r matches Ok(e) ==> decoded_key(e@) == Ok::<Seq<u8>, ConversionError>(self.key@),
    {
        self.encode(KeyEncoding::BASE58)
    }

    /// The key in text under an encoding; only base58 is supported. Reading
    /// the text back gives the key's bytes.
    pub fn encode(&self, enc: KeyEncoding) -> (r: Result<EncodedVerKey, ConversionError>)
        ensures
            enc@ == EncTag::Base58 ==> (r matches Ok(e) && e@ == (EncodedKeyView {
                key: base58_text(self.key@),
                alg: self.alg@,
                enc: EncTag::Base58,
            })),
            enc@ != EncTag::Base58 ==> r == Err::<EncodedVerKey, ConversionError>(
                ConversionError::UnsupportedEncoding,
            ),
            r matches Ok(e) ==> decoded_key(e@) == Ok::<Seq<u8>, ConversionError>(self.key@),
    {
        match enc {
            KeyEncoding::BASE58 => {
                let text = base58::encode(self.key.as_slice());
                Ok(EncodedVerKey { key: text, alg: self.alg.duplicate(), enc: KeyEncoding::BASE58 })
            },
            _ => Err(ConversionError::UnsupportedEncoding),
        }
    }

    pub fn key_bytes(&self) -> (r: Vec<u8>)
        ensures
            r@ == self.key@,
    {
        slice_to_vec(self.key.as_slice())
    }

    /// The X25519 public key for key exchange, from an Ed25519 key.
    pub fn key_exchange(&self) -> (r: Result<VerKey, ConversionError>)
        ensures
            verkey_result(r) == match exchange_outcome(self.alg@, self.key@) {
                Ok(x) => Ok((x, AlgTag::X25519)),
                Err(e) => Err(e),
            },
    {
        exchange_public(&self.alg, self.key.as_slice())
    }

    /// Whether `signature` is a valid signature of `message` under this key.
    /// A well-formed signature that does not match gives `Ok(false)`.
    pub fn verify_signature(&self, message: &[u8], signature: &[u8]) -> (r: Result<bool, ConversionError>)
        ensures
            r == verify_outcome(self.alg@, self.key@, message@, signature@),
    {
        verify_with(&self.alg, self.key.as_slice(), message, signature)
    }

    /// Succeeds exactly when the key is 32 bytes long.
    pub fn validate(&self) -> (r: Result<(), ConversionError>)
        ensures
            r == length_check(self.key@),
    {
        if self.key.len() == PUBLIC_KEY_LEN {
            Ok(())
        } else {
            Err(ConversionError::InvalidKeyLength)
        }
    }

    /// Wipes the key bytes and resets the algorithm to the unspecified
    /// (empty) tag.
    pub fn zeroize(&mut self)
        ensures
            final(self).key@ == Seq::<u8>::empty(),
            final(self).alg@ == AlgTag::Other(Seq::<char>::empty()),
        opens_invariants none
        no_unwind
    {
        wipe_bytes(&mut self.key);
        self.alg = KeyType::Other(empty_text());
    }
}

impl Drop for VerKey {
    /// Disposal wipes the key, as `zeroize` does.
    fn drop(&mut self)
        ensures
            final(self).key@ == Seq::<u8>::empty(),
            final(self).alg@ == AlgTag::Other(Seq::<char>::empty()),
        opens_invariants none
        no_unwind
    {
        self.zeroize();
    }
}

impl VerKey {
    /// The key's base58 text, followed by a colon and the algorithm's name
    /// unless the algorithm is the default.
    pub fn display(&self) -> (r: String)
        ensures
            self.alg@ == AlgTag::Ed25519 ==> r@ == base58_text(self.key@),
            self.alg@ != AlgTag::Ed25519 ==> r@ == long_form_of(
                EncodedKeyView { key: base58_text(self.key@), alg: self.alg@, enc: EncTag::Base58 },
            ),
    {
        match self.as_base58() {
            Ok(k) => k.display(),
            Err(_) => "<Error encoding key>".to_owned(),
        }
    }
}

impl PartialEq for VerKey {
    fn eq(&self, o: &VerKey) -> (r: bool) {
        same_bytes(self.key.as_slice(), o.key.as_slice()) && self.alg == o.alg
    }
}

impl vstd::std_specs::cmp::PartialEqSpecImpl for VerKey {
    open spec fn obeys_eq_spec() -> bool {
        true
    }

    open spec fn eq_spec(&self, o: &VerKey) -> bool {
        self.key@ == o.key@ && self.alg@ == o.alg@
    }
}

impl Eq for VerKey {
}

} // verus!
