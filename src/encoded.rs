use vstd::prelude::*;
use vstd::string::*;
use crate::base58::{self, base58_bytes, base58_text};
use crate::error::ConversionError;
use crate::text::{find_char, first_index, holds_char, lemma_first_index_unique, same_text};
use crate::types::{alg_name, alg_of_name, AlgTag, EncTag, KeyEncoding, KeyType};
use crate::verkey::{
    exchange_outcome, exchange_public, length_check, verify_outcome, verify_with, verkey_result,
    VerKey, PUBLIC_KEY_LEN,
};
use crate::wipe::{empty_text, wipe_text};

verus! {

/// What an `EncodedVerKey` holds: its text and its two tags.
pub struct EncodedKeyView {
    pub key: Seq<char>,
    pub alg: AlgTag,
    pub enc: EncTag,
}

/// The key part of a qualified key: what stands before the first colon.
pub open spec fn key_head(s: Seq<char>) -> Seq<char> {
    if holds_char(s, ':') {
        s.take(first_index(s, ':'))
    } else {
        s
    }
}

/// The algorithm part of a qualified key: what follows the first colon.
pub open spec fn key_tail(s: Seq<char>) -> Seq<char> {
    if holds_char(s, ':') {
        s.skip(first_index(s, ':') + 1)
    } else {
        Seq::empty()
    }
}

/// The algorithm of a qualified key: the one it names, else `alg`.
pub open spec fn qualified_alg(s: Seq<char>, alg: AlgTag) -> AlgTag {
    if key_tail(s).len() > 0 {
        alg_of_name(key_tail(s))
    } else {
        alg
    }
}

/// A key in short form, relative to a destination.
pub open spec fn is_short_form(k: Seq<char>) -> bool {
    k.len() > 0 && k[0] == '~'
}

/// The tag that an optional algorithm argument stands for.
pub open spec fn alg_or_default(alg: Option<KeyType>) -> AlgTag {
    match alg {
        Some(a) => a@,
        None => AlgTag::Ed25519,
    }
}

/// The tag that an optional encoding argument stands for.
pub open spec fn enc_or_default(enc: Option<KeyEncoding>) -> EncTag {
    match enc {
        Some(e) => e@,
        None => EncTag::Base58,
    }
}

pub open spec fn text_of(s: Option<&str>) -> Option<Seq<char>> {
    match s {
        Some(t) => Some(t@),
        None => None,
    }
}

/// The bytes of a short-form key `s` relative to the destination `d`: the
/// destination's bytes followed by those of the text after the `~`.
pub open spec fn expanded_bytes(s: Seq<char>, d: Seq<char>) -> Option<Seq<u8>> {
    match (base58_bytes(d), base58_bytes(key_head(s).skip(1))) {
        (Some(front), Some(back)) => Some(front + back),
        _ => None,
    }
}

/// The outcome of reading a qualified or short-form key `s`, with an
/// optional destination and the given default algorithm and encoding.
pub open spec fn parse_key(s: Seq<char>, dest: Option<Seq<char>>, alg: AlgTag, enc: EncTag) -> Result<
    EncodedKeyView,
    ConversionError,
> {
    let head = key_head(s);
    let a = qualified_alg(s, alg);
    if is_short_form(head) {
        match dest {
            None => Err(ConversionError::MissingDestination),
            Some(d) => {
                if enc != EncTag::Base58 {
                    Err(ConversionError::UnsupportedEncoding)
                } else {
                    match expanded_bytes(s, d) {
                        Some(b) => Ok(EncodedKeyView { key: base58_text(b), alg: a, enc }),
                        None => Err(ConversionError::InvalidEncoding),
                    }
                }
            },
        }
    } else {
        Ok(EncodedKeyView { key: head, alg: a, enc })
    }
}

/// The bytes that an encoded key's text denotes under its encoding.
pub open spec fn decoded_key(k: EncodedKeyView) -> Result<Seq<u8>, ConversionError> {
    match k.enc {
        EncTag::Base58 => match base58_bytes(k.key) {
            Some(b) => Ok(b),
            None => Err(ConversionError::InvalidEncoding),
        },
        EncTag::Other(_) => Err(ConversionError::UnsupportedEncoding),
    }
}

/// The long form of an encoded key: its text, a colon, its algorithm's name.
pub open spec fn long_form_of(k: EncodedKeyView) -> Seq<char> {
    k.key + seq![':'] + alg_name(k.alg)
}

pub open spec fn encoded_result(r: Result<EncodedVerKey, ConversionError>) -> Result<
    EncodedKeyView,
    ConversionError,
> {
    match r {
        Ok(k) => Ok(k@),
        Err(e) => Err(e),
    }
}

pub open spec fn bytes_result(r: Result<Vec<u8>, ConversionError>) -> Result<Seq<u8>, ConversionError> {
    match r {
        Ok(v) => Ok(v@),
        Err(e) => Err(e),
    }
}

/// A verification key in textual form: the encoded key, its algorithm and
/// the encoding of its text. Construction does not check that the text
/// decodes; `validate` does.
#[derive(Clone, Debug)]
pub struct EncodedVerKey {
    pub key: String,
    pub alg: KeyType,
    pub enc: KeyEncoding,
}

impl View for EncodedVerKey {
    type V = EncodedKeyView;

    open spec fn view(&self) -> EncodedKeyView {
        EncodedKeyView { key: self.key@, alg: self.alg@, enc: self.enc@ }
    }
}

impl EncodedVerKey {
    pub fn new(key: &str, alg: Option<KeyType>, enc: Option<KeyEncoding>) -> (r: Self)
        ensures
            r@ == (EncodedKeyView { key: key@, alg: alg_or_default(alg), enc: enc_or_default(enc) }),
    {
        let alg = match alg {
            Some(a) => a,
            None => KeyType::ED25519,
        };
        let enc = match enc {
            Some(e) => e,
            None => KeyEncoding::BASE58,
        };
        EncodedVerKey { key: key.to_owned(), alg, enc }
    }

    /// Reads a key from UTF-8 bytes, as `from_str` does from text.
    pub fn from_slice(key: &[u8]) -> (r: Result<Self, ConversionError>)
        ensures
            !vstd::utf8::valid_utf8(key@) ==> r == Err::<Self, ConversionError>(
                ConversionError::InvalidEncoding,
            ),
            vstd::utf8::valid_utf8(key@) ==> encoded_result(r) == parse_key(
                vstd::utf8::decode_utf8(key@),
                None,
                AlgTag::Ed25519,
                EncTag::Base58,
            ),
    {
        match crate::utf8::read_utf8(key) {
            Some(text) => Self::from_str_qualified(text, None, None, None),
            None => Err(ConversionError::InvalidEncoding),
        }
    }

    /// Reads a key in long or short form, with the default algorithm and
    /// encoding and no destination.
    pub fn from_str(key: &str) -> (r: Result<Self, ConversionError>)
        ensures
            encoded_result(r) == parse_key(key@, None, AlgTag::Ed25519, EncTag::Base58),
    {
        Self::from_str_qualified(key, None, None, None)
    }

    /// Reads `<key>[:<algorithm>]`. A non-empty algorithm after the first
    /// colon overrides `alg`. A key that starts with `~` is a suffix of the
    /// destination's key: the full key is the destination's bytes followed by
    /// the suffix's bytes, encoded again.
    pub fn from_str_qualified(
        key: &str,
        dest: Option<&str>,
        alg: Option<KeyType>,
        enc: Option<KeyEncoding>,
    ) -> (r: Result<Self, ConversionError>)
        ensures
            encoded_result(r) == parse_key(key@, text_of(dest), alg_or_default(alg), enc_or_default(enc)),
            is_short_form(key_head(key@)) ==> (r matches Ok(k) ==> (dest matches Some(d)
                && decoded_key(k@) == match expanded_bytes(key@, d@) {
                Some(b) => Ok::<Seq<u8>, ConversionError>(b),
                None => Err(ConversionError::InvalidEncoding),
            })),
    {
        let ghost dflt = alg_or_default(alg);
        let (head, alg) = match find_char(key, ':') {
            Some(i) => {
                proof {
                    lemma_first_index_unique(key@, ':', i as int);
                }
                let n = key.unicode_len();
                let head = key.substring_char(0, i);
                let tail = key.substring_char(i + 1, n);
                assert(head@ == key_head(key@));
                assert(tail@ == key_tail(key@));
                if tail.unicode_len() == 0 {
                    (head, alg)
                } else {
                    (head, Some(KeyType::from_str(tail)))
                }
            },
            None => (key, alg),
        };
        assert(head@ == key_head(key@));
        assert(alg_or_default(alg) == qualified_alg(key@, dflt));
        let alg = match alg {
            Some(a) => a,
            None => KeyType::ED25519,
        };
        let enc = match enc {
            Some(e) => e,
            None => KeyEncoding::BASE58,
        };
        if head.unicode_len() > 0 && head.get_char(0) == '~' {
            let dest = match dest {
                Some(d) => d,
                None => return Err(ConversionError::MissingDestination),
            };
            match enc {
                KeyEncoding::BASE58 => {},
                _ => return Err(ConversionError::UnsupportedEncoding),
            }
            let mut result = match base58::decode(dest) {
                Some(v) => v,
                None => return Err(ConversionError::InvalidEncoding),
            };
            let n = head.unicode_len();
            let mut end = match base58::decode(head.substring_char(1, n)) {
                Some(v) => v,
                None => return Err(ConversionError::InvalidEncoding),
            };
            result.append(&mut end);
            Ok(EncodedVerKey { key: base58::encode(result.as_slice()), alg, enc })
        } else {
            Ok(EncodedVerKey { key: head.to_owned(), alg, enc })
        }
    }

    /// The text, a colon and the algorithm's name; the colon and the name are
    /// there for the default algorithm too.
    pub fn long_form(&self) -> (r: String)
        ensures
            r@ == long_form_of(self@),
    {
        let mut result = self.key.clone();
        result.append(":");
        result.append(self.alg.as_str());
        proof {
            reveal_strlit(":");
        }
        result
    }

    /// The text a reader sees: the key alone under the default algorithm,
    /// the long form under any other.
    pub fn display(&self) -> (r: String)
        ensures
            self.alg@ == AlgTag::Ed25519 ==> r@ == self.key@,
            self.alg@ != AlgTag::Ed25519 ==> r@ == long_form_of(self@),
    {
        if self.alg.is_default() {
            self.key.clone()
        } else {
            self.long_form()
        }
    }

    /// The same key with base58 text: unchanged where it already is base58.
    pub fn as_base58(self) -> (r: Result<Self, ConversionError>)
        ensures
            self@.enc == EncTag::Base58 ==> encoded_result(r) == Ok::<EncodedKeyView, ConversionError>(self@),
            self@.enc != EncTag::Base58 ==> r == Err::<Self, ConversionError>(
                ConversionError::UnsupportedEncoding,
            ),
    {
        match self.enc {
            KeyEncoding::BASE58 => Ok(self),
            _ => {
                let bytes = match self.key_bytes() {
                    Ok(b) => b,
                    Err(e) => return Err(e),
                };
                let text = base58::encode(bytes.as_slice());
                Ok(EncodedVerKey { key: text, alg: self.alg.duplicate(), enc: KeyEncoding::BASE58 })
            },
        }
    }

    /// The raw key bytes that the text denotes under the key's encoding.
    pub fn key_bytes(&self) -> (r: Result<Vec<u8>, ConversionError>)
        ensures
            bytes_result(r) == decoded_key(self@),
    {
        match self.enc {
            KeyEncoding::BASE58 => match base58::decode(self.key.as_str()) {
                Some(b) => Ok(b),
                None => Err(ConversionError::InvalidEncoding),
            },
            _ => Err(ConversionError::UnsupportedEncoding),
        }
    }

    /// The UTF-8 bytes of the text.
    pub fn encoded_key_bytes(&self) -> (r: &[u8])
        ensures
            r@ == vstd::utf8::encode_utf8(self.key@),
    {
        self.key.as_str().as_bytes()
    }

    /// The X25519 public key for key exchange, from an Ed25519 key.
    pub fn key_exchange(&self) -> (r: Result<VerKey, ConversionError>)
        ensures
            verkey_result(r) == match self.alg@ {
                AlgTag::Ed25519 => match decoded_key(self@) {
                    Ok(b) => match exchange_outcome(self.alg@, b) {
                        Ok(x) => Ok((x, AlgTag::X25519)),
                        Err(e) => Err(e),
                    },
                    Err(e) => Err(e),
                },
                _ => Err(ConversionError::UnsupportedAlgorithm),
            },
    {
        match self.alg {
            KeyType::ED25519 => {
                let bytes = match self.key_bytes() {
                    Ok(b) => b,
                    Err(e) => return Err(e),
                };
                exchange_public(&self.alg, bytes.as_slice())
            },
            _ => Err(ConversionError::UnsupportedAlgorithm),
        }
    }

    /// Whether `signature` is a valid signature of `message` under the key
    /// that the text denotes.
    pub fn verify_signature(&self, message: &[u8], signature: &[u8]) -> (r: Result<bool, ConversionError>)
        ensures
            r == match self.alg@ {
                AlgTag::Ed25519 => match decoded_key(self@) {
                    Ok(b) => verify_outcome(self.alg@, b, message@, signature@),
                    Err(e) => Err(e),
                },
                _ => Err(ConversionError::UnsupportedAlgorithm),
            },
    {
        match self.alg {
            KeyType::ED25519 => {
                let bytes = match self.key_bytes() {
                    Ok(b) => b,
                    Err(e) => return Err(e),
                };
                verify_with(&self.alg, bytes.as_slice(), message, signature)
            },
            _ => Err(ConversionError::UnsupportedAlgorithm),
        }
    }

    /// Succeeds exactly when the text decodes to 32 bytes.
    pub fn validate(&self) -> (r: Result<(), ConversionError>)
        ensures
            r == match decoded_key(self@) {
                Ok(b) => length_check(b),
                Err(e) => Err(e),
            },
    {
        let bytes = match self.key_bytes() {
            Ok(b) => b,
            Err(e) => return Err(e),
        };
        if bytes.len() == PUBLIC_KEY_LEN {
            Ok(())
        } else {
            Err(ConversionError::InvalidKeyLength)
        }
    }

    /// Wipes the text and resets both tags to the unspecified (empty) tag.
    pub fn zeroize(&mut self)
        ensures
            final(self)@ == (EncodedKeyView {
                key: Seq::<char>::empty(),
                alg: AlgTag::Other(Seq::empty()),
                enc: EncTag::Other(Seq::empty()),
            }),
        opens_invariants none
        no_unwind
    {
        wipe_text(&mut self.key);
        self.alg = KeyType::Other(empty_text());
        self.enc = KeyEncoding::Other(empty_text());
    }
}

impl Drop for EncodedVerKey {
    /// Disposal wipes the text, as `zeroize` does.
    fn drop(&mut self)
        ensures
            final(self)@ == (EncodedKeyView {
                key: Seq::<char>::empty(),
                alg: AlgTag::Other(Seq::empty()),
                enc: EncTag::Other(Seq::empty()),
            }),
        opens_invariants none
        no_unwind
    {
        self.zeroize();
    }
}

impl PartialEq for EncodedVerKey {
    fn eq(&self, o: &EncodedVerKey) -> (r: bool) {
        same_text(self.key.as_str(), o.key.as_str()) && self.alg == o.alg && self.enc == o.enc
    }
}

impl vstd::std_specs::cmp::PartialEqSpecImpl for EncodedVerKey {
    open spec fn obeys_eq_spec() -> bool {
        true
    }

    open spec fn eq_spec(&self, o: &EncodedVerKey) -> bool {
        self@ == o@
    }
}

impl Eq for EncodedVerKey {
}

} // verus!
