use vstd::prelude::*;
use crate::base58::{base58_bytes, base58_text};
use crate::encoded::{
    decoded_key, expanded_bytes, is_short_form, key_head, key_tail, long_form_of, parse_key, qualified_alg,
    EncodedKeyView,
};
use crate::error::ConversionError;
use crate::signkey::sign_outcome;
use crate::text::{first_index, holds_char, is_first_index, lemma_first_index_unique};
use crate::types::{alg_name, alg_of_name, AlgTag, EncTag};
use crate::verkey::{exchange_outcome, verify_outcome};

verus! {

/// Where a character occurs, it has a first occurrence.
pub proof fn lemma_first_index_exists(s: Seq<char>, c: char)
    requires
        holds_char(s, c),
    ensures
        is_first_index(s, c, first_index(s, c)),
    decreases s.len(),
{
    let i = choose|i: int| 0 <= i < s.len() && s[i] == c;
    let p = s.take(i);
    if holds_char(p, c) {
        lemma_first_index_exists(p, c);
        let k = first_index(p, c);
        assert forall|j: int| 0 <= j < k implies s[j] != c by {
            assert(p[j] == s[j]);
        }
        assert(p[k] == s[k]);
        assert(is_first_index(s, c, k));
    } else {
        assert forall|j: int| 0 <= j < i implies s[j] != c by {
            assert(p[j] == s[j]);
        }
        assert(is_first_index(s, c, i));
    }
}

/// The key part of a qualified key holds no colon.
pub proof fn lemma_head_has_no_colon(s: Seq<char>)
    ensures
        !holds_char(key_head(s), ':'),
{
    if holds_char(s, ':') {
        lemma_first_index_exists(s, ':');
        let h = key_head(s);
        if holds_char(h, ':') {
            let j = choose|j: int| 0 <= j < h.len() && h[j] == ':';
            assert(s[j] == ':');
        }
    }
}

/// Parsing a name back from an algorithm that parsing produced gives the
/// same algorithm.
pub proof fn lemma_alg_name_round_trip(s: Seq<char>)
    ensures
        alg_name(qualified_alg(s, AlgTag::Ed25519)).len() > 0,
        alg_of_name(alg_name(qualified_alg(s, AlgTag::Ed25519))) == qualified_alg(s, AlgTag::Ed25519),
{
    reveal_strlit("ed25519");
    reveal_strlit("x25519");
}

/// Reading the long form of a parsed key gives the same key again, for any
/// text whose key part is not in short form.
pub proof fn lemma_long_form_reparses(s: Seq<char>)
    requires
        !is_short_form(key_head(s)),
    ensures
        parse_key(s, None, AlgTag::Ed25519, EncTag::Base58) matches Ok(k) && parse_key(
            long_form_of(k),
            None,
            AlgTag::Ed25519,
            EncTag::Base58,
        ) == parse_key(s, None, AlgTag::Ed25519, EncTag::Base58),
{
    let head = key_head(s);
    let a = qualified_alg(s, AlgTag::Ed25519);
    let k = EncodedKeyView { key: head, alg: a, enc: EncTag::Base58 };
    assert(parse_key(s, None, AlgTag::Ed25519, EncTag::Base58) == Ok::<EncodedKeyView, ConversionError>(k));
    let t = long_form_of(k);
    lemma_head_has_no_colon(s);
    lemma_alg_name_round_trip(s);
    assert(t[head.len() as int] == ':');
    assert forall|j: int| 0 <= j < head.len() implies t[j] != ':' by {
        assert(t[j] == head[j]);
        if head[j] == ':' {
            assert(holds_char(head, ':'));
        }
    }
    lemma_first_index_unique(t, ':', head.len() as int);
    assert(key_head(t) =~= head);
    assert(key_tail(t) =~= alg_name(a));
}

/// A short-form key read without a destination fails with
/// `MissingDestination`, whatever the default algorithm and encoding.
pub proof fn lemma_short_form_needs_destination(s: Seq<char>, alg: AlgTag, enc: EncTag)
    requires
        is_short_form(key_head(s)),
    ensures
        parse_key(s, None, alg, enc) == Err::<EncodedKeyView, ConversionError>(
            ConversionError::MissingDestination,
        ),
{
}

/// An algorithm without an implementation is refused by signing,
/// verification and key-exchange derivation, with `UnsupportedAlgorithm`.
pub proof fn lemma_unknown_algorithm_rejected(
    name: Seq<char>,
    key: Seq<u8>,
    message: Seq<u8>,
    signature: Seq<u8>,
)
    ensures
        sign_outcome(AlgTag::Other(name), key, message) == Err::<Seq<u8>, ConversionError>(
            ConversionError::UnsupportedAlgorithm,
        ),
        verify_outcome(AlgTag::Other(name), key, message, signature) == Err::<bool, ConversionError>(
            ConversionError::UnsupportedAlgorithm,
        ),
        exchange_outcome(AlgTag::Other(name), key) == Err::<Seq<u8>, ConversionError>(
            ConversionError::UnsupportedAlgorithm,
        ),
        exchange_outcome(AlgTag::X25519, key) == Err::<Seq<u8>, ConversionError>(
            ConversionError::UnsupportedAlgorithm,
        ),
{
}

/// An encoding without a codec is refused when a key's text is decoded,
/// with `UnsupportedEncoding`, and so by everything that decodes it.
pub proof fn lemma_unknown_encoding_rejected(key: Seq<char>, alg: AlgTag, name: Seq<char>)
    ensures
        decoded_key(EncodedKeyView { key, alg, enc: EncTag::Other(name) }) == Err::<
            Seq<u8>,
            ConversionError,
        >(ConversionError::UnsupportedEncoding),
{
}

/// A short-form key `~S` read relative to a destination `D`, where both
/// texts are base58 (so `S` holds no colon), is the base58 text of the
/// destination's bytes followed by the suffix's bytes; with 16 bytes each,
/// that is a 32-byte key.
pub proof fn lemma_short_form_expands(d: Seq<char>, s: Seq<char>, front: Seq<u8>, back: Seq<u8>)
    requires
        base58_bytes(d) == Some(front),
        base58_bytes(s) == Some(back),
        !holds_char(s, ':'),
    ensures
        parse_key(seq!['~'] + s, Some(d), AlgTag::Ed25519, EncTag::Base58) == Ok::<
            EncodedKeyView,
            ConversionError,
        >(EncodedKeyView { key: base58_text(front + back), alg: AlgTag::Ed25519, enc: EncTag::Base58 }),
        expanded_bytes(seq!['~'] + s, d) == Some(front + back),
        front.len() == 16 && back.len() == 16 ==> (front + back).len() == 32,
{
    let t = seq!['~'] + s;
    if holds_char(t, ':') {
        let i = choose|i: int| 0 <= i < t.len() && t[i] == ':';
        assert(i > 0);
        assert(s[i - 1] == ':');
    }
    assert(key_head(t) == t);
    assert(key_tail(t) == Seq::<char>::empty());
    assert(t.skip(1) =~= s);
}

} // verus!
