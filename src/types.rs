use vstd::prelude::*;
use crate::text::same_text;

verus! {

/// What a `KeyType` denotes: a known algorithm, or an opaque name.
pub enum AlgTag {
    Ed25519,
    X25519,
    Other(Seq<char>),
}

/// What a `KeyEncoding` denotes: a known encoding, or an opaque name.
pub enum EncTag {
    Base58,
    Other(Seq<char>),
}

/// The textual name of an algorithm tag.
pub open spec fn alg_name(t: AlgTag) -> Seq<char> {
    match t {
        AlgTag::Ed25519 => "ed25519"@,
        AlgTag::X25519 => "x25519"@,
        AlgTag::Other(s) => s,
    }
}

/// The algorithm tag a name stands for.
pub open spec fn alg_of_name(s: Seq<char>) -> AlgTag {
    if s == "ed25519"@ {
        AlgTag::Ed25519
    } else if s == "x25519"@ {
        AlgTag::X25519
    } else {
        AlgTag::Other(s)
    }
}

/// The textual name of an encoding tag.
pub open spec fn enc_name(t: EncTag) -> Seq<char> {
    match t {
        EncTag::Base58 => "base58"@,
        EncTag::Other(s) => s,
    }
}

/// The encoding tag a name stands for.
pub open spec fn enc_of_name(s: Seq<char>) -> EncTag {
    if s == "base58"@ {
        EncTag::Base58
    } else {
        EncTag::Other(s)
    }
}

/// A signature algorithm: one of the known ones, or an opaque name that
/// every operation needing an implementation rejects.
#[derive(Clone, Debug)]
pub enum KeyType {
    ED25519,
    X25519,
    Other(String),
}

impl View for KeyType {
    type V = AlgTag;

    open spec fn view(&self) -> AlgTag {
        match self {
            KeyType::ED25519 => AlgTag::Ed25519,
            KeyType::X25519 => AlgTag::X25519,
            KeyType::Other(s) => AlgTag::Other(s@),
        }
    }
}

impl KeyType {
    /// The tag for a name: the known algorithms by their exact names,
    /// anything else as an opaque tag.
    pub fn from_str(name: &str) -> (r: KeyType)
        ensures
            r@ == alg_of_name(name@),
    {
        if same_text(name, "ed25519") {
            KeyType::ED25519
        } else if same_text(name, "x25519") {
            KeyType::X25519
        } else {
            KeyType::Other(name.to_owned())
        }
    }

    /// The tag's textual name.
    pub fn as_str(&self) -> (r: &str)
        ensures
            r@ == alg_name(self@),
    {
        match self {
            KeyType::ED25519 => "ed25519",
            KeyType::X25519 => "x25519",
            KeyType::Other(s) => s.as_str(),
        }
    }

    pub fn is_default(&self) -> (r: bool)
        ensures
            r == (self@ == AlgTag::Ed25519),
    {
        match self {
            KeyType::ED25519 => true,
            _ => false,
        }
    }

    /// A copy that denotes the same tag.
    pub fn duplicate(&self) -> (r: KeyType)
        ensures
            r@ == self@,
    {
        match self {
            KeyType::ED25519 => KeyType::ED25519,
            KeyType::X25519 => KeyType::X25519,
            KeyType::Other(s) => KeyType::Other(s.clone()),
        }
    }
}

impl Default for KeyType {
    fn default() -> (r: KeyType)
        ensures
            r@ == AlgTag::Ed25519,
    {
        KeyType::ED25519
    }
}

impl PartialEq for KeyType {
    fn eq(&self, o: &KeyType) -> (r: bool) {
        match (self, o) {
            (KeyType::ED25519, KeyType::ED25519) => true,
            (KeyType::X25519, KeyType::X25519) => true,
            (KeyType::Other(a), KeyType::Other(b)) => same_text(a.as_str(), b.as_str()),
            _ => false,
        }
    }
}

impl vstd::std_specs::cmp::PartialEqSpecImpl for KeyType {
    open spec fn obeys_eq_spec() -> bool {
        true
    }

    open spec fn eq_spec(&self, o: &KeyType) -> bool {
        self@ == o@
    }
}

impl Eq for KeyType {
}

impl From<&str> for KeyType {
    fn from(name: &str) -> (r: KeyType)
        ensures
            r@ == alg_of_name(name@),
    {
        KeyType::from_str(name)
    }
}

impl vstd::std_specs::convert::FromSpecImpl<&str> for KeyType {
    open spec fn obeys_from_spec() -> bool {
        false
    }

    open spec fn from_spec(name: &str) -> KeyType {
        KeyType::ED25519
    }
}

/// A textual encoding of key bytes: the known one, or an opaque name that
/// every operation needing a codec rejects.
#[derive(Clone, Debug)]
pub enum KeyEncoding {
    BASE58,
    Other(String),
}

impl View for KeyEncoding {
    type V = EncTag;

    open spec fn view(&self) -> EncTag {
        match self {
            KeyEncoding::BASE58 => EncTag::Base58,
            KeyEncoding::Other(s) => EncTag::Other(s@),
        }
    }
}

impl KeyEncoding {
    /// The tag for a name: the known encoding by its exact name, anything
    /// else as an opaque tag.
    pub fn from_str(name: &str) -> (r: KeyEncoding)
        ensures
            r@ == enc_of_name(name@),
    {
        if same_text(name, "base58") {
            KeyEncoding::BASE58
        } else {
            KeyEncoding::Other(name.to_owned())
        }
    }

    /// The tag's textual name.
    pub fn as_str(&self) -> (r: &str)
        ensures
            r@ == enc_name(self@),
    {
        match self {
            KeyEncoding::BASE58 => "base58",
            KeyEncoding::Other(s) => s.as_str(),
        }
    }

    /// A copy that denotes the same tag.
    pub fn duplicate(&self) -> (r: KeyEncoding)
        ensures
            r@ == self@,
    {
        match self {
            KeyEncoding::BASE58 => KeyEncoding::BASE58,
            KeyEncoding::Other(s) => KeyEncoding::Other(s.clone()),
        }
    }
}

impl Default for KeyEncoding {
    fn default() -> (r: KeyEncoding)
        ensures
            r@ == EncTag::Base58,
    {
        KeyEncoding::BASE58
    }
}

impl PartialEq for KeyEncoding {
    fn eq(&self, o: &KeyEncoding) -> (r: bool) {
        match (self, o) {
            (KeyEncoding::BASE58, KeyEncoding::BASE58) => true,
            (KeyEncoding::Other(a), KeyEncoding::Other(b)) => same_text(a.as_str(), b.as_str()),
            _ => false,
        }
    }
}

impl vstd::std_specs::cmp::PartialEqSpecImpl for KeyEncoding {
    open spec fn obeys_eq_spec() -> bool {
        true
    }

    open spec fn eq_spec(&self, o: &KeyEncoding) -> bool {
        self@ == o@
    }
}

impl Eq for KeyEncoding {
}

impl From<&str> for KeyEncoding {
    fn from(name: &str) -> (r: KeyEncoding)
        ensures
            r@ == enc_of_name(name@),
    {
        KeyEncoding::from_str(name)
    }
}

impl vstd::std_specs::convert::FromSpecImpl<&str> for KeyEncoding {
    open spec fn obeys_from_spec() -> bool {
        false
    }

    open spec fn from_spec(name: &str) -> KeyEncoding {
        KeyEncoding::BASE58
    }
}

} // verus!
