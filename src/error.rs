use vstd::prelude::*;

verus! {

/// The ways in which building, converting or using a key can fail.
#[derive(Clone, Copy, Debug, PartialEq, Eq, Structural)]
pub enum ConversionError {
    /// The key's algorithm has no implementation for the requested operation.
    UnsupportedAlgorithm,
    /// The key's textual encoding has no implementation.
    UnsupportedEncoding,
    /// Input text was not UTF-8, or not valid under the key's encoding.
    InvalidEncoding,
    /// A key's raw bytes do not have the length its algorithm requires.
    InvalidKeyLength,
    /// A short-form key was given without the destination it extends.
    MissingDestination,
    /// The signature engine could not derive a key pair.
    KeyDerivationFailed,
    /// The signature engine could not sign with this key.
    SigningFailed,
    /// A key or signature was malformed, so no verdict could be reached.
    VerificationError,
    /// The signature engine could not derive a key-exchange key.
    KeyExchangeConversionFailed,
}

} // verus!
