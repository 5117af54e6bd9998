//! Failures reported by the library.
use vstd::prelude::*;

verus! {

/// Why a recovery phrase was rejected.
#[derive(Clone, Copy, Debug, PartialEq, Eq, Structural)]
pub enum MnemonicFault {
    /// The phrase has this many words, which is not 12, 15, 18, 21 or 24.
    BadWordCount(usize),
    /// The word at this position (counting from zero) is not in the word list.
    UnknownWord(usize),
    /// The phrase encodes entropy of this many bits, which is not allowed.
    BadEntropyBitCount(usize),
    /// The words are known but their checksum does not match.
    InvalidChecksum,
    /// The words belong to more than one language's list.
    AmbiguousLanguages,
    /// The words are valid but stretch to an all-zero key seed, which Ed25519 refuses.
    UnusableSeed,
}

/// The kinds of failure of deriving, decoding and verifying.
#[derive(Clone, Copy, Debug, PartialEq, Eq, Structural)]
pub enum SignerError {
    /// The recovery phrase failed word-list, length or checksum validation.
    InvalidMnemonic(MnemonicFault),
    /// A hex-encoded key or signature is not lowercase or uppercase hex of the
    /// expected length.
    MalformedInput,
    /// The inputs are well formed but the signature does not hold for them.
    VerificationFailed,
}

} // verus!
