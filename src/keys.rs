//! Derivation of an Ed25519 key pair from a recovery phrase.
use crate::error::{MnemonicFault, SignerError};
use crate::phrase::{
    all_separators, lemma_leading_separators, lemma_normalize_idempotent, lemma_separator_runs,
    lemma_trailing_separators, normalize_phrase, normalized,
};
use crate::secret::{SecretBytes, SecretText};
use vstd::prelude::*;

verus! {

/// Whether BIP-39 accepts `text` as an English phrase: known words, an allowed
/// word count and a matching checksum.
pub uninterp spec fn is_english_mnemonic(text: Seq<char>) -> bool;

/// The words that a parsed phrase holds, joined by single spaces.
pub uninterp spec fn mnemonic_phrase(m: bip39::Mnemonic) -> Seq<char>;

/// The 64-byte BIP-39 seed (PBKDF2 stretching, empty passphrase) of a phrase.
pub uninterp spec fn stretched_seed(phrase: Seq<char>) -> Seq<u8>;

/// The Ed25519 public key that a 32-byte seed expands to.
pub uninterp spec fn ed25519_public_key(seed: Seq<u8>) -> Seq<u8>;

#[verifier::external_type_specification]
#[verifier::external_body]
pub struct ExMnemonic(bip39::Mnemonic);

/// Relies on `bip39::Mnemonic::parse_in_normalized` with the English list. It
/// splits on whitespace, looks each word up exactly and checks the count and the
/// checksum; the parsed words are the input's own, so on text that is already in
/// normalized form they join back into that text.
#[verifier::external_body]
fn parse_english(text: &str) -> (r: Result<bip39::Mnemonic, MnemonicFault>)
    requires
        normalized(text@) == text@,
    ensures
        r is Ok <==> is_english_mnemonic(text@),
        r matches Ok(m) ==> mnemonic_phrase(m) == text@,
        r matches Err(f) ==> f != MnemonicFault::UnusableSeed,
{
    bip39::Mnemonic::parse_in_normalized(bip39::Language::English, text).map_err(|e| match e {
        bip39::Error::BadWordCount(n) => MnemonicFault::BadWordCount(n),
        bip39::Error::UnknownWord(i) => MnemonicFault::UnknownWord(i),
        bip39::Error::BadEntropyBitCount(n) => MnemonicFault::BadEntropyBitCount(n),
        bip39::Error::InvalidChecksum => MnemonicFault::InvalidChecksum,
        bip39::Error::AmbiguousLanguages(_) => MnemonicFault::AmbiguousLanguages,
    })
}

/// Relies on `bip39::Mnemonic::to_seed_normalized` with the empty passphrase.
#[verifier::external_body]
fn stretch(m: &bip39::Mnemonic) -> (r: [u8; 64])
    ensures
        r@ == stretched_seed(mnemonic_phrase(*m)),
{
    m.to_seed_normalized("")
}

/// Relies on `ed25519_compact::KeyPair::from_seed`, which panics on an all-zero
/// seed: the secret key is the seed followed by the public key.
#[verifier::external_body]
fn expand_seed(seed: &[u8; 32]) -> (r: ([u8; 32], [u8; 64]))
    requires
        !is_zero(seed@),
    ensures
        r.0@ == ed25519_public_key(seed@),
        r.1@ == seed@ + r.0@,
{
    let kp = ed25519_compact::KeyPair::from_seed(ed25519_compact::Seed::new(*seed));
    (*kp.pk, *kp.sk)
}

/// Every byte of `b` is zero.
pub open spec fn is_zero(b: Seq<u8>) -> bool {
    forall|i: int| 0 <= i < b.len() ==> #[trigger] b[i] == 0u8
}

/// The key seed of a phrase in normalized form: the first 32 bytes of its
/// stretched seed.
pub open spec fn phrase_key_seed(text: Seq<char>) -> Seq<u8> {
    stretched_seed(text).subrange(0, 32)
}

/// An Ed25519 key pair: a 32-byte public key and a 64-byte secret key, the seed
/// followed by the public key. The secret half is wiped when the pair is released.
pub struct KeyPair {
    public: [u8; 32],
    secret: SecretBytes<64>,
}

impl KeyPair {
    /// The 32-byte public key.
    pub closed spec fn public_view(&self) -> Seq<u8> {
        self.public@
    }

    /// The 64-byte secret key.
    pub closed spec fn secret_view(&self) -> Seq<u8> {
        self.secret.view()
    }

    /// This pair is what Ed25519 key generation makes of `seed`.
    pub open spec fn expands(&self, seed: Seq<u8>) -> bool {
        &&& seed.len() == 32
        &&& self.public_view() == ed25519_public_key(seed)
        &&& self.secret_view() == seed + self.public_view()
    }

    /// The public key.
    pub fn public_key(&self) -> (r: [u8; 32])
        ensures
            r@ == self.public_view(),
    {
        self.public
    }

    /// The secret key.
    pub fn secret_key(&self) -> (r: &[u8; 64])
        ensures
            r@ == self.secret_view(),
    {
        self.secret.bytes()
    }

    /// Expands a 32-byte seed into its key pair. Ed25519 refuses the all-zero seed.
    pub fn from_seed(seed: &[u8; 32]) -> (r: Option<KeyPair>)
        ensures
            r is Some <==> !is_zero(seed@),
            r matches Some(kp) ==> kp.expands(seed@),
    {
        let mut any: bool = false;
        for i in 0..32
            invariant
                any <==> exists|j: int| 0 <= j < i && seed@[j] != 0u8,
        {
            if seed[i] != 0 {
                any = true;
            }
        }
        if !any {
            return None;
        }
        let (public, secret) = expand_seed(seed);
        Some(KeyPair { public, secret: SecretBytes::new(secret) })
    }
}

/// The 32-byte key seed of `phrase`, if it has one: the phrase must be a valid
/// English phrase once normalized, and Ed25519 refuses an all-zero seed.
pub open spec fn derived_seed(phrase: Seq<char>) -> Option<Seq<u8>> {
    let text = normalized(phrase);
    if is_english_mnemonic(text) && !is_zero(phrase_key_seed(text)) {
        Some(phrase_key_seed(text))
    } else {
        None
    }
}

/// Derives the key pair of a recovery phrase: normalizes its whitespace, parses it
/// as an English BIP-39 phrase, stretches it with the empty passphrase, keeps the
/// first 32 bytes and expands them with Ed25519. The phrase, the seeds and the
/// secret key are wiped when released, on the error paths too.
pub fn derive_keypair(phrase: &str) -> (r: Result<KeyPair, SignerError>)
    ensures
        r is Ok <==> derived_seed(phrase@) is Some,
        r matches Ok(kp) ==> kp.expands(derived_seed(phrase@)->Some_0),
        !is_english_mnemonic(normalized(phrase@)) ==> (r matches Err(
            SignerError::InvalidMnemonic(f),
        ) && f != MnemonicFault::UnusableSeed),
        is_english_mnemonic(normalized(phrase@)) && r is Err ==> r == Err::<KeyPair, SignerError>(
            SignerError::InvalidMnemonic(MnemonicFault::UnusableSeed),
        ),
{
    let text = SecretText::new(normalize_phrase(phrase));
    proof {
        lemma_normalize_idempotent(phrase@);
    }
    let mnemonic = match parse_english(text.as_str()) {
        Ok(m) => m,
        Err(f) => return Err(SignerError::InvalidMnemonic(f)),
    };
    let stretched = SecretBytes::new(stretch(&mnemonic));
    let mut seed = SecretBytes::<32>::new([0u8; 32]);
    for i in 0..32
        invariant
            stretched.view() == stretched_seed(normalized(phrase@)),
            stretched.view().len() == 64,
            seed.view().len() == 32,
            forall|j: int| 0 <= j < i ==> seed.view()[j] == stretched.view()[j],
    {
        let b = stretched.bytes()[i];
        seed.set(i, b);
    }
    proof {
        assert(seed.view() =~= phrase_key_seed(normalized(phrase@)));
    }
    match KeyPair::from_seed(seed.bytes()) {
        Some(kp) => Ok(kp),
        None => Err(SignerError::InvalidMnemonic(MnemonicFault::UnusableSeed)),
    }
}

/// A key pair is fixed by its seed: two pairs expanded from one seed are equal,
/// byte for byte.
pub proof fn lemma_expansion_unique(a: &KeyPair, b: &KeyPair, seed: Seq<u8>)
    requires
        a.expands(seed),
        b.expands(seed),
    ensures
        a.public_view() == b.public_view(),
        a.secret_view() == b.secret_view(),
{
}

/// Derivation depends on the words alone: replacing any nonempty run of separators
/// by any other leaves the derived seed unchanged.
pub proof fn lemma_derivation_ignores_spacing(
    a: Seq<char>,
    w1: Seq<char>,
    w2: Seq<char>,
    b: Seq<char>,
)
    requires
        all_separators(w1),
        all_separators(w2),
        w1.len() > 0,
        w2.len() > 0,
    ensures
        derived_seed(a + w1 + b) == derived_seed(a + w2 + b),
{
    lemma_separator_runs(a, w1, w2, b);
}

/// Derivation depends on the words alone: separators before and after the phrase
/// leave the derived seed unchanged.
pub proof fn lemma_derivation_ignores_padding(w1: Seq<char>, s: Seq<char>, w2: Seq<char>)
    requires
        all_separators(w1),
        all_separators(w2),
    ensures
        derived_seed(w1 + s + w2) == derived_seed(s),
{
    lemma_trailing_separators(w1 + s, w2);
    lemma_leading_separators(w1, s);
}

/// Deriving from a phrase that is already normalized gives what deriving from the
/// raw phrase gives.
pub proof fn lemma_derivation_of_normalized(s: Seq<char>)
    ensures
        derived_seed(normalized(s)) == derived_seed(s),
{
    lemma_normalize_idempotent(s);
}

} // verus!
