//! A session: the one key pair derived from the phrase entered at its start.
use crate::encoding::{encode_hex, hex_decoding, hex_encoding, is_hex_of_len};
use crate::error::SignerError;
use crate::keys::{derive_keypair, derived_seed, KeyPair};
use crate::signing::{ed25519_accepts, ed25519_signature, sign, verify_hex};
use vstd::prelude::*;
use vstd::string::StringSliceAdditionalSpecFns;

verus! {

/// The key pair of a session, held in memory only and wiped when the session ends.
pub struct Context {
    keypair: KeyPair,
}

impl Context {
    /// The session's key pair.
    pub closed spec fn keys(&self) -> &KeyPair {
        &self.keypair
    }

    /// Starts a session from the recovery phrase `mnemonic_input`, as typed: runs
    /// of whitespace are collapsed before the phrase is parsed.
    pub fn new(mnemonic_input: &str) -> (r: Result<Context, SignerError>)
        ensures
            r is Ok <==> derived_seed(mnemonic_input@) is Some,
            r matches Ok(c) ==> c.keys().expands(derived_seed(mnemonic_input@)->Some_0),
            r is Err ==> r->Err_0 is InvalidMnemonic,
    {
        match derive_keypair(mnemonic_input) {
            Ok(keypair) => Ok(Context { keypair }),
            Err(e) => Err(e),
        }
    }

    /// The session's key pair.
    pub fn keypair(&self) -> (r: &KeyPair)
        ensures
            r == self.keys(),
    {
        &self.keypair
    }

    /// The public key as lowercase hex.
    pub fn show_pubkey(&self) -> (r: String)
        ensures
            r@ == hex_encoding(self.keys().public_view()),
    {
        let pk = self.keypair.public_key();
        encode_hex(&pk)
    }

    /// Signs the UTF-8 bytes of `message`; the signature as lowercase hex.
    pub fn sign_message(&self, message: &str) -> (r: String)
        ensures
            r@ == hex_encoding(ed25519_signature(self.keys().secret_view(), message.spec_bytes())),
    {
        let sig = sign(&self.keypair, message.as_bytes());
        encode_hex(&sig)
    }

    /// Checks a hex signature over the UTF-8 bytes of `message` under a hex public
    /// key; neither needs this session's keys.
    pub fn verify_message(public_key_hex: &str, message: &str, signature_hex: &str) -> (r: Result<
        (),
        SignerError,
    >)
        ensures
            !is_hex_of_len(public_key_hex@, 32) || !is_hex_of_len(signature_hex@, 64) ==> r
                == Err::<(), SignerError>(SignerError::MalformedInput),
            is_hex_of_len(public_key_hex@, 32) && is_hex_of_len(signature_hex@, 64) ==> {
                &&& r is Ok <==> ed25519_accepts(
                    hex_decoding(public_key_hex@),
                    message.spec_bytes(),
                    hex_decoding(signature_hex@),
                )
                &&& r is Err ==> r == Err::<(), SignerError>(SignerError::VerificationFailed)
            },
    {
        verify_hex(public_key_hex, message.as_bytes(), signature_hex)
    }
}

} // verus!
