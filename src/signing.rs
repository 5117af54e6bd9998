//! Detached Ed25519 signatures and their verification.
use crate::encoding::{decode_hex, hex_decoding, is_hex_of_len};
use crate::error::SignerError;
use crate::keys::KeyPair;
use vstd::prelude::*;

verus! {

/// The Ed25519 signature that a 64-byte secret key makes over a message, with the
/// nonce derived from the key and the message alone.
pub uninterp spec fn ed25519_signature(secret: Seq<u8>, message: Seq<u8>) -> Seq<u8>;

/// Whether Ed25519 verification accepts a signature over a message under a public key.
pub uninterp spec fn ed25519_accepts(public: Seq<u8>, message: Seq<u8>, signature: Seq<u8>) -> bool;

/// Relies on `ed25519_compact::SecretKey::sign` without noise, which derives the
/// nonce from the key and the message: the signature depends on them alone.
#[verifier::external_body]
fn ed25519_sign(secret: &[u8; 64], message: &[u8]) -> (r: [u8; 64])
    ensures
        r@ == ed25519_signature(secret@, message@),
{
    let sk = ed25519_compact::SecretKey::new(*secret);
    *sk.sign(message, None)
}

/// Relies on `ed25519_compact::PublicKey::verify`.
#[verifier::external_body]
fn ed25519_verify(public: &[u8; 32], message: &[u8], signature: &[u8; 64]) -> (r: bool)
    ensures
        r == ed25519_accepts(public@, message@, signature@),
{
    let sig = ed25519_compact::Signature::new(*signature);
    ed25519_compact::PublicKey::new(*public).verify(message, &sig).is_ok()
}

/// Signs `message` with the secret half of `keypair`. The same pair and message
/// always give the same signature.
pub fn sign(keypair: &KeyPair, message: &[u8]) -> (r: [u8; 64])
    ensures
        r@ == ed25519_signature(keypair.secret_view(), message@),
{
    ed25519_sign(keypair.secret_key(), message)
}

/// Checks `signature` over `message` under `public_key`.
pub fn verify(public_key: &[u8; 32], message: &[u8], signature: &[u8; 64]) -> (r: Result<
    (),
    SignerError,
>)
    ensures
        r is Ok <==> ed25519_accepts(public_key@, message@, signature@),
        r is Err ==> r == Err::<(), SignerError>(SignerError::VerificationFailed),
{
    if ed25519_verify(public_key, message, signature) {
        Ok(())
    } else {
        Err(SignerError::VerificationFailed)
    }
}

/// Checks a signature given as hex text over `message` under a public key given as
/// hex text. Text that is not hex of the right length is `MalformedInput`, before
/// any verification.
pub fn verify_hex(public_key_hex: &str, message: &[u8], signature_hex: &str) -> (r: Result<
    (),
    SignerError,
>)
    ensures
        !is_hex_of_len(public_key_hex@, 32) || !is_hex_of_len(signature_hex@, 64) ==> r == Err::<
            (),
            SignerError,
        >(SignerError::MalformedInput),
        is_hex_of_len(public_key_hex@, 32) && is_hex_of_len(signature_hex@, 64) ==> {
            &&& r is Ok <==> ed25519_accepts(
                hex_decoding(public_key_hex@),
                message@,
                hex_decoding(signature_hex@),
            )
            &&& r is Err ==> r == Err::<(), SignerError>(SignerError::VerificationFailed)
        },
{
    let public_key = match decode_hex::<32>(public_key_hex) {
        Ok(b) => b,
        Err(e) => return Err(e),
    };
    let signature = match decode_hex::<64>(signature_hex) {
        Ok(b) => b,
        Err(e) => return Err(e),
    };
    verify(&public_key, message, &signature)
}

} // verus!
