use ceremony_signer::encoding::encode_hex;
use ceremony_signer::error::SignerError;
use ceremony_signer::keys::derive_keypair;
use ceremony_signer::session::Context;
use ceremony_signer::signing::{sign, verify, verify_hex};

const ZERO_12: &str = "abandon abandon abandon abandon abandon abandon abandon abandon abandon abandon abandon about";
const ZERO_24: &str = "abandon abandon abandon abandon abandon abandon abandon abandon abandon abandon abandon abandon abandon abandon abandon abandon abandon abandon abandon abandon abandon abandon abandon art";
const HELLO_SIGNATURE: &str = "0b32d35df4d2b7a8b2076cc636e25077f894e430ed677c7a7d984eb4ed0b6e834ca0e93a31137e2c1358599e31494260550d555454137ae6480b5641487e4c0a";

#[test]
fn golden_signature_of_hello() {
    let ctx = Context::new(ZERO_12).unwrap();
    assert_eq!(ctx.sign_message("hello"), HELLO_SIGNATURE);
}

#[test]
fn signing_is_deterministic() {
    let kp = derive_keypair(ZERO_12).unwrap();
    assert_eq!(sign(&kp, b"challenge"), sign(&kp, b"challenge"));
    assert_ne!(sign(&kp, b"challenge"), sign(&kp, b"challenge!"));
}

#[test]
fn signature_verifies_for_its_message() {
    let kp = derive_keypair(ZERO_12).unwrap();
    let messages: [&[u8]; 5] = [b"", b"hello", b"a\0b", "h\u{e9}llo \u{2603}".as_bytes(), &[0xff, 0x00, 0x80]];
    for m in messages {
        let sig = sign(&kp, m);
        assert_eq!(verify(&kp.public_key(), m, &sig), Ok(()));
    }
}

#[test]
fn session_round_trip_through_hex() {
    let ctx = Context::new(ZERO_12).unwrap();
    for m in ["", "hello", "nul\0inside", "\u{1f600} \u{e9}"] {
        let sig = ctx.sign_message(m);
        assert_eq!(sig.len(), 128);
        assert_eq!(Context::verify_message(&ctx.show_pubkey(), m, &sig), Ok(()));
    }
}

#[test]
fn signature_for_other_message_fails() {
    let kp = derive_keypair(ZERO_12).unwrap();
    let sig = sign(&kp, b"hello");
    assert_eq!(verify(&kp.public_key(), b"hellp", &sig), Err(SignerError::VerificationFailed));
    assert_eq!(verify(&kp.public_key(), b"", &sig), Err(SignerError::VerificationFailed));
}

#[test]
fn wrong_public_key_fails_verification() {
    let signer = Context::new(ZERO_12).unwrap();
    let other = Context::new(ZERO_24).unwrap();
    let sig = signer.sign_message("hello");
    assert_eq!(
        Context::verify_message(&other.show_pubkey(), "hello", &sig),
        Err(SignerError::VerificationFailed)
    );
    assert_eq!(Context::verify_message(&signer.show_pubkey(), "hello", &sig), Ok(()));
}

#[test]
fn tampered_signature_fails_verification() {
    let kp = derive_keypair(ZERO_12).unwrap();
    let mut sig = sign(&kp, b"hello");
    sig[10] ^= 1;
    assert_eq!(verify(&kp.public_key(), b"hello", &sig), Err(SignerError::VerificationFailed));
}

#[test]
fn malformed_hex_is_malformed_input() {
    let kp = derive_keypair(ZERO_12).unwrap();
    let pk = encode_hex(&kp.public_key());
    let sig = encode_hex(&sign(&kp, b"hello"));
    assert_eq!(verify_hex(&pk, b"hello", &sig), Ok(()));
    assert_eq!(verify_hex(&pk[..63], b"hello", &sig), Err(SignerError::MalformedInput));
    assert_eq!(verify_hex(&pk[..62], b"hello", &sig), Err(SignerError::MalformedInput));
    assert_eq!(verify_hex(&pk, b"hello", &sig[..126]), Err(SignerError::MalformedInput));
    let bad = format!("zz{}", &pk[2..]);
    assert_eq!(verify_hex(&bad, b"hello", &sig), Err(SignerError::MalformedInput));
    let long = format!("{}00", sig);
    assert_eq!(verify_hex(&pk, b"hello", &long), Err(SignerError::MalformedInput));
    assert_eq!(verify_hex("", b"hello", ""), Err(SignerError::MalformedInput));
}

#[test]
fn malformed_hex_wins_over_bad_signature() {
    let kp = derive_keypair(ZERO_12).unwrap();
    let pk = encode_hex(&kp.public_key());
    let sig = encode_hex(&sign(&kp, b"other"));
    assert_eq!(verify_hex(&pk, b"hello", &sig), Err(SignerError::VerificationFailed));
    assert_eq!(verify_hex(&pk, b"hello", &sig[1..]), Err(SignerError::MalformedInput));
}

#[test]
fn uppercase_hex_is_accepted_for_verification() {
    let kp = derive_keypair(ZERO_12).unwrap();
    let pk = encode_hex(&kp.public_key()).to_uppercase();
    let sig = encode_hex(&sign(&kp, b"hello")).to_uppercase();
    assert_eq!(verify_hex(&pk, b"hello", &sig), Ok(()));
}
