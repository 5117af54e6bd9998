use ceremony_signer::encoding::{decode_hex, encode_hex};
use ceremony_signer::error::SignerError;

#[test]
fn encode_is_lowercase_pairs() {
    assert_eq!(encode_hex(&[]), "");
    assert_eq!(encode_hex(&[0x00, 0x0f, 0xa0, 0xff]), "000fa0ff");
    assert_eq!(encode_hex(b"kiwi"), "6b697769");
}

#[test]
fn round_trip_32_and_64_bytes() {
    let mut a = [0u8; 32];
    let mut b = [0u8; 64];
    for i in 0..32 {
        a[i] = (i as u8).wrapping_mul(37).wrapping_add(200);
    }
    for i in 0..64 {
        b[i] = (i as u8).wrapping_mul(91) ^ 0x5a;
    }
    let ta = encode_hex(&a);
    let tb = encode_hex(&b);
    assert_eq!(ta.len(), 64);
    assert_eq!(tb.len(), 128);
    assert!(ta.chars().chain(tb.chars()).all(|c| c.is_ascii_digit() || ('a'..='f').contains(&c)));
    assert_eq!(decode_hex::<32>(&ta), Ok(a));
    assert_eq!(decode_hex::<64>(&tb), Ok(b));
    assert_eq!(decode_hex::<32>(&"ff".repeat(32)), Ok([0xff; 32]));
}

#[test]
fn decode_accepts_either_case() {
    assert_eq!(decode_hex::<4>("6B69dEaD"), Ok([0x6b, 0x69, 0xde, 0xad]));
}

#[test]
fn decode_rejects_malformed_text() {
    assert_eq!(decode_hex::<2>("abc"), Err(SignerError::MalformedInput));
    assert_eq!(decode_hex::<2>("abcg"), Err(SignerError::MalformedInput));
    assert_eq!(decode_hex::<2>("ab cd"), Err(SignerError::MalformedInput));
    assert_eq!(decode_hex::<2>("0xab"), Err(SignerError::MalformedInput));
    assert_eq!(decode_hex::<2>("abcdef"), Err(SignerError::MalformedInput));
    assert_eq!(decode_hex::<2>("ab"), Err(SignerError::MalformedInput));
    assert_eq!(decode_hex::<2>("\u{e9}a"), Err(SignerError::MalformedInput));
    assert_eq!(decode_hex::<32>(""), Err(SignerError::MalformedInput));
}
