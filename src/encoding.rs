//! Hexadecimal text for public keys and signatures.
use crate::error::SignerError;
use vstd::prelude::*;

verus! {

/// The sixteen lowercase hexadecimal digits, in order of value.
pub open spec fn lower_hex_digits() -> Seq<char> {
    seq!['0', '1', '2', '3', '4', '5', '6', '7', '8', '9', 'a', 'b', 'c', 'd', 'e', 'f']
}

/// Lowercase hex of `b`: two digits per byte, high half first, no prefix or separator.
pub open spec fn hex_encoding(b: Seq<u8>) -> Seq<char> {
    Seq::new(
        2 * b.len(),
        |i: int|
            if i % 2 == 0 {
                lower_hex_digits()[b[i / 2] as int / 16]
            } else {
                lower_hex_digits()[b[i / 2] as int % 16]
            },
    )
}

/// `c` is a hexadecimal digit, in either case.
pub open spec fn is_hex_digit(c: char) -> bool {
    let u = c as u32;
    ||| 0x30 <= u <= 0x39
    ||| 0x61 <= u <= 0x66
    ||| 0x41 <= u <= 0x46
}

/// The value of the hexadecimal digit `c`.
pub open spec fn hex_digit_value(c: char) -> int {
    let u = c as u32;
    if u <= 0x39 {
        u - 0x30
    } else if u >= 0x61 {
        u - 0x61 + 10
    } else {
        u - 0x41 + 10
    }
}

/// `t` is hex text for exactly `n` bytes.
pub open spec fn is_hex_of_len(t: Seq<char>, n: nat) -> bool {
    &&& t.len() == 2 * n
    &&& forall|i: int| 0 <= i < t.len() ==> is_hex_digit(#[trigger] t[i])
}

/// The bytes that the hex text `t` spells, two digits to a byte.
pub open spec fn hex_decoding(t: Seq<char>) -> Seq<u8> {
    Seq::new(
        t.len() / 2,
        |i: int| (16 * hex_digit_value(t[2 * i]) + hex_digit_value(t[2 * i + 1])) as u8,
    )
}

/// Relies on `hex::encode`: lowercase digits, two per byte, high half first.
#[verifier::external_body]
fn hex_encode(bytes: &[u8]) -> (r: String)
    ensures
        r@ == hex_encoding(bytes@),
{
    hex::encode(bytes)
}

#[verifier::external_type_specification]
#[verifier::external_body]
pub struct ExFromHexError(hex::FromHexError);

/// Relies on `hex::decode_to_slice`: it succeeds exactly when the text has two
/// digits (of either case) for each byte of the output, and then writes the bytes
/// that the digits spell.
#[verifier::external_body]
fn hex_decode<const N: usize>(text: &str) -> (r: Result<[u8; N], hex::FromHexError>)
    ensures
        r is Ok <==> is_hex_of_len(text@, N as nat),
        r matches Ok(b) ==> b@ == hex_decoding(text@),
{
    let mut out = [0u8; N];
    hex::decode_to_slice(text, &mut out).map(|()| out)
}

/// Lowercase hex of `bytes`.
pub fn encode_hex(bytes: &[u8]) -> (r: String)
    ensures
        r@ == hex_encoding(bytes@),
{
    hex_encode(bytes)
}

/// Decodes hex text, of either case, for exactly `N` bytes.
pub fn decode_hex<const N: usize>(text: &str) -> (r: Result<[u8; N], SignerError>)
    ensures
        r is Ok <==> is_hex_of_len(text@, N as nat),
        r matches Ok(b) ==> b@ == hex_decoding(text@),
        r matches Err(e) ==> e == SignerError::MalformedInput,
{
    match hex_decode::<N>(text) {
        Ok(b) => Ok(b),
        Err(_) => Err(SignerError::MalformedInput),
    }
}

/// Every character of `t` is a lowercase hexadecimal digit.
pub open spec fn is_lower_hex(t: Seq<char>) -> bool {
    forall|i: int| 0 <= i < t.len() ==> lower_hex_digits().contains(#[trigger] t[i])
}

proof fn lemma_digit_value(n: int)
    requires
        0 <= n < 16,
    ensures
        is_hex_digit(lower_hex_digits()[n]),
        hex_digit_value(lower_hex_digits()[n]) == n,
{
    let d = lower_hex_digits();
    assert(d[0] == '0' && d[1] == '1' && d[2] == '2' && d[3] == '3');
    assert(d[4] == '4' && d[5] == '5' && d[6] == '6' && d[7] == '7');
    assert(d[8] == '8' && d[9] == '9' && d[10] == 'a' && d[11] == 'b');
    assert(d[12] == 'c' && d[13] == 'd' && d[14] == 'e' && d[15] == 'f');
}

/// Hex encoding is lowercase, two digits per byte, and decoding it gives back the bytes.
pub proof fn lemma_hex_round_trip(b: Seq<u8>)
    ensures
        is_hex_of_len(hex_encoding(b), b.len()),
        is_lower_hex(hex_encoding(b)),
        hex_decoding(hex_encoding(b)) == b,
{
    let t = hex_encoding(b);
    assert forall|i: int| 0 <= i < t.len() implies is_hex_digit(#[trigger] t[i])
        && lower_hex_digits().contains(t[i]) by {
        let n = if i % 2 == 0 {
            b[i / 2] as int / 16
        } else {
            b[i / 2] as int % 16
        };
        lemma_digit_value(n);
        assert(t[i] == lower_hex_digits()[n]);
    }
    assert forall|j: int| 0 <= j < b.len() implies #[trigger] hex_decoding(t)[j] == b[j] by {
        let hi = b[j] as int / 16;
        let lo = b[j] as int % 16;
        lemma_digit_value(hi);
        lemma_digit_value(lo);
        assert(t[2 * j] == lower_hex_digits()[hi]);
        assert(t[2 * j + 1] == lower_hex_digits()[lo]);
    }
    assert(hex_decoding(t) =~= b);
}

} // verus!
