//! What the exchanges' signatures are made of: HMAC-SHA256, lowercase
//! hexadecimal, and integers written in decimal.

use hmac::{Hmac, Mac};
use sha2::Sha256;
use vstd::prelude::*;
use vstd::utf8::encode_utf8;

verus! {

/// The HMAC-SHA256 authentication code of `message` under `key`.
pub uninterp spec fn hmac_sha256(key: Seq<u8>, message: Seq<u8>) -> Seq<u8>;

/// The character that stands for a value below sixteen in lowercase
/// hexadecimal.
pub open spec fn hex_digit(value: int) -> char {
    if value == 0 {
        '0'
    } else if value == 1 {
        '1'
    } else if value == 2 {
        '2'
    } else if value == 3 {
        '3'
    } else if value == 4 {
        '4'
    } else if value == 5 {
        '5'
    } else if value == 6 {
        '6'
    } else if value == 7 {
        '7'
    } else if value == 8 {
        '8'
    } else if value == 9 {
        '9'
    } else if value == 10 {
        'a'
    } else if value == 11 {
        'b'
    } else if value == 12 {
        'c'
    } else if value == 13 {
        'd'
    } else if value == 14 {
        'e'
    } else {
        'f'
    }
}

/// Bytes in lowercase hexadecimal: two digits for each byte, the high half
/// first.
pub open spec fn hex_text(bytes: Seq<u8>) -> Seq<char>
    decreases bytes.len(),
{
    if bytes.len() == 0 {
        Seq::empty()
    } else {
        hex_text(bytes.drop_last()) + seq![
            hex_digit(bytes.last() as int / 16),
            hex_digit(bytes.last() as int % 16),
        ]
    }
}

/// A natural number in decimal, without leading zeros.
pub open spec fn decimal_text(value: nat) -> Seq<char>
    decreases value,
{
    if value < 10 {
        seq![hex_digit(value as int)]
    } else {
        decimal_text(value / 10).push(hex_digit((value % 10) as int))
    }
}

/// An integer in decimal, with a minus sign in front if it is negative.
pub open spec fn signed_decimal_text(value: int) -> Seq<char> {
    if value < 0 {
        seq!['-'] + decimal_text((-value) as nat)
    } else {
        decimal_text(value as nat)
    }
}

/// The signature that the exchanges ask for: the HMAC-SHA256 code of
/// `message` under `secret`, in lowercase hexadecimal.
pub open spec fn signature_text(secret: Seq<u8>, message: Seq<u8>) -> Seq<char> {
    hex_text(hmac_sha256(secret, message))
}

/// Computes HMAC-SHA256 with `hmac::Hmac<sha2::Sha256>`: a fresh instance
/// keyed by `new_from_slice`, which takes a key of any length, fed the whole
/// message by one `update`, and closed by `finalize`. The code depends on key
/// and message alone and is 32 bytes long, the output size of SHA-256.
#[verifier::external_body]
fn hmac_sha256_code(key: &[u8], message: &[u8]) -> (code: Vec<u8>)
    ensures
        code@ == hmac_sha256(key@, message@),
        code@.len() == 32,
{
    let mut mac = Hmac::<Sha256>::new_from_slice(key).unwrap();
    mac.update(message);
    mac.finalize().into_bytes().to_vec()
}

/// `hex::encode` writes each byte as two lowercase hexadecimal digits, the
/// high half first, and nothing else.
#[verifier::external_body]
fn hex_encode(bytes: &[u8]) -> (text: String)
    ensures
        text@ == hex_text(bytes@),
{
    hex::encode(bytes)
}

/// `to_string` on a `u128` writes the number in decimal, without sign or
/// leading zeros.
#[verifier::external_body]
fn u128_to_string(value: u128) -> (text: String)
    ensures
        text@ == decimal_text(value as nat),
{
    value.to_string()
}

/// `to_string` on an `i32` writes the number in decimal, with a minus sign
/// in front if it is negative.
#[verifier::external_body]
fn i32_to_string(value: i32) -> (text: String)
    ensures
        text@ == signed_decimal_text(value as int),
{
    value.to_string()
}

/// A number of milliseconds, or any other unsigned number, in decimal.
pub fn decimal(value: u128) -> (text: String)
    ensures
        text@ == decimal_text(value as nat),
{
    u128_to_string(value)
}

/// A signed number in decimal.
pub fn signed_decimal(value: i32) -> (text: String)
    ensures
        text@ == signed_decimal_text(value as int),
{
    i32_to_string(value)
}

/// Signs `message` with `secret`.
pub fn sign_bytes(secret: &str, message: &[u8]) -> (signature: String)
    ensures
        signature@ == signature_text(encode_utf8(secret@), message@),
        signature@.len() == 64,
{
    let code = hmac_sha256_code(secret.as_bytes(), message);
    proof {
        lemma_hex_text_len(code@);
    }
    hex_encode(code.as_slice())
}

/// Signs the text `message` with `secret`.
pub fn sign(secret: &str, message: &str) -> (signature: String)
    ensures
        signature@ == signature_text(encode_utf8(secret@), encode_utf8(message@)),
        signature@.len() == 64,
{
    sign_bytes(secret, message.as_bytes())
}

/// Hexadecimal text is twice as long as the bytes it stands for.
pub proof fn lemma_hex_text_len(bytes: Seq<u8>)
    ensures
        hex_text(bytes).len() == 2 * bytes.len(),
    decreases bytes.len(),
{
    if bytes.len() > 0 {
        lemma_hex_text_len(bytes.drop_last());
    }
}

} // verus!
