use crypto_botters::clock::unix_time;
use crypto_botters::signing::{decimal, sign, sign_bytes, signed_decimal};
use std::time::Duration;

#[test]
fn hmac_sha256_known_answers() {
    assert_eq!(
        sign("key", "The quick brown fox jumps over the lazy dog"),
        "f7bc83f430538424b13298e6aa6fb143ef4d59a14946175997479dbc2d1a3cd8"
    );
    assert_eq!(sign("", ""), "b613679a0814d9ec772f95d778c35fc5ff1697c493715653c6c712144292c5ad");
    assert_eq!(
        sign_bytes("Jefe", b"what do ya want for nothing?"),
        "5bdcc146bf60754e6a042426089575c75a003f089d2739839dec58b964ec3843"
    );
}

#[test]
fn signature_is_lowercase_hexadecimal_of_32_bytes() {
    let signature = sign("secret", "message");
    assert_eq!(signature.len(), 64);
    assert!(signature.chars().all(|c| c.is_ascii_digit() || ('a'..='f').contains(&c)));
    assert_ne!(signature, sign("secret", "message."));
    assert_ne!(signature, sign("secret.", "message"));
}

#[test]
fn sign_takes_text_by_its_bytes() {
    assert_eq!(sign("ключ", "данные"), sign_bytes("ключ", "данные".as_bytes()));
}

#[test]
fn decimal_writes_numbers_without_leading_zeros() {
    assert_eq!(decimal(0), "0");
    assert_eq!(decimal(7), "7");
    assert_eq!(decimal(10), "10");
    assert_eq!(decimal(1499827319559), "1499827319559");
    assert_eq!(decimal(u128::MAX), "340282366920938463463374607431768211455");
}

#[test]
fn signed_decimal_writes_the_sign_of_negative_numbers() {
    assert_eq!(signed_decimal(0), "0");
    assert_eq!(signed_decimal(5000), "5000");
    assert_eq!(signed_decimal(-1), "-1");
    assert_eq!(signed_decimal(i32::MAX), "2147483647");
    assert_eq!(signed_decimal(i32::MIN), "-2147483648");
}

#[test]
fn the_clock_stands_after_the_epoch() {
    let first = unix_time();
    let second = unix_time();
    // 2020-01-01
    assert!(first > Duration::from_secs(1_577_836_800));
    assert!(second >= first);
}
