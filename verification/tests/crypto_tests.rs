use webull_rs::error::WebullError;
use webull_rs::utils::crypto::{
    decrypt_data, encrypt_password, generate_device_id, generate_signature, generate_timestamp,
    timestamp_of,
};
use webull_rs::utils::text::{chain, chain3, join, to_decimal};

#[test]
fn decimal_of_numbers() {
    assert_eq!(to_decimal(0), "0");
    assert_eq!(to_decimal(7), "7");
    assert_eq!(to_decimal(10), "10");
    assert_eq!(to_decimal(500), "500");
    assert_eq!(to_decimal(1_234_567_890), "1234567890");
    assert_eq!(to_decimal(u128::MAX), "340282366920938463463374607431768211455");
}

#[test]
fn texts_are_put_together() {
    assert_eq!(chain("ab", "cd"), "abcd");
    assert_eq!(chain("", ""), "");
    assert_eq!(chain3("a", "/", "b"), "a/b");
    assert_eq!(join(&[], ","), "");
    assert_eq!(join(&["AAPL"], ","), "AAPL");
    assert_eq!(join(&["AAPL", "MSFT", "TSLA"], ","), "AAPL,MSFT,TSLA");
    assert_eq!(join(&["", ""], "--"), "--");
}

#[test]
fn signature_is_hmac_sha256_in_base64() {
    assert_eq!(
        generate_signature("key", "The quick brown fox jumps over the lazy dog"),
        Ok("97yD9DBThCSxMpjmqm+xQ+9NWaFJRhdZl0edvC0aPNg=".to_string())
    );
    assert_ne!(generate_signature("key", "a"), generate_signature("key", "b"));
    assert_ne!(generate_signature("k1", "a"), generate_signature("k2", "a"));
    assert!(generate_signature("", "").is_ok());
    let long_key = "k".repeat(200);
    assert_eq!(generate_signature(&long_key, "m").unwrap().len(), 44);
}

#[test]
fn password_is_base64_whatever_the_key() {
    assert_eq!(encrypt_password("hunter2", "k"), Ok("aHVudGVyMg==".to_string()));
    assert_eq!(encrypt_password("hunter2", ""), Ok("aHVudGVyMg==".to_string()));
    assert_eq!(encrypt_password("", "k"), Ok(String::new()));
}

#[test]
fn decrypt_inverts_encrypt() {
    for text in ["", "hello world", "pässwörd ✓", "a"] {
        let sealed = encrypt_password(text, "k").unwrap();
        assert_eq!(decrypt_data(&sealed, "other"), Ok(text.to_string()));
    }
    assert_eq!(decrypt_data("aGVsbG8gd29ybGQ=", ""), Ok("hello world".to_string()));
}

#[test]
fn decrypt_rejects_what_is_not_base64_or_not_utf8() {
    assert!(matches!(decrypt_data("not base64!", "k"), Err(WebullError::InvalidRequest(_))));
    assert!(matches!(decrypt_data("//4=", "k"), Err(WebullError::InvalidRequest(_))));
    match decrypt_data("***", "k") {
        Err(WebullError::InvalidRequest(why)) => assert!(why.starts_with("Invalid data: ")),
        other => panic!("{:?}", other),
    }
    match decrypt_data("//4=", "k") {
        Err(WebullError::InvalidRequest(why)) => assert!(why.starts_with("Invalid UTF-8: ")),
        other => panic!("{:?}", other),
    }
}

#[test]
fn device_id_is_sixteen_bytes_in_base64() {
    let id = generate_device_id();
    assert_eq!(id.len(), 24);
    assert_eq!(base64::decode(&id).unwrap().len(), 16);
    assert_ne!(generate_device_id(), generate_device_id());
}

#[test]
fn timestamp_is_the_milliseconds_in_decimal() {
    assert_eq!(timestamp_of(1_700_000_000_000), "1700000000000");
    assert_eq!(timestamp_of(0), "0");
    let text = generate_timestamp();
    let millis: u128 = text.parse().unwrap();
    assert!(millis > 1_600_000_000_000);
    assert_eq!(to_decimal(millis), text);
}
