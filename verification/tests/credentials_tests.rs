use webull_rs::auth::{AccessToken, Credentials};
use webull_rs::error::WebullError;
use webull_rs::utils::credentials::{
    CredentialStore, EncryptedCredentialStore, MemoryCredentialStore, StoredCredentials,
    StoredToken,
};

fn store() -> EncryptedCredentialStore {
    EncryptedCredentialStore::new("creds.json".to_string(), "token.json".to_string(), "key".to_string())
}

fn credentials() -> Credentials {
    Credentials { username: "alice".to_string(), password: "hunter2".to_string() }
}

#[test]
fn memory_store_keeps_credentials_and_token_apart() {
    let mut store = MemoryCredentialStore::default();
    assert_eq!(store.get_credentials(), Ok(None));
    assert_eq!(store.get_token(), Ok(None));
    let token = AccessToken { token: "t".to_string(), expires_at: 9, refresh_token: None };
    assert_eq!(store.store_credentials(credentials()), Ok(()));
    assert_eq!(store.store_token(token.clone()), Ok(()));
    assert_eq!(store.get_credentials(), Ok(Some(credentials())));
    assert_eq!(store.get_token(), Ok(Some(token.clone())));
    assert_eq!(store.clear_credentials(), Ok(()));
    assert_eq!(store.get_credentials(), Ok(None));
    assert_eq!(store.get_token(), Ok(Some(token)));
    assert_eq!(store.clear_token(), Ok(()));
    assert_eq!(store.get_token(), Ok(None));
    assert_eq!(MemoryCredentialStore::new().get_credentials(), Ok(None));
}

#[test]
fn new_store_has_nothing_in_memory() {
    let store = store();
    assert_eq!(store.credentials_path, "creds.json");
    assert_eq!(store.token_path, "token.json");
    assert_eq!(store.encryption_key, "key");
    assert_eq!(store.memory_store.get_credentials(), Ok(None));
    assert_eq!(store.memory_store.get_token(), Ok(None));
}

#[test]
fn random_strings_are_letters_and_digits() {
    let store = store();
    assert_eq!(store.generate_random_string(0), "");
    let text = store.generate_random_string(64);
    assert_eq!(text.len(), 64);
    assert!(text.chars().all(|c| c.is_ascii_alphanumeric()));
    assert_ne!(store.generate_random_string(32), store.generate_random_string(32));
}

#[test]
fn derived_key_xors_password_and_salt_in_turn() {
    let key = store().derive_key("key", "salty").unwrap();
    assert_eq!(
        key,
        vec![
            24, 4, 21, 31, 28, 10, 10, 9, 13, 18, 22, 24, 7, 17, 0, 24, 4, 21, 31, 28, 10, 10, 9,
            13, 18, 22, 24, 7, 17, 0, 24, 4
        ]
    );
    assert_eq!(store().derive_key("a", "a"), Ok(vec![0u8; 32]));
}

#[test]
fn encryption_is_base64_whatever_key_and_iv() {
    let store = store();
    assert_eq!(store.encrypt_with_key("hello world", &[1, 2, 3], "iv"), Ok("aGVsbG8gd29ybGQ=".to_string()));
    assert_eq!(store.encrypt_with_key("hello world", &[], ""), Ok("aGVsbG8gd29ybGQ=".to_string()));
    assert_eq!(store.decrypt_with_key("aGVsbG8gd29ybGQ=", &[9], "x"), Ok("hello world".to_string()));
    assert!(matches!(store.decrypt_with_key("?", &[], ""), Err(WebullError::InvalidRequest(_))));
    assert!(matches!(store.decrypt_with_key("//4=", &[], ""), Err(WebullError::InvalidRequest(_))));
}

#[test]
fn sealed_text_opens_to_itself() {
    let store = store();
    let sealed = store.encrypt("pässwörd").unwrap();
    assert_eq!(sealed.iv.len(), 16);
    assert_eq!(sealed.salt.len(), 16);
    assert_ne!(sealed.iv, sealed.salt);
    assert_eq!(store.decrypt(&sealed.encrypted, &sealed.iv, &sealed.salt), Ok("pässwörd".to_string()));
}

#[test]
fn credentials_survive_sealing_and_opening() {
    let store = store();
    let stored = store.save_credentials(&credentials()).unwrap();
    assert_eq!(stored.encrypted_username, "YWxpY2U=");
    assert_eq!(stored.encrypted_password, "aHVudGVyMg==");
    assert_eq!(stored.iv.len(), 16);
    assert_eq!(stored.salt.len(), 16);
    assert_eq!(store.load_credentials(&stored), Ok(credentials()));
}

#[test]
fn credentials_that_do_not_open_are_an_invalid_request() {
    let stored = StoredCredentials {
        encrypted_username: "YWxpY2U=".to_string(),
        encrypted_password: "%%%".to_string(),
        iv: "i".to_string(),
        salt: "s".to_string(),
    };
    assert!(matches!(store().load_credentials(&stored), Err(WebullError::InvalidRequest(_))));
}

#[test]
fn token_is_stored_with_its_expiry_in_whole_seconds() {
    let store = store();
    let token = AccessToken {
        token: "tok".to_string(),
        expires_at: 1_700_000_000_999,
        refresh_token: Some("ref".to_string()),
    };
    let stored = store.save_token(&token).unwrap();
    assert_eq!(stored.encrypted_token, "dG9r");
    assert_eq!(stored.encrypted_refresh_token, Some("cmVm".to_string()));
    assert_eq!(stored.expires_at, 1_700_000_000);
    let opened = store.load_token(&stored).unwrap();
    assert_eq!(
        opened,
        AccessToken {
            token: "tok".to_string(),
            expires_at: 1_700_000_000_000,
            refresh_token: Some("ref".to_string()),
        }
    );
}

#[test]
fn expiry_before_the_epoch_is_rounded_down() {
    let store = store();
    let token = AccessToken { token: "t".to_string(), expires_at: -1, refresh_token: None };
    let stored = store.save_token(&token).unwrap();
    assert_eq!(stored.expires_at, -1);
    assert_eq!(stored.encrypted_refresh_token, None);
    let exact = AccessToken { token: "t".to_string(), expires_at: -2_000, refresh_token: None };
    assert_eq!(store.save_token(&exact).unwrap().expires_at, -2);
    let early = AccessToken { token: "t".to_string(), expires_at: -2_001, refresh_token: None };
    assert_eq!(store.save_token(&early).unwrap().expires_at, -3);
    let zero = AccessToken { token: "t".to_string(), expires_at: 999, refresh_token: None };
    assert_eq!(store.save_token(&zero).unwrap().expires_at, 0);
    assert_eq!(store.load_token(&stored).unwrap().expires_at, -1_000);
}

#[test]
fn token_with_an_expiry_that_is_no_moment_is_an_invalid_request() {
    let stored = StoredToken {
        encrypted_token: "dG9r".to_string(),
        encrypted_refresh_token: None,
        expires_at: i64::MAX,
        iv: "i".to_string(),
        salt: "s".to_string(),
    };
    assert_eq!(
        store().load_token(&stored),
        Err(WebullError::InvalidRequest("Invalid timestamp".to_string()))
    );
    let bad_refresh = StoredToken {
        encrypted_token: "dG9r".to_string(),
        encrypted_refresh_token: Some("!".to_string()),
        expires_at: 0,
        iv: "i".to_string(),
        salt: "s".to_string(),
    };
    assert!(matches!(store().load_token(&bad_refresh), Err(WebullError::InvalidRequest(_))));
}

#[test]
fn memory_is_asked_before_the_file() {
    let mut store = store();
    assert_eq!(store.get_credentials(None), Ok(None));
    let on_disk = store.save_credentials(&credentials()).unwrap();
    assert_eq!(store.get_credentials(Some(&on_disk)), Ok(Some(credentials())));
    assert_eq!(store.memory_store.get_credentials(), Ok(Some(credentials())));
    let other = Credentials { username: "bob".to_string(), password: "pw".to_string() };
    let other_on_disk = store.save_credentials(&other).unwrap();
    assert_eq!(store.get_credentials(Some(&other_on_disk)), Ok(Some(credentials())));
    assert_eq!(store.get_credentials(None), Ok(Some(credentials())));
    store.clear_credentials();
    assert_eq!(store.get_credentials(None), Ok(None));
    assert_eq!(store.get_credentials(Some(&other_on_disk)), Ok(Some(other)));
}

#[test]
fn a_file_that_does_not_open_leaves_the_memory_empty() {
    let mut store = store();
    let broken = StoredCredentials {
        encrypted_username: "?".to_string(),
        encrypted_password: "?".to_string(),
        iv: "i".to_string(),
        salt: "s".to_string(),
    };
    assert!(matches!(store.get_credentials(Some(&broken)), Err(WebullError::InvalidRequest(_))));
    assert_eq!(store.get_credentials(None), Ok(None));
    let stale = StoredToken {
        encrypted_token: "dG9r".to_string(),
        encrypted_refresh_token: None,
        expires_at: i64::MIN,
        iv: "i".to_string(),
        salt: "s".to_string(),
    };
    assert!(matches!(store.get_token(Some(&stale)), Err(WebullError::InvalidRequest(_))));
    assert_eq!(store.get_token(None), Ok(None));
}

#[test]
fn stored_credentials_are_kept_in_memory_and_sealed_for_the_file() {
    let mut store = store();
    let sealed = store.store_credentials(credentials()).unwrap();
    assert_eq!(sealed.encrypted_username, "YWxpY2U=");
    assert_eq!(sealed.encrypted_password, "aHVudGVyMg==");
    assert_eq!(store.get_credentials(None), Ok(Some(credentials())));
    assert_eq!(store.get_token(None), Ok(None));
}

#[test]
fn stored_token_is_kept_in_memory_and_sealed_for_the_file() {
    let mut store = store();
    let token = AccessToken {
        token: "tok".to_string(),
        expires_at: 5_999,
        refresh_token: Some("ref".to_string()),
    };
    let sealed = store.store_token(token.clone()).unwrap();
    assert_eq!(sealed.encrypted_token, "dG9r");
    assert_eq!(sealed.expires_at, 5);
    assert_eq!(store.get_token(None), Ok(Some(token.clone())));
    assert_eq!(store.get_token(Some(&sealed)), Ok(Some(token)));
    store.clear_token();
    assert_eq!(store.get_token(None), Ok(None));
    let from_file = store.get_token(Some(&sealed)).unwrap().unwrap();
    assert_eq!(from_file.token, "tok");
    assert_eq!(from_file.expires_at, 5_000);
    assert_eq!(from_file.refresh_token, Some("ref".to_string()));
    assert_eq!(store.get_credentials(None), Ok(None));
}
