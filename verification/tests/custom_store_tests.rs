use std::sync::{Arc, Mutex};
use webull_rs::auth::{
    refresh_request_from, revoke_request_from, token_from, AccessToken, AuthManager,
    LoginResponse, TokenStore,
};
use webull_rs::config::WebullConfig;
use webull_rs::endpoints::base::{BaseEndpoint, Progress};
use webull_rs::error::{WebullError, WebullResult};
use webull_rs::transport::Method;
use webull_rs::WebullClient;

/// A store that shares its slot, and fails on demand.
struct SharedStore {
    slot: Arc<Mutex<Option<AccessToken>>>,
    broken: bool,
}

impl TokenStore for SharedStore {
    fn get_token(&self) -> WebullResult<Option<AccessToken>> {
        if self.broken {
            return Err(WebullError::Unknown("store is broken".to_string()));
        }
        Ok(self.slot.lock().unwrap().clone())
    }

    fn store_token(&mut self, token: AccessToken) -> WebullResult<()> {
        if self.broken {
            return Err(WebullError::Unknown("store is broken".to_string()));
        }
        *self.slot.lock().unwrap() = Some(token);
        Ok(())
    }

    fn clear_token(&mut self) -> WebullResult<()> {
        if self.broken {
            return Err(WebullError::Unknown("store is broken".to_string()));
        }
        *self.slot.lock().unwrap() = None;
        Ok(())
    }
}

fn login() -> LoginResponse {
    LoginResponse {
        access_token: "tok".to_string(),
        refresh_token: "ref".to_string(),
        token_type: "Bearer".to_string(),
        expires_in: 60,
    }
}

#[test]
fn manager_works_on_a_store_of_the_callers() {
    let slot = Arc::new(Mutex::new(None));
    let store = SharedStore { slot: slot.clone(), broken: false };
    let mut manager = AuthManager::new(WebullConfig::new(), store);
    let token = manager.accept_login(login(), 0).unwrap();
    assert_eq!(*slot.lock().unwrap(), Some(token.clone()));
    assert_eq!(manager.get_token_at(59_999), Ok(token));
    assert_eq!(manager.get_token_at(60_000), Err(WebullError::Unauthorized));
    assert_eq!(manager.finish_revoke(200, String::new()), Ok(()));
    assert_eq!(*slot.lock().unwrap(), None);
}

#[test]
fn errors_of_the_store_come_through() {
    let slot = Arc::new(Mutex::new(None));
    let store = SharedStore { slot: slot.clone(), broken: true };
    let mut manager = AuthManager::new(WebullConfig::new(), store);
    let broken = WebullError::Unknown("store is broken".to_string());
    assert_eq!(manager.accept_login(login(), 0), Err(broken.clone()));
    assert_eq!(manager.get_token_at(0), Err(broken.clone()));
    assert_eq!(manager.refresh_token_at("1"), Err(broken.clone()));
    assert_eq!(manager.revoke_token_at("1"), Err(broken.clone()));
    assert_eq!(manager.finish_revoke(200, String::new()), Err(broken));
    assert_eq!(*slot.lock().unwrap(), None);
}

fn token(expires_at: i64, refresh: Option<&str>) -> AccessToken {
    AccessToken {
        token: "tok".to_string(),
        expires_at,
        refresh_token: refresh.map(|r| r.to_string()),
    }
}

fn config() -> WebullConfig {
    let mut config = WebullConfig::new();
    config.api_key = Some("key-1".to_string());
    config.api_secret = Some("s3cret".to_string());
    config.device_id = Some("dev-1".to_string());
    config.base_url = "https://api.example.com".to_string();
    config
}

#[test]
fn token_for_each_answer_of_the_store() {
    let broken = WebullError::Unknown("store is broken".to_string());
    assert_eq!(token_from(Err(broken.clone()), 0), Err(broken));
    assert_eq!(
        token_from(Err(WebullError::InvalidRequest("no file".to_string())), i64::MAX),
        Err(WebullError::InvalidRequest("no file".to_string()))
    );
    assert_eq!(token_from(Ok(None), 0), Err(WebullError::Unauthorized));
    assert_eq!(token_from(Ok(Some(token(100, None))), 99), Ok(token(100, None)));
    assert_eq!(token_from(Ok(Some(token(100, None))), 100), Err(WebullError::Unauthorized));
    assert_eq!(token_from(Ok(Some(token(100, Some("r")))), 101), Err(WebullError::Unauthorized));
    assert_eq!(token_from(Ok(Some(token(i64::MIN, None))), i64::MIN), Err(WebullError::Unauthorized));
    assert_eq!(
        token_from(Ok(Some(token(i64::MAX, None))), i64::MAX - 1),
        Ok(token(i64::MAX, None))
    );
}

#[test]
fn refresh_for_each_answer_of_the_store() {
    let broken = WebullError::Unknown("store is broken".to_string());
    assert_eq!(refresh_request_from(&config(), Err(broken.clone()), "1"), Err(broken));
    assert_eq!(
        refresh_request_from(&config(), Ok(None), "1"),
        Err(WebullError::InvalidRequest("No token available for refresh".to_string()))
    );
    assert_eq!(
        refresh_request_from(&config(), Ok(Some(token(100, None))), "1"),
        Err(WebullError::InvalidRequest("No refresh token available".to_string()))
    );
    let request = refresh_request_from(&config(), Ok(Some(token(0, Some("ref")))), "1").unwrap();
    assert_eq!(request.url, "https://api.example.com/api/passport/refreshToken");
    assert_eq!(request.body.as_deref(), Some("{\"deviceId\":\"dev-1\",\"refreshToken\":\"ref\"}"));
    let mut manager = AuthManager::new(config(), SharedStore { slot: Arc::new(Mutex::new(None)), broken: false });
    manager.token_store.store_token(token(0, Some("ref"))).unwrap();
    assert_eq!(manager.refresh_token_at("1"), Ok(request));
}

#[test]
fn revoke_for_each_answer_of_the_store() {
    let broken = WebullError::Unknown("store is broken".to_string());
    assert_eq!(revoke_request_from(&config(), Err(broken.clone()), "1"), Err(broken));
    assert_eq!(revoke_request_from(&config(), Ok(None), "1"), Ok(None));
    let request = revoke_request_from(&config(), Ok(Some(token(0, None))), "1").unwrap().unwrap();
    assert_eq!(request.url, "https://api.example.com/api/passport/logout");
    assert_eq!(request.body.as_deref(), Some("{\"accessToken\":\"tok\",\"deviceId\":\"dev-1\"}"));
    assert!(request.headers.iter().any(|h| h.name == "authorization" && h.value == "Bearer tok"));
    let mut manager = AuthManager::new(config(), SharedStore { slot: Arc::new(Mutex::new(None)), broken: false });
    manager.token_store.store_token(token(0, None)).unwrap();
    assert_eq!(manager.revoke_token_at("1"), Ok(Some(request)));
}

#[test]
fn request_of_a_client_whose_store_fails() {
    let store = SharedStore { slot: Arc::new(Mutex::new(Some(token(i64::MAX, Some("ref"))))), broken: true };
    let broken = WebullError::Unknown("store is broken".to_string());
    let mut client = WebullClient::builder().with_token_store(store).build().unwrap();
    assert_eq!(client.logout(), Err(broken.clone()));
    assert_eq!(client.refresh_token(), Err(broken.clone()));
    let accounts = client.accounts();
    assert_eq!(accounts.base.get_at(accounts.auth, "/api/x", 0, 0), Progress::Fail(broken.clone()));
    let request = accounts.base.request(Method::Get, "/api/x", None);
    assert_eq!(BaseEndpoint::authenticate_request_at(accounts.auth, request, 0), Err(broken));
    client.auth_manager.token_store.broken = false;
    let orders = client.orders();
    assert!(matches!(orders.base.get_at(orders.auth, "/api/x", 1, 0), Progress::Send(_)));
    assert!(matches!(client.logout(), Ok(Some(_))));
}

#[test]
fn failed_clearing_keeps_the_credentials() {
    let slot = Arc::new(Mutex::new(Some(token(5, None))));
    let mut manager = AuthManager::new(config(), SharedStore { slot: slot.clone(), broken: true });
    let first = manager.authenticate_at("alice", "hunter2", "1");
    assert!(first.is_ok());
    let held = manager.credentials.clone();
    assert!(held.is_some());
    assert_eq!(
        manager.finish_revoke(200, String::new()),
        Err(WebullError::Unknown("store is broken".to_string()))
    );
    assert_eq!(manager.credentials, held);
    assert_eq!(*slot.lock().unwrap(), Some(token(5, None)));
    manager.token_store.broken = false;
    assert_eq!(manager.finish_revoke(401, String::new()), Ok(()));
    assert_eq!(manager.credentials, None);
    assert_eq!(*slot.lock().unwrap(), None);
}
