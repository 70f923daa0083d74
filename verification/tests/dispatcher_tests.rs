use webull_rs::auth::{AccessToken, AuthManager, MemoryTokenStore, TokenStore};
use webull_rs::config::WebullConfig;
use webull_rs::endpoints::base::{
    authenticate_request_with, BaseEndpoint, Progress, Reply, RESPONSE_TTL,
};
use webull_rs::error::WebullError;
use webull_rs::models::response::ApiResponse;
use webull_rs::transport::{status_is_success, HttpRequest, Method};
use webull_rs::utils::serialization::TextField;

fn endpoint() -> BaseEndpoint {
    BaseEndpoint::new("https://api.example.com".to_string())
}

#[test]
fn success_is_two_hundred_to_two_ninety_nine() {
    assert!(!status_is_success(199));
    assert!(status_is_success(200));
    assert!(status_is_success(204));
    assert!(status_is_success(299));
    assert!(!status_is_success(300));
    assert!(!status_is_success(0));
    assert!(!status_is_success(u16::MAX));
}

#[test]
fn method_names() {
    assert_eq!(Method::Get.as_str(), "GET");
    assert_eq!(Method::Post.as_str(), "POST");
    assert_eq!(Method::Put.as_str(), "PUT");
    assert_eq!(Method::Delete.as_str(), "DELETE");
}

#[test]
fn url_has_one_slash_between_base_and_path() {
    assert_eq!(endpoint().build_url("/api/x"), "https://api.example.com/api/x");
    assert_eq!(endpoint().build_url("api/x"), "https://api.example.com/api/x");
    assert_eq!(endpoint().build_url("///api/x/"), "https://api.example.com/api/x/");
    assert_eq!(endpoint().build_url(""), "https://api.example.com/");
    let slashed = BaseEndpoint::new("https://api.example.com//".to_string());
    assert_eq!(slashed.build_url("/api/x"), "https://api.example.com/api/x");
    assert_eq!(BaseEndpoint::new(String::new()).build_url("a"), "/a");
}

#[test]
fn request_declares_a_body_as_json() {
    let plain = endpoint().request(Method::Get, "/api/x", None);
    assert_eq!(plain.method, Method::Get);
    assert_eq!(plain.url, "https://api.example.com/api/x");
    assert_eq!(plain.headers, vec![]);
    assert_eq!(plain.body, None);
    let with_body = endpoint().request(Method::Post, "/api/y", Some("{}"));
    assert_eq!(with_body.method, Method::Post);
    assert_eq!(with_body.headers, vec![TextField::new("content-type", "application/json")]);
    assert_eq!(with_body.body, Some("{}".to_string()));
}

#[test]
fn request_gets_the_bearer_token() {
    let mut auth = AuthManager::new(WebullConfig::new(), MemoryTokenStore::new());
    let request = endpoint().request(Method::Post, "/api/y", Some("{}"));
    assert_eq!(
        BaseEndpoint::authenticate_request_at(&auth, request.clone(), 0),
        Err(WebullError::Unauthorized)
    );
    assert_eq!(
        BaseEndpoint::authenticate_request(&auth, request.clone()),
        Err(WebullError::Unauthorized)
    );
    auth.token_store
        .store_token(AccessToken {
            token: "tok".to_string(),
            expires_at: i64::MAX,
            refresh_token: None,
        })
        .unwrap();
    let signed = BaseEndpoint::authenticate_request_at(&auth, request.clone(), 5).unwrap();
    assert_eq!(signed.url, request.url);
    assert_eq!(signed.body, request.body);
    assert_eq!(
        signed.headers,
        vec![
            TextField::new("content-type", "application/json"),
            TextField::new("authorization", "Bearer tok"),
        ]
    );
    assert_eq!(BaseEndpoint::authenticate_request(&auth, request.clone()), Ok(signed));
    assert_eq!(
        BaseEndpoint::authenticate_request_at(&auth, request, i64::MAX),
        Err(WebullError::Unauthorized)
    );
}

#[test]
fn bearer_token_for_each_answer_of_the_store() {
    let request = endpoint().request(Method::Post, "/api/y", Some("{}"));
    let broken = WebullError::Unknown("store is broken".to_string());
    assert_eq!(authenticate_request_with(request.clone(), Err(broken.clone()), 0), Err(broken));
    assert_eq!(
        authenticate_request_with(request.clone(), Ok(None), 0),
        Err(WebullError::Unauthorized)
    );
    let token = AccessToken { token: "tok".to_string(), expires_at: 10, refresh_token: None };
    assert_eq!(
        authenticate_request_with(request.clone(), Ok(Some(token.clone())), 10),
        Err(WebullError::Unauthorized)
    );
    let signed = authenticate_request_with(request.clone(), Ok(Some(token)), 9).unwrap();
    assert_eq!(signed.method, request.method);
    assert_eq!(signed.url, request.url);
    assert_eq!(signed.body, request.body);
    assert_eq!(
        signed.headers,
        vec![
            TextField::new("content-type", "application/json"),
            TextField::new("authorization", "Bearer tok"),
        ]
    );
}

#[test]
fn status_401_is_unauthorized() {
    assert_eq!(
        BaseEndpoint::classify(401, None, "denied".to_string()),
        Reply::Failed(WebullError::Unauthorized)
    );
}

#[test]
fn status_429_suspends_for_retry_after_seconds() {
    assert_eq!(BaseEndpoint::classify(429, Some("3"), String::new()), Reply::RateLimited(3, WebullError::RateLimitExceeded));
    assert_eq!(BaseEndpoint::classify(429, Some("+12"), String::new()), Reply::RateLimited(12, WebullError::RateLimitExceeded));
    assert_eq!(BaseEndpoint::classify(429, Some("0"), String::new()), Reply::RateLimited(0, WebullError::RateLimitExceeded));
    assert_eq!(
        BaseEndpoint::classify(429, Some("18446744073709551615"), String::new()),
        Reply::RateLimited(u64::MAX, WebullError::RateLimitExceeded)
    );
}

#[test]
fn status_429_without_a_usable_header_suspends_for_one_second() {
    assert_eq!(BaseEndpoint::classify(429, None, String::new()), Reply::RateLimited(1, WebullError::RateLimitExceeded));
    for text in ["", "soon", " 3", "3 ", "-1", "1.5", "+", "18446744073709551616", "3s"] {
        assert_eq!(BaseEndpoint::classify(429, Some(text), String::new()), Reply::RateLimited(1, WebullError::RateLimitExceeded));
    }
}

#[test]
fn other_failures_are_api_errors_with_status_and_body() {
    assert_eq!(
        BaseEndpoint::classify(500, None, "boom".to_string()),
        Reply::Failed(WebullError::ApiError {
            code: "500".to_string(),
            message: "boom".to_string()
        })
    );
    assert_eq!(
        BaseEndpoint::classify(404, Some("3"), String::new()),
        Reply::Failed(WebullError::ApiError { code: "404".to_string(), message: String::new() })
    );
    assert_eq!(
        BaseEndpoint::classify(302, None, "moved".to_string()),
        Reply::Failed(WebullError::ApiError {
            code: "302".to_string(),
            message: "moved".to_string()
        })
    );
}

#[test]
fn success_hands_the_body_on() {
    assert_eq!(
        BaseEndpoint::classify(200, None, "{\"success\":true}".to_string()),
        Reply::Body("{\"success\":true}".to_string())
    );
    assert_eq!(BaseEndpoint::classify(204, Some("3"), String::new()), Reply::Body(String::new()));
}

#[test]
fn failed_envelope_is_an_api_error_with_its_code_and_message() {
    let envelope: ApiResponse<u32> = ApiResponse::error("X1", "bad");
    assert_eq!(
        BaseEndpoint::open_envelope(envelope),
        Err(WebullError::ApiError { code: "X1".to_string(), message: "bad".to_string() })
    );
    let bare: ApiResponse<u32> =
        ApiResponse { success: false, data: Some(1), code: None, message: None };
    assert_eq!(
        BaseEndpoint::open_envelope(bare),
        Err(WebullError::ApiError {
            code: "unknown".to_string(),
            message: "Unknown error".to_string()
        })
    );
}

#[test]
fn successful_envelope_yields_its_payload_or_no_data() {
    assert_eq!(BaseEndpoint::open_envelope(ApiResponse::success(7u32)), Ok(7));
    let empty: ApiResponse<u32> = ApiResponse {
        success: true,
        data: None,
        code: Some("C".to_string()),
        message: Some("M".to_string()),
    };
    assert_eq!(
        BaseEndpoint::open_envelope(empty),
        Err(WebullError::ApiError {
            code: "no_data".to_string(),
            message: "Response did not contain data".to_string()
        })
    );
}

fn auth() -> AuthManager<MemoryTokenStore> {
    let mut auth = AuthManager::new(WebullConfig::new(), MemoryTokenStore::new());
    auth.token_store
        .store_token(AccessToken {
            token: "tok".to_string(),
            expires_at: 1_000_000,
            refresh_token: None,
        })
        .unwrap();
    auth
}

fn signed(endpoint: &BaseEndpoint, method: Method, path: &str, body: Option<&str>) -> HttpRequest {
    let mut request = endpoint.request(method, path, body);
    request.headers.push(TextField::new("authorization", "Bearer tok"));
    request
}

#[test]
fn admission_goes_by_the_path_of_the_url() {
    let mut endpoint = endpoint();
    let auth = auth();
    let first = endpoint.request(Method::Get, "/api/x?page=1", None);
    for i in 0..60u64 {
        let progress = endpoint.send_request_at(&auth, first.clone(), i, 0);
        assert_eq!(progress, Progress::Send(signed(&endpoint, Method::Get, "/api/x?page=1", None)));
    }
    let second = endpoint.request(Method::Get, "/api/x?page=2", None);
    assert_eq!(
        endpoint.send_request_at(&auth, second.clone(), 100, 0),
        Progress::Suspend(59_900, second.clone())
    );
    let elsewhere = HttpRequest { url: "https://other.example.com/api/x".to_string(), ..second.clone() };
    assert_eq!(
        endpoint.send_request_at(&auth, elsewhere.clone(), 100, 0),
        Progress::Suspend(59_900, elsewhere)
    );
    let other = endpoint.request(Method::Get, "/api/y", None);
    assert_eq!(
        endpoint.send_request_at(&auth, other, 100, 0),
        Progress::Send(signed(&endpoint, Method::Get, "/api/y", None))
    );
    assert_eq!(
        endpoint.resume_at(&auth, second.clone(), 60_000, 0),
        Progress::Send(signed(&endpoint, Method::Get, "/api/x?page=2", None))
    );
    assert_eq!(
        endpoint.send_request_at(&auth, second.clone(), 60_000, 0),
        Progress::Suspend(1, second)
    );
}

#[test]
fn admission_comes_before_the_token() {
    let mut endpoint = endpoint();
    let nobody = AuthManager::new(WebullConfig::new(), MemoryTokenStore::new());
    let request = endpoint.request(Method::Get, "/api/x", None);
    for i in 0..60u64 {
        assert_eq!(
            endpoint.send_request_at(&nobody, request.clone(), i, 0),
            Progress::Fail(WebullError::Unauthorized)
        );
    }
    assert_eq!(
        endpoint.send_request_at(&nobody, request.clone(), 60, 0),
        Progress::Suspend(59_940, request.clone())
    );
    assert_eq!(
        endpoint.resume_at(&nobody, request.clone(), 60_000, 0),
        Progress::Fail(WebullError::Unauthorized)
    );
    let expired = auth();
    assert_eq!(
        endpoint.resume_at(&expired, request, 60_001, 1_000_000),
        Progress::Fail(WebullError::Unauthorized)
    );
}

#[test]
fn admission_of_what_is_no_url_is_an_invalid_request() {
    let mut endpoint = BaseEndpoint::new(String::new());
    let auth = auth();
    let request = endpoint.request(Method::Get, "/api/x", None);
    assert_eq!(request.url, "/api/x");
    assert!(matches!(
        endpoint.send_request_at(&auth, request.clone(), 0, 0),
        Progress::Fail(WebullError::InvalidRequest(why)) if why.starts_with("Invalid URL: ")
    ));
    assert!(matches!(
        endpoint.send_request(&auth, request.clone()),
        Progress::Fail(WebullError::InvalidRequest(_))
    ));
    assert!(matches!(
        endpoint.resume_at(&auth, request.clone(), 0, 0),
        Progress::Fail(WebullError::InvalidRequest(_))
    ));
    assert!(matches!(endpoint.resume(&auth, request), Progress::Fail(WebullError::InvalidRequest(_))));
    assert!(matches!(endpoint.get_at(&auth, "/api/x", 0, 0), Progress::Fail(WebullError::InvalidRequest(_))));
}

#[test]
fn clocked_admission_grants_sixty_a_minute() {
    let mut endpoint = endpoint();
    let mut auth = auth();
    auth.token_store
        .store_token(AccessToken { token: "tok".to_string(), expires_at: i64::MAX, refresh_token: None })
        .unwrap();
    let request = endpoint.request(Method::Put, "/api/x", Some("{}"));
    for _ in 0..60 {
        assert_eq!(
            endpoint.send_request(&auth, request.clone()),
            Progress::Send(signed(&endpoint, Method::Put, "/api/x", Some("{}")))
        );
    }
    match endpoint.send_request(&auth, request.clone()) {
        Progress::Suspend(delay, held) => {
            assert!(delay > 50_000 && delay <= 60_000);
            assert_eq!(held, request);
        }
        other => panic!("{:?}", other),
    }
    assert_eq!(
        endpoint.resume(&auth, request),
        Progress::Send(signed(&endpoint, Method::Put, "/api/x", Some("{}")))
    );
    assert!(matches!(endpoint.put(&auth, "/api/x", "{}"), Progress::Suspend(_, _)));
    assert!(matches!(endpoint.delete(&auth, "/api/z"), Progress::Send(_)));
}

#[test]
fn get_responses_are_cached_for_a_minute() {
    assert_eq!(RESPONSE_TTL, 60_000);
    let mut endpoint = endpoint();
    let auth = auth();
    let send = Progress::Send(signed(&endpoint, Method::Get, "/api/x", None));
    assert_eq!(endpoint.get_at(&auth, "/api/x", 0, 0), send);
    endpoint.finish_at(Method::Get, "/api/x", None, "one".to_string(), 10);
    assert_eq!(endpoint.get_at(&auth, "/api/x", 10, 0), Progress::Hit("one".to_string()));
    assert_eq!(
        endpoint.get_at(&auth, "/api/y", 10, 0),
        Progress::Send(signed(&endpoint, Method::Get, "/api/y", None))
    );
    assert_eq!(endpoint.get_at(&auth, "/api/x", 60_010, 0), Progress::Hit("one".to_string()));
    assert_eq!(endpoint.get_at(&auth, "/api/x", 60_011, 0), send);
    assert_eq!(endpoint.get_at(&auth, "/api/x", 60_012, 0), send);
}

#[test]
fn a_hit_needs_neither_admission_nor_token() {
    let mut endpoint = endpoint();
    let nobody = AuthManager::new(WebullConfig::new(), MemoryTokenStore::new());
    endpoint.finish_at(Method::Get, "/api/x", None, "one".to_string(), 0);
    for i in 0..100u64 {
        assert_eq!(endpoint.get_at(&nobody, "/api/x", i, 0), Progress::Hit("one".to_string()));
    }
    assert_eq!(endpoint.get_at(&nobody, "/api/y", 100, 0), Progress::Fail(WebullError::Unauthorized));
}

#[test]
fn post_responses_are_cached_by_path_and_body() {
    let mut endpoint = endpoint();
    let auth = auth();
    endpoint.finish_at(Method::Post, "/api/q", Some("{\"a\":1}"), "one".to_string(), 0);
    assert_eq!(
        endpoint.post_at(&auth, "/api/q", "{\"a\":1}", 1, 0),
        Progress::Hit("one".to_string())
    );
    assert_eq!(
        endpoint.post_at(&auth, "/api/q", "{\"a\":2}", 1, 0),
        Progress::Send(signed(&endpoint, Method::Post, "/api/q", Some("{\"a\":2}")))
    );
    assert_eq!(
        endpoint.get_at(&auth, "/api/q", 1, 0),
        Progress::Send(signed(&endpoint, Method::Get, "/api/q", None))
    );
    assert!(matches!(endpoint.post_at(&auth, "/api/q", "{\"a\":1}", 60_001, 0), Progress::Send(_)));
}

#[test]
fn put_and_delete_are_never_answered_from_the_cache() {
    let mut endpoint = endpoint();
    let auth = auth();
    endpoint.finish_at(Method::Get, "/api/x", None, "g".to_string(), 0);
    assert_eq!(
        endpoint.put_at(&auth, "/api/x", "{}", 1, 0),
        Progress::Send(signed(&endpoint, Method::Put, "/api/x", Some("{}")))
    );
    assert_eq!(
        endpoint.delete_at(&auth, "/api/x", 1, 0),
        Progress::Send(signed(&endpoint, Method::Delete, "/api/x", None))
    );
}

#[test]
fn put_drops_the_get_responses_only() {
    let mut endpoint = endpoint();
    let auth = auth();
    endpoint.finish_at(Method::Get, "/api/x", None, "g".to_string(), 0);
    endpoint.finish_at(Method::Post, "/api/q", Some("{}"), "p".to_string(), 0);
    endpoint.finish_at(Method::Put, "/api/other", Some("{}"), "ignored".to_string(), 1);
    assert!(matches!(endpoint.get_at(&auth, "/api/x", 1, 0), Progress::Send(_)));
    assert_eq!(endpoint.post_at(&auth, "/api/q", "{}", 1, 0), Progress::Hit("p".to_string()));
}

#[test]
fn delete_drops_get_and_post_responses() {
    let mut endpoint = endpoint();
    let auth = auth();
    endpoint.finish_at(Method::Get, "/api/x", None, "g".to_string(), 0);
    endpoint.finish_at(Method::Post, "/api/q", Some("{}"), "p".to_string(), 0);
    endpoint.finish_at(Method::Delete, "/api/other", None, "ignored".to_string(), 1);
    assert!(matches!(endpoint.get_at(&auth, "/api/x", 1, 0), Progress::Send(_)));
    assert!(matches!(endpoint.post_at(&auth, "/api/q", "{}", 1, 0), Progress::Send(_)));
}

#[test]
fn clocked_steps_of_the_dispatcher() {
    let mut endpoint = endpoint();
    let mut auth = auth();
    auth.token_store
        .store_token(AccessToken { token: "tok".to_string(), expires_at: i64::MAX, refresh_token: None })
        .unwrap();
    assert_eq!(
        endpoint.get(&auth, "/api/x"),
        Progress::Send(signed(&endpoint, Method::Get, "/api/x", None))
    );
    endpoint.finish(Method::Get, "/api/x", None, "g".to_string());
    assert_eq!(endpoint.get(&auth, "/api/x"), Progress::Hit("g".to_string()));
    assert!(matches!(endpoint.post(&auth, "/api/q", "{}"), Progress::Send(_)));
    endpoint.finish(Method::Post, "/api/q", Some("{}"), "p".to_string());
    assert_eq!(endpoint.post(&auth, "/api/q", "{}"), Progress::Hit("p".to_string()));
    endpoint.finish(Method::Delete, "/api/q", None, String::new());
    assert!(matches!(endpoint.get(&auth, "/api/x"), Progress::Send(_)));
}
