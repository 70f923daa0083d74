use crate::config::{clone_text, WebullConfig};
use crate::error::{is_invalid_request, WebullError, WebullResult};
use crate::transport::{is_success, status_is_success, HttpRequest, Method};
use crate::utils::crypto::{
    base64_text, bytes_of, encrypt_password, generate_signature, generate_timestamp, signature,
};
use crate::utils::serialization::{json_object_text, object_to_json, texts, TextField};
use crate::utils::clock::utc_now_millis;
use crate::utils::text::{chain, decimal, to_decimal};
use vstd::prelude::*;

verus! {

/// Credentials for authentication.
#[derive(Debug, PartialEq, Eq)]
pub struct Credentials {
    /// Username for authentication
    pub username: String,
    /// Password for authentication
    pub password: String,
}

impl Clone for Credentials {
    fn clone(&self) -> (copy: Self)
        ensures
            copy == *self,
    {
        Credentials { username: self.username.clone(), password: self.password.clone() }
    }
}

/// Access token for API requests.
#[derive(Debug, PartialEq, Eq)]
pub struct AccessToken {
    /// The access token
    pub token: String,
    /// When the token expires, in milliseconds since the Unix epoch
    pub expires_at: i64,
    /// The refresh token
    pub refresh_token: Option<String>,
}

impl Clone for AccessToken {
    fn clone(&self) -> (copy: Self)
        ensures
            copy == *self,
    {
        AccessToken {
            token: self.token.clone(),
            expires_at: self.expires_at,
            refresh_token: clone_text(&self.refresh_token),
        }
    }
}

impl AccessToken {
    /// A token is usable only before the moment at which it expires.
    pub open spec fn usable_at(&self, now: i64) -> bool {
        now < self.expires_at
    }
}

/// The token that a request can use at the time `now`, given what the store
/// holds: the stored token, unless it has expired. A token that has expired
/// counts as no token.
pub open spec fn usable_token(stored: Option<AccessToken>, now: i64) -> Option<AccessToken> {
    match stored {
        Some(token) => if token.usable_at(now) {
            Some(token)
        } else {
            None
        },
        None => None,
    }
}

/// What a store says when it is asked for its token: the token that it
/// holds, if any, or its error.
pub type StoreAnswer = WebullResult<Option<AccessToken>>;

/// Whether `answer` is what a store that holds `stored` may say: what it
/// holds, or, where the store is one that may fail, an error.
pub open spec fn is_answer(answer: StoreAnswer, stored: Option<AccessToken>, reliable: bool) -> bool {
    match answer {
        Ok(held) => held == stored,
        Err(_) => !reliable,
    }
}

/// What asking for the token at the time `now` gives, for each answer of the
/// store: the token, if the store holds one that has not expired; the answer
/// that whoever asks is unauthorized, if it holds none or one that has
/// expired; and the store's error, if it failed.
pub open spec fn token_of(answer: StoreAnswer, now: i64) -> WebullResult<AccessToken> {
    match answer {
        Ok(held) => match usable_token(held, now) {
            Some(token) => Ok(token),
            None => Err(WebullError::Unauthorized),
        },
        Err(e) => Err(e),
    }
}

/// Whether `result` is what asking for the token at the time `now` gives,
/// from a store that holds `stored`: what `token_of` makes of the store's
/// answer.
pub open spec fn is_token_result(
    result: WebullResult<AccessToken>,
    stored: Option<AccessToken>,
    reliable: bool,
    now: i64,
) -> bool {
    exists|answer: StoreAnswer| #[trigger]
        is_answer(answer, stored, reliable) && result == token_of(answer, now)
}

/// The token for a request at the time `now`, from the answer of the store.
pub fn token_from(answer: StoreAnswer, now: i64) -> (r: WebullResult<AccessToken>)
    ensures
        r == token_of(answer, now),
{
    match answer {
        Ok(Some(token)) => {
            if token.expires_at <= now {
                Err(WebullError::Unauthorized)
            } else {
                Ok(token)
            }
        },
        Ok(None) => Err(WebullError::Unauthorized),
        Err(e) => Err(e),
    }
}

/// Whether `result` is the failure of a store that may fail: an error, from
/// a store that is not reliable.
pub open spec fn is_store_failure(result: WebullResult<AccessToken>, reliable: bool) -> bool {
    !reliable && result is Err
}

/// A token that has expired is no token. Whatever token the store holds,
/// whoever asks for it at the moment of its expiry or later is unauthorized,
/// as if the store were empty; no refresh is needed to see it. This holds of
/// every store: one that may fail gives its error or this answer, and never
/// the token.
pub proof fn law_expired_token_is_unauthorized(token: AccessToken, now: i64, reliable: bool)
    requires
        token.expires_at <= now,
    ensures
        token_of(Ok(Some(token)), now) == Err::<AccessToken, WebullError>(WebullError::Unauthorized),
        token_of(Ok(Some(token)), now) == token_of(Ok(None), now),
        forall|result: WebullResult<AccessToken>| #[trigger]
            is_token_result(result, Some(token), reliable, now) <==> result == Err::<
                AccessToken,
                WebullError,
            >(WebullError::Unauthorized) || is_store_failure(result, reliable),
{
    let unauthorized = Err::<AccessToken, WebullError>(WebullError::Unauthorized);
    assert forall|result: WebullResult<AccessToken>| #[trigger]
        is_token_result(result, Some(token), reliable, now) <==> result == unauthorized
            || is_store_failure(result, reliable) by {
        if is_token_result(result, Some(token), reliable, now) {
            let answer = choose|answer: StoreAnswer| #[trigger]
                is_answer(answer, Some(token), reliable) && result == token_of(answer, now);
            assert(answer is Ok ==> answer == Ok::<Option<AccessToken>, WebullError>(Some(token)));
        }
        if result == unauthorized {
            assert(is_answer(Ok(Some(token)), Some(token), reliable));
        } else if is_store_failure(result, reliable) {
            let failed = Err::<Option<AccessToken>, WebullError>(result->Err_0);
            assert(is_answer(failed, Some(token), reliable) && result == token_of(failed, now));
        }
    }
}

/// A token that has not expired is the token. Whoever asks before the
/// moment of its expiry gets the very token that the store holds. This holds
/// of every store: one that may fail gives its error or the token, and
/// nothing else.
pub proof fn law_unexpired_token_is_returned(token: AccessToken, now: i64, reliable: bool)
    requires
        now < token.expires_at,
    ensures
        token_of(Ok(Some(token)), now) == Ok::<AccessToken, WebullError>(token),
        forall|result: WebullResult<AccessToken>| #[trigger]
            is_token_result(result, Some(token), reliable, now) <==> result == Ok::<
                AccessToken,
                WebullError,
            >(token) || is_store_failure(result, reliable),
{
    let held = Ok::<AccessToken, WebullError>(token);
    assert forall|result: WebullResult<AccessToken>| #[trigger]
        is_token_result(result, Some(token), reliable, now) <==> result == held
            || is_store_failure(result, reliable) by {
        if is_token_result(result, Some(token), reliable, now) {
            let answer = choose|answer: StoreAnswer| #[trigger]
                is_answer(answer, Some(token), reliable) && result == token_of(answer, now);
            assert(answer is Ok ==> answer == Ok::<Option<AccessToken>, WebullError>(Some(token)));
        }
        if result == held {
            assert(is_answer(Ok(Some(token)), Some(token), reliable));
        } else if is_store_failure(result, reliable) {
            let failed = Err::<Option<AccessToken>, WebullError>(result->Err_0);
            assert(is_answer(failed, Some(token), reliable) && result == token_of(failed, now));
        }
    }
}

/// Interface for storing and retrieving tokens. A store holds at most one
/// token.
pub trait TokenStore: Send + Sync {
    /// The token that the store holds.
    open spec fn stored(&self) -> Option<AccessToken> {
        arbitrary()
    }

    /// Whether the store's operations cannot fail. A store that keeps its
    /// token in memory is reliable; one that reads and writes a file is not.
    open spec fn reliable(&self) -> bool {
        false
    }

    /// Get the current access token.
    fn get_token(&self) -> (r: StoreAnswer)
        ensures
            is_answer(r, self.stored(), self.reliable()),
    ;

    /// Store an access token.
    fn store_token(&mut self, token: AccessToken) -> (r: WebullResult<()>)
        ensures
            r is Ok ==> final(self).stored() == Some(token),
            old(self).reliable() ==> r is Ok,
            final(self).reliable() == old(self).reliable(),
    ;

    /// Clear the stored token.
    fn clear_token(&mut self) -> (r: WebullResult<()>)
        ensures
            r is Ok ==> final(self).stored() is None,
            old(self).reliable() ==> r is Ok,
            final(self).reliable() == old(self).reliable(),
    ;
}

/// In-memory token store.
#[derive(Debug)]
pub struct MemoryTokenStore {
    pub token: Option<AccessToken>,
}

impl MemoryTokenStore {
    /// An empty store.
    pub fn new() -> (store: Self)
        ensures
            store.token is None,
    {
        MemoryTokenStore { token: None }
    }
}

impl Default for MemoryTokenStore {
    fn default() -> (store: Self)
        ensures
            store.token is None,
    {
        MemoryTokenStore { token: None }
    }
}

impl TokenStore for MemoryTokenStore {
    open spec fn stored(&self) -> Option<AccessToken> {
        self.token
    }

    open spec fn reliable(&self) -> bool {
        true
    }

    fn get_token(&self) -> (r: StoreAnswer) {
        match &self.token {
            Some(token) => Ok(Some(token.clone())),
            None => Ok(None),
        }
    }

    fn store_token(&mut self, token: AccessToken) -> (r: WebullResult<()>) {
        self.token = Some(token);
        Ok(())
    }

    fn clear_token(&mut self) -> (r: WebullResult<()>) {
        self.token = None;
        Ok(())
    }
}

/// What the login, verification and refresh endpoints answer.
#[derive(Debug, Clone, PartialEq, Eq)]
pub struct LoginResponse {
    pub access_token: String,
    pub refresh_token: String,
    pub token_type: String,
    /// The token's lifetime in seconds
    pub expires_in: i64,
}

/// The moment at which a token that was issued at `now`, for `expires_in`
/// seconds, expires.
pub open spec fn expiry(now: i64, expires_in: i64) -> int {
    now + expires_in * 1000
}

/// The text of an optional setting; empty where it is not set.
pub open spec fn text_or_empty(setting: Option<String>) -> Seq<char> {
    match setting {
        Some(text) => text@,
        None => Seq::empty(),
    }
}

/// The members of the login request's body.
pub open spec fn login_fields(
    config: WebullConfig,
    username: Seq<char>,
    password: Seq<char>,
) -> Seq<
    (Seq<char>, Seq<char>),
> {
    seq![
        ("username"@, username),
        ("password"@, base64_text(bytes_of(password))),
        ("deviceId"@, text_or_empty(config.device_id)),
        ("deviceName"@, "Rust API Client"@),
        ("deviceType"@, "Web"@),
    ]
}

/// The members of the body of the request that completes a login with a
/// verification code.
pub open spec fn mfa_fields(config: WebullConfig, username: Seq<char>, code: Seq<char>) -> Seq<
    (Seq<char>, Seq<char>),
> {
    seq![
        ("username"@, username),
        ("verificationCode"@, code),
        ("deviceId"@, text_or_empty(config.device_id)),
    ]
}

/// The members of the refresh request's body.
pub open spec fn refresh_fields(config: WebullConfig, refresh_token: Seq<char>) -> Seq<
    (Seq<char>, Seq<char>),
> {
    seq![("refreshToken"@, refresh_token), ("deviceId"@, text_or_empty(config.device_id))]
}

/// The members of the logout request's body.
pub open spec fn revoke_fields(config: WebullConfig, access_token: Seq<char>) -> Seq<
    (Seq<char>, Seq<char>),
> {
    seq![("accessToken"@, access_token), ("deviceId"@, text_or_empty(config.device_id))]
}

/// The headers of a signed request: the content type; the bearer token, if
/// the request carries one; the API key, if one is configured; the
/// timestamp; and the signature of timestamp and body under the API secret,
/// empty where no secret is configured.
pub open spec fn signed_headers(
    config: WebullConfig,
    bearer: Option<Seq<char>>,
    timestamp: Seq<char>,
    body: Seq<char>,
) -> Seq<(Seq<char>, Seq<char>)> {
    let start = seq![("content-type"@, "application/json"@)];
    let with_bearer = match bearer {
        Some(token) => start.push(("authorization"@, "Bearer "@ + token)),
        None => start,
    };
    let with_key = match config.api_key {
        Some(key) => with_bearer.push(("api-key"@, key@)),
        None => with_bearer,
    };
    let signed = match config.api_secret {
        Some(secret) => signature(secret@, timestamp + body),
        None => Seq::empty(),
    };
    with_key.push(("timestamp"@, timestamp)).push(("signature"@, signed))
}

/// Whether `request` is the signed POST request to `path` with the given
/// body members, made at `timestamp`: its URL is the base URL followed by the
/// path, its body the JSON text of the members, and its headers those of
/// `signed_headers`.
pub open spec fn is_signed_request(
    request: HttpRequest,
    config: WebullConfig,
    path: Seq<char>,
    bearer: Option<Seq<char>>,
    fields: Seq<(Seq<char>, Seq<char>)>,
    timestamp: Seq<char>,
) -> bool {
    &&& request.method == Method::Post
    &&& request.url@ == config.base_url@ + path
    &&& request.body matches Some(body) && json_object_text(fields) == Some(body@) && texts(
        request.headers@,
    ) == signed_headers(config, bearer, timestamp, body@)
}

/// What a status code that does not report success means for a login,
/// verification or refresh: 401 is a rejection of the credentials, 429 a
/// rate limit, and anything else an API error that carries the status in
/// decimal as its code and the response's body as its message.
pub open spec fn is_status_error(error: WebullError, status: u16, body: String) -> bool {
    if status == 401 {
        error is Unauthorized
    } else if status == 429 {
        error is RateLimitExceeded
    } else {
        error matches WebullError::ApiError { code, message } && code@ == decimal(status as nat)
            && message == body
    }
}

/// The error that a status code which does not report success stands for.
pub fn status_error(status: u16, body: String) -> (error: WebullError)
    ensures
        is_status_error(error, status, body),
{
    if status == 401 {
        WebullError::Unauthorized
    } else if status == 429 {
        WebullError::RateLimitExceeded
    } else {
        WebullError::ApiError { code: to_decimal(status as u128), message: body }
    }
}

/// Whether `result` fails as an invalid request, for the reason given.
pub open spec fn is_refused<V>(result: WebullResult<V>, why: Seq<char>) -> bool {
    match result {
        Ok(_) => false,
        Err(e) => is_invalid_request(e, why),
    }
}

/// Whether `result` is what beginning a refresh at `timestamp` gives, for
/// each answer of the store. A store that failed fails the refresh with its
/// error. Without a token, and without a refresh token in it, the request is
/// invalid. In all three cases nothing is to be sent. Else the result is the
/// refresh request.
pub open spec fn is_refresh_of(
    result: WebullResult<HttpRequest>,
    config: WebullConfig,
    answer: StoreAnswer,
    timestamp: Seq<char>,
) -> bool {
    match answer {
        Err(e) => result == Err::<HttpRequest, WebullError>(e),
        Ok(None) => is_refused(result, "No token available for refresh"@),
        Ok(Some(token)) => match token.refresh_token {
            None => is_refused(result, "No refresh token available"@),
            Some(refresh) => match result {
                Ok(request) => is_signed_request(
                    request,
                    config,
                    "/api/passport/refreshToken"@,
                    None,
                    refresh_fields(config, refresh@),
                    timestamp,
                ),
                Err(e) => json_object_text(refresh_fields(config, refresh@)) is None
                    && e is SerializationError,
            },
        },
    }
}

/// Whether `result` is what beginning a revocation at `timestamp` gives, for
/// each answer of the store. A store that failed fails the revocation with
/// its error. Without a token there is nothing to revoke and nothing to send.
/// Else the result is the logout request, which carries the token.
pub open spec fn is_revoke_of(
    result: WebullResult<Option<HttpRequest>>,
    config: WebullConfig,
    answer: StoreAnswer,
    timestamp: Seq<char>,
) -> bool {
    match answer {
        Err(e) => result == Err::<Option<HttpRequest>, WebullError>(e),
        Ok(None) => result == Ok::<Option<HttpRequest>, WebullError>(None),
        Ok(Some(token)) => match result {
            Ok(None) => false,
            Ok(Some(request)) => is_signed_request(
                request,
                config,
                "/api/passport/logout"@,
                Some(token.token@),
                revoke_fields(config, token.token@),
                timestamp,
            ),
            Err(e) => json_object_text(revoke_fields(config, token.token@)) is None
                && e is SerializationError,
        },
    }
}

/// Builds the signed POST request to `path`.
fn signed_post(
    config: &WebullConfig,
    path: &str,
    bearer: Option<&str>,
    fields: Vec<TextField>,
    timestamp: &str,
) -> (r: WebullResult<HttpRequest>)
    ensures
        match r {
            Ok(request) => is_signed_request(
                request,
                *config,
                path@,
                crate::utils::text::text_of(bearer),
                texts(fields@),
                timestamp@,
            ),
            Err(e) => json_object_text(texts(fields@)) is None && e is SerializationError,
        },
{
    let body = match object_to_json(&fields) {
        Ok(body) => body,
        Err(e) => {
            return Err(e);
        },
    };
    let mut headers: Vec<TextField> = Vec::new();
    headers.push(TextField::new("content-type", "application/json"));
    if let Some(token) = bearer {
        let value = chain("Bearer ", token);
        headers.push(TextField { name: "authorization".to_owned(), value });
    }
    if let Some(key) = &config.api_key {
        headers.push(TextField { name: "api-key".to_owned(), value: key.clone() });
    }
    let message = chain(timestamp, body.as_str());
    let signed = match &config.api_secret {
        Some(secret) => match generate_signature(secret.as_str(), message.as_str()) {
            Ok(signed) => signed,
            Err(e) => {
                return Err(e);
            },
        },
        None => String::new(),
    };
    headers.push(TextField { name: "timestamp".to_owned(), value: timestamp.to_owned() });
    headers.push(TextField { name: "signature".to_owned(), value: signed });
    let url = chain(config.base_url.as_str(), path);
    let request = HttpRequest { method: Method::Post, url, headers, body: Some(body) };
    proof {
        let b = request.body->0;
        assert(texts(request.headers@) =~= signed_headers(
            *config,
            crate::utils::text::text_of(bearer),
            timestamp@,
            b@,
        ));
    }
    Ok(request)
}

/// Begin a refresh at the request timestamp given, from the answer of the
/// store.
pub fn refresh_request_from(config: &WebullConfig, answer: StoreAnswer, timestamp: &str) -> (r:
    WebullResult<HttpRequest>)
    ensures
        is_refresh_of(r, *config, answer, timestamp@),
{
    let current = match answer {
        Ok(Some(token)) => token,
        Ok(None) => {
            return Err(WebullError::InvalidRequest("No token available for refresh".to_owned()));
        },
        Err(e) => {
            return Err(e);
        },
    };
    let refresh = match current.refresh_token {
        Some(refresh) => refresh,
        None => {
            return Err(WebullError::InvalidRequest("No refresh token available".to_owned()));
        },
    };
    let device = match &config.device_id {
        Some(device) => device.clone(),
        None => String::new(),
    };
    let mut fields: Vec<TextField> = Vec::new();
    fields.push(TextField { name: "refreshToken".to_owned(), value: refresh });
    fields.push(TextField { name: "deviceId".to_owned(), value: device });
    assert(texts(fields@) =~= refresh_fields(*config, refresh@));
    signed_post(config, "/api/passport/refreshToken", None, fields, timestamp)
}

/// Begin a revocation at the request timestamp given, from the answer of
/// the store.
pub fn revoke_request_from(config: &WebullConfig, answer: StoreAnswer, timestamp: &str) -> (r:
    WebullResult<Option<HttpRequest>>)
    ensures
        is_revoke_of(r, *config, answer, timestamp@),
{
    let current = match answer {
        Ok(Some(token)) => token,
        Ok(None) => {
            return Ok(None);
        },
        Err(e) => {
            return Err(e);
        },
    };
    let device = match &config.device_id {
        Some(device) => device.clone(),
        None => String::new(),
    };
    let mut fields: Vec<TextField> = Vec::new();
    fields.push(TextField { name: "accessToken".to_owned(), value: current.token.clone() });
    fields.push(TextField { name: "deviceId".to_owned(), value: device });
    assert(texts(fields@) =~= revoke_fields(*config, current.token@));
    match signed_post(
        config,
        "/api/passport/logout",
        Some(current.token.as_str()),
        fields,
        timestamp,
    ) {
        Ok(request) => Ok(Some(request)),
        Err(e) => Err(e),
    }
}

/// Manager for authentication: the credentials of the session, the token
/// store, and the configuration that requests are built from.
pub struct AuthManager<S: TokenStore> {
    /// Credentials for authentication
    pub credentials: Option<Credentials>,
    /// Token store
    pub token_store: S,
    /// Configuration
    pub config: WebullConfig,
}

impl<S: TokenStore> AuthManager<S> {
    /// The credentials that the manager remembers.
    pub open spec fn credentials(&self) -> Option<Credentials> {
        self.credentials
    }

    /// The configuration that the manager was made with.
    pub open spec fn config(&self) -> WebullConfig {
        self.config
    }

    /// Create a new authentication manager, which remembers no credentials.
    pub fn new(config: WebullConfig, token_store: S) -> (manager: Self)
        ensures
            manager.credentials() is None,
            manager.token_store == token_store,
            manager.config() == config,
    {
        AuthManager { credentials: None, token_store, config }
    }

    /// Begin to authenticate with username and password, at the request
    /// timestamp given: the manager remembers the credentials, and the result
    /// is the login request to send. The answer goes to `check_status` and
    /// then, read as a `LoginResponse`, to `accept_login`.
    pub fn authenticate_at(&mut self, username: &str, password: &str, timestamp: &str) -> (r:
        WebullResult<HttpRequest>)
        ensures
            final(self).credentials() matches Some(c) && c.username@ == username@ && c.password@
                == password@,
            final(self).token_store == old(self).token_store,
            final(self).config() == old(self).config(),
            match r {
                Ok(request) => is_signed_request(
                    request,
                    old(self).config(),
                    "/api/passport/login/v5/account"@,
                    None,
                    login_fields(old(self).config(), username@, password@),
                    timestamp@,
                ),
                Err(e) => json_object_text(login_fields(old(self).config(), username@, password@))
                    is None && e is SerializationError,
            },
    {
        self.credentials = Some(
            Credentials { username: username.to_owned(), password: password.to_owned() },
        );
        let secret = match &self.config.api_secret {
            Some(secret) => secret.clone(),
            None => String::new(),
        };
        let encrypted = match encrypt_password(password, secret.as_str()) {
            Ok(text) => text,
            Err(e) => {
                return Err(e);
            },
        };
        let device = match &self.config.device_id {
            Some(device) => device.clone(),
            None => String::new(),
        };
        let mut fields: Vec<TextField> = Vec::new();
        fields.push(TextField::new("username", username));
        fields.push(TextField { name: "password".to_owned(), value: encrypted });
        fields.push(TextField { name: "deviceId".to_owned(), value: device });
        fields.push(TextField::new("deviceName", "Rust API Client"));
        fields.push(TextField::new("deviceType", "Web"));
        assert(texts(fields@) =~= login_fields(self.config, username@, password@));
        signed_post(&self.config, "/api/passport/login/v5/account", None, fields, timestamp)
    }

    /// Begin to authenticate with username and password, as `authenticate_at`
    /// does with the timestamp that the system clock gives.
    pub fn authenticate(&mut self, username: &str, password: &str) -> (r: WebullResult<
        HttpRequest,
    >)
        ensures
            final(self).credentials() matches Some(c) && c.username@ == username@ && c.password@
                == password@,
            final(self).token_store == old(self).token_store,
            final(self).config() == old(self).config(),
            match r {
                Ok(request) => exists|timestamp: Seq<char>| #[trigger]
                    is_signed_request(
                        request,
                        old(self).config(),
                        "/api/passport/login/v5/account"@,
                        None,
                        login_fields(old(self).config(), username@, password@),
                        timestamp,
                    ),
                Err(e) => json_object_text(login_fields(old(self).config(), username@, password@))
                    is None && e is SerializationError,
            },
    {
        let timestamp = generate_timestamp();
        self.authenticate_at(username, password, timestamp.as_str())
    }

    /// Begin the second step of a login, with the verification code, at the
    /// request timestamp given. It needs the credentials of the first step:
    /// without them the request is invalid, and nothing is to be sent.
    pub fn multi_factor_auth_at(&mut self, mfa_code: &str, timestamp: &str) -> (r: WebullResult<
        HttpRequest,
    >)
        ensures
            *final(self) == *old(self),
            match old(self).credentials() {
                None => match r {
                    Ok(_) => false,
                    Err(e) => is_invalid_request(e, "No credentials available for MFA"@),
                },
                Some(c) => match r {
                    Ok(request) => is_signed_request(
                        request,
                        old(self).config(),
                        "/api/passport/verificationCode/verify"@,
                        None,
                        mfa_fields(old(self).config(), c.username@, mfa_code@),
                        timestamp@,
                    ),
                    Err(e) => json_object_text(
                        mfa_fields(old(self).config(), c.username@, mfa_code@),
                    ) is None && e is SerializationError,
                },
            },
    {
        let username = match &self.credentials {
            Some(credentials) => credentials.username.clone(),
            None => {
                return Err(
                    WebullError::InvalidRequest("No credentials available for MFA".to_owned()),
                );
            },
        };
        let device = match &self.config.device_id {
            Some(device) => device.clone(),
            None => String::new(),
        };
        let mut fields: Vec<TextField> = Vec::new();
        fields.push(TextField { name: "username".to_owned(), value: username });
        fields.push(TextField::new("verificationCode", mfa_code));
        fields.push(TextField { name: "deviceId".to_owned(), value: device });
        assert(texts(fields@) =~= mfa_fields(
            self.config,
            self.credentials->0.username@,
            mfa_code@,
        ));
        signed_post(&self.config, "/api/passport/verificationCode/verify", None, fields, timestamp)
    }

    /// Begin the second step of a login, as `multi_factor_auth_at` does with
    /// the timestamp that the system clock gives.
    pub fn multi_factor_auth(&mut self, mfa_code: &str) -> (r: WebullResult<HttpRequest>)
        ensures
            *final(self) == *old(self),
            match old(self).credentials() {
                None => match r {
                    Ok(_) => false,
                    Err(e) => is_invalid_request(e, "No credentials available for MFA"@),
                },
                Some(c) => match r {
                    Ok(request) => exists|timestamp: Seq<char>| #[trigger]
                        is_signed_request(
                            request,
                            old(self).config(),
                            "/api/passport/verificationCode/verify"@,
                            None,
                            mfa_fields(old(self).config(), c.username@, mfa_code@),
                            timestamp,
                        ),
                    Err(e) => json_object_text(
                        mfa_fields(old(self).config(), c.username@, mfa_code@),
                    ) is None && e is SerializationError,
                },
            },
    {
        let timestamp = generate_timestamp();
        self.multi_factor_auth_at(mfa_code, timestamp.as_str())
    }

    /// Begin to refresh the access token, at the request timestamp given. It
    /// needs a stored token that carries a refresh token: without either the
    /// request is invalid, and nothing is to be sent. The password is not
    /// needed. The manager itself does not change.
    pub fn refresh_token_at(&mut self, timestamp: &str) -> (r: WebullResult<HttpRequest>)
        ensures
            *final(self) == *old(self),
            exists|answer: StoreAnswer| #[trigger]
                is_answer(
                    answer,
                    old(self).token_store.stored(),
                    old(self).token_store.reliable(),
                ) && is_refresh_of(r, old(self).config(), answer, timestamp@),
    {
        let answer = self.token_store.get_token();
        refresh_request_from(&self.config, answer, timestamp)
    }

    /// Begin to refresh the access token, as `refresh_token_at` does with the
    /// timestamp that the system clock gives.
    pub fn refresh_token(&mut self) -> (r: WebullResult<HttpRequest>)
        ensures
            *final(self) == *old(self),
            exists|answer: StoreAnswer, timestamp: Seq<char>|
                is_answer(
                    answer,
                    old(self).token_store.stored(),
                    old(self).token_store.reliable(),
                ) && #[trigger] is_refresh_of(r, old(self).config(), answer, timestamp),
    {
        let answer = self.token_store.get_token();
        let timestamp = generate_timestamp();
        let r = refresh_request_from(&self.config, answer, timestamp.as_str());
        assert(is_refresh_of(r, self.config(), answer, timestamp@));
        r
    }

    /// Judge the status of the answer to a login, verification or refresh
    /// request: success lets the exchange go on, anything else ends it with
    /// the error that the status stands for.
    pub fn check_status(status: u16, body: String) -> (r: WebullResult<()>)
        ensures
            match r {
                Ok(_) => is_success(status),
                Err(e) => !is_success(status) && is_status_error(e, status, body),
            },
    {
        if status_is_success(status) {
            Ok(())
        } else {
            Err(status_error(status, body))
        }
    }

    /// Complete a login, verification or refresh with the answer that came
    /// at `now`: the new token expires `expires_in` seconds after `now`. It
    /// takes the place of whatever the store held, and is returned.
    pub fn accept_login(&mut self, login: LoginResponse, now: i64) -> (r: WebullResult<
        AccessToken,
    >)
        requires
            i64::MIN <= login.expires_in * 1000 <= i64::MAX,
            i64::MIN <= expiry(now, login.expires_in) <= i64::MAX,
        ensures
            final(self).credentials() == old(self).credentials(),
            final(self).config() == old(self).config(),
            final(self).token_store.reliable() == old(self).token_store.reliable(),
            old(self).token_store.reliable() ==> r is Ok,
            r matches Ok(token) ==> {
                &&& token.token == login.access_token
                &&& token.expires_at == expiry(now, login.expires_in)
                &&& token.refresh_token == Some(login.refresh_token)
                &&& final(self).token_store.stored() == Some(token)
            },
    {
        let token = AccessToken {
            token: login.access_token,
            expires_at: now + login.expires_in * 1000,
            refresh_token: Some(login.refresh_token),
        };
        match self.token_store.store_token(token.clone()) {
            Ok(_) => Ok(token),
            Err(e) => Err(e),
        }
    }

    /// Get the access token as it stands at the time `now`: the stored token
    /// if there is one and it has not expired. A token that has expired counts
    /// as no token: whoever asks is unauthorized.
    pub fn get_token_at(&self, now: i64) -> (r: WebullResult<AccessToken>)
        ensures
            is_token_result(r, self.token_store.stored(), self.token_store.reliable(), now),
    {
        token_from(self.token_store.get_token(), now)
    }

    /// Get the current access token, as `get_token_at` does at the time that
    /// the system clock gives.
    pub fn get_token(&self) -> (r: WebullResult<AccessToken>)
        ensures
            exists|now: i64| #[trigger]
                is_token_result(r, self.token_store.stored(), self.token_store.reliable(), now),
    {
        let now = utc_now_millis();
        self.get_token_at(now)
    }

    /// Begin to revoke the current token, at the request timestamp given.
    /// With no token in the store there is nothing to revoke, and nothing is
    /// to be sent. Else the result is the logout request, whose answer goes to
    /// `finish_revoke`. The manager itself does not change.
    pub fn revoke_token_at(&mut self, timestamp: &str) -> (r: WebullResult<Option<HttpRequest>>)
        ensures
            *final(self) == *old(self),
            exists|answer: StoreAnswer| #[trigger]
                is_answer(
                    answer,
                    old(self).token_store.stored(),
                    old(self).token_store.reliable(),
                ) && is_revoke_of(r, old(self).config(), answer, timestamp@),
    {
        let answer = self.token_store.get_token();
        revoke_request_from(&self.config, answer, timestamp)
    }

    /// Begin to revoke the current token, as `revoke_token_at` does with the
    /// timestamp that the system clock gives.
    pub fn revoke_token(&mut self) -> (r: WebullResult<Option<HttpRequest>>)
        ensures
            *final(self) == *old(self),
            exists|answer: StoreAnswer, timestamp: Seq<char>|
                is_answer(
                    answer,
                    old(self).token_store.stored(),
                    old(self).token_store.reliable(),
                ) && #[trigger] is_revoke_of(r, old(self).config(), answer, timestamp),
    {
        let answer = self.token_store.get_token();
        let timestamp = generate_timestamp();
        let r = revoke_request_from(&self.config, answer, timestamp.as_str());
        assert(is_revoke_of(r, self.config(), answer, timestamp@));
        r
    }

    /// Complete the revocation with the status of the logout's answer.
    /// Success, and 401, which says that the token was invalid already, clear
    /// the store and the credentials. Any other status is an error, and
    /// leaves both as they are.
    pub fn finish_revoke(&mut self, status: u16, body: String) -> (r: WebullResult<()>)
        ensures
            final(self).config() == old(self).config(),
            final(self).token_store.reliable() == old(self).token_store.reliable(),
            if is_success(status) || status == 401 {
                &&& old(self).token_store.reliable() ==> r is Ok
                &&& r is Ok ==> final(self).token_store.stored() is None
                    && final(self).credentials() is None
                &&& r is Err ==> final(self).credentials() == old(self).credentials()
            } else {
                &&& r matches Err(e) && is_status_error(e, status, body)
                &&& *final(self) == *old(self)
            },
    {
        if !status_is_success(status) && status != 401 {
            return Err(status_error(status, body));
        }
        match self.token_store.clear_token() {
            Ok(_) => {
                self.credentials = None;
                Ok(())
            },
            Err(e) => Err(e),
        }
    }
}

} // verus!
