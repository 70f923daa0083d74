use crate::auth::{
    is_answer, is_status_error, status_error, token_from, token_of, AccessToken, AuthManager,
    StoreAnswer, TokenStore,
};
use crate::error::{WebullError, WebullResult};
use crate::models::response::ApiResponse;
use crate::transport::{is_success, status_is_success, HttpRequest, HttpRequestView, Method};
use crate::utils::cache::{
    fetched, law_set_then_get, request_key, stored, CacheEntry, CacheManager, Slot,
};
use crate::utils::clock::{elapsed, instant_now, millis_since, utc_now_millis};
use crate::utils::rate_limit::{admitted, RateLimiter};
use crate::utils::serialization::{texts, TextField};
use crate::utils::text::{
    chain, chain3, text_of, trim_end_char, trim_start_char, without_leading, without_trailing,
};
use vstd::prelude::*;

verus! {

/// The time for which a response stays in the cache, in milliseconds.
pub const RESPONSE_TTL: u64 = 60_000;

/// The path of the URL that a text stands for, percent-encoded: what
/// `url::Url::path` returns of what `url::Url::parse` makes of the text. `None`
/// where the text is no absolute URL.
pub uninterp spec fn url_path(text: Seq<char>) -> Option<Seq<char>>;

/// Calls `url::Url::parse` on the text and `Url::path` on the result. Where
/// the text does not parse, the error's description is returned.
#[verifier::external_body]
pub(crate) fn url_path_of(text: &str) -> (r: Result<String, String>)
    ensures
        match r {
            Ok(path) => url_path(text@) == Some(path@),
            Err(_) => url_path(text@) is None,
        },
{
    match url::Url::parse(text) {
        Ok(url) => Ok(url.path().to_string()),
        Err(e) => Err(e.to_string()),
    }
}

/// The number that a text holds in decimal: digits only, after a plus sign
/// at most, and no more than fits.
pub open spec fn number_of(text: Seq<char>) -> Option<u64> {
    let digits = if text.len() > 0 && text[0] == '+' {
        text.drop_first()
    } else {
        text
    };
    if digits.len() > 0 && all_digits(digits) && value_of(digits) <= u64::MAX {
        Some(value_of(digits) as u64)
    } else {
        None
    }
}

/// Whether every character of a text is a decimal digit.
pub open spec fn all_digits(text: Seq<char>) -> bool {
    forall|i: int| 0 <= i < text.len() ==> '0' <= #[trigger] text[i] <= '9'
}

/// The value of a text of decimal digits.
pub open spec fn value_of(digits: Seq<char>) -> nat
    decreases digits.len(),
{
    if digits.len() == 0 {
        0
    } else {
        (value_of(digits.drop_last()) * 10 + (digits.last() as nat - '0' as nat)) as nat
    }
}

/// Calls `str::parse::<u64>`, which reads an optional plus sign followed by
/// decimal digits only, and fails on anything else and on a number that does
/// not fit.
#[verifier::external_body]
pub(crate) fn parse_u64(text: &str) -> (number: Option<u64>)
    ensures
        number == number_of(text@),
{
    text.parse::<u64>().ok()
}

/// A call of an endpoint: the method and the path below the base URL.
#[derive(Debug, Clone, PartialEq, Eq)]
pub struct Route {
    pub method: Method,
    pub path: String,
}

/// What the dispatcher makes of a response.
#[derive(Debug, Clone, PartialEq, Eq)]
pub enum Reply {
    /// The server limits the rate: suspend for this many seconds, then fail
    /// the call with this error
    RateLimited(u64, WebullError),
    /// The call fails with this error
    Failed(WebullError),
    /// The response's body holds the envelope
    Body(String),
}

/// The seconds to suspend for after a response that limits the rate: the
/// number in its `retry-after` header, or one second where there is no such
/// header or none that holds a number.
pub open spec fn retry_delay(retry_after: Option<&str>) -> u64 {
    match retry_after {
        Some(text) => match number_of(text@) {
            Some(seconds) => seconds,
            None => 1,
        },
        None => 1,
    }
}

/// Whether `reply` is what the dispatcher makes of a response with the given
/// status, `retry-after` header and body: 429 limits the rate, and the call
/// fails after the suspension, without a retry; 401 fails the
/// call as unauthorized; any other status that does not report success fails it
/// with an API error that carries the status in decimal as its code and the
/// body as its message; success hands the body on.
pub open spec fn is_reply(
    reply: Reply,
    status: u16,
    retry_after: Option<&str>,
    body: String,
) -> bool {
    if status == 429 {
        reply == Reply::RateLimited(retry_delay(retry_after), WebullError::RateLimitExceeded)
    } else if is_success(status) {
        reply == Reply::Body(body)
    } else {
        reply matches Reply::Failed(e) && is_status_error(e, status, body)
    }
}

/// Whether `result` is what an envelope yields: its payload where it reports
/// success and holds one; an API error with the envelope's code and message,
/// "unknown" and "Unknown error" standing in for what it does not hold, where
/// it reports failure; and the API error "no_data" where it reports success
/// but holds no payload.
pub open spec fn is_envelope_result<T>(result: WebullResult<T>, envelope: ApiResponse<T>) -> bool {
    if !envelope.success {
        result matches Err(WebullError::ApiError { code, message }) && code@ == (match envelope.code {
            Some(text) => text@,
            None => "unknown"@,
        }) && message@ == (match envelope.message {
            Some(text) => text@,
            None => "Unknown error"@,
        })
    } else {
        match envelope.data {
            Some(data) => result matches Ok(payload) && payload == data,
            None => result matches Err(WebullError::ApiError { code, message }) && code@
                == "no_data"@ && message@ == "Response did not contain data"@,
        }
    }
}

/// The URL of a path below a base URL: the two with exactly one slash
/// between them.
pub open spec fn url_of(base_url: Seq<char>, path: Seq<char>) -> Seq<char> {
    without_trailing(base_url, '/') + "/"@ + without_leading(path, '/')
}

/// The request to a path before it is signed: the method, the URL, the body,
/// and the declaration of the body as JSON where there is one.
pub open spec fn plain_request(
    method: Method,
    base_url: Seq<char>,
    path: Seq<char>,
    body: Option<Seq<char>>,
) -> HttpRequestView {
    HttpRequestView {
        method,
        url: url_of(base_url, path),
        headers: if body is Some {
            seq![("content-type"@, "application/json"@)]
        } else {
            Seq::empty()
        },
        body,
    }
}

/// A request with one more header: the authorization by a bearer token.
pub open spec fn with_bearer(request: HttpRequestView, token: Seq<char>) -> HttpRequestView {
    HttpRequestView {
        headers: request.headers.push(("authorization"@, "Bearer "@ + token)),
        ..request
    }
}

/// Whether `result` is what adding the bearer token to `request` gives at
/// the time `now`, for each answer of the token store: the request with the
/// authorization by the token, if the store holds one that has not expired;
/// the answer that the call is unauthorized, if it holds none or one that has
/// expired; and the store's error, if it failed.
pub open spec fn is_authenticated_with(
    result: WebullResult<HttpRequest>,
    request: HttpRequestView,
    answer: StoreAnswer,
    now: i64,
) -> bool {
    match token_of(answer, now) {
        Ok(token) => match result {
            Ok(signed) => signed@ == with_bearer(request, token.token@),
            Err(_) => false,
        },
        Err(e) => result == Err::<HttpRequest, WebullError>(e),
    }
}

/// Whether `result` is what adding the bearer token to `request` gives at
/// the time `now`, from a store that holds `stored`: what
/// `is_authenticated_with` says of the store's answer.
pub open spec fn is_authenticated(
    result: WebullResult<HttpRequest>,
    request: HttpRequestView,
    stored: Option<AccessToken>,
    reliable: bool,
    now: i64,
) -> bool {
    exists|answer: StoreAnswer| #[trigger]
        is_answer(answer, stored, reliable) && is_authenticated_with(result, request, answer, now)
}

/// Add the bearer token to a request at the time `now`, from the answer of
/// the token store.
pub fn authenticate_request_with(request: HttpRequest, answer: StoreAnswer, now: i64) -> (r:
    WebullResult<HttpRequest>)
    ensures
        is_authenticated_with(r, request@, answer, now),
{
    let token = match token_from(answer, now) {
        Ok(token) => token,
        Err(e) => {
            return Err(e);
        },
    };
    let mut signed = request;
    let ghost before = signed.headers@;
    let value = chain("Bearer ", token.token.as_str());
    signed.headers.push(TextField { name: "authorization".to_owned(), value });
    assert(texts(signed.headers@) =~= texts(before).push(
        ("authorization"@, "Bearer "@ + token.token@),
    ));
    Ok(signed)
}

/// How far the dispatcher has come with a request.
#[derive(Debug, Clone, PartialEq, Eq)]
pub enum Progress {
    /// The response was in the cache: this is its body, and nothing is sent
    Hit(String),
    /// The window is full: suspend for this many milliseconds, then hand the
    /// request to `resume`
    Suspend(u64, HttpRequest),
    /// Send this request, and hand the answer to `classify`
    Send(HttpRequest),
    /// The call fails with this error
    Fail(WebullError),
}

/// Whether `progress` is what signing `request` leads to: the signed request
/// to send, or the failure.
pub open spec fn is_signing(
    progress: Progress,
    request: HttpRequestView,
    stored: Option<AccessToken>,
    reliable: bool,
    wall: i64,
) -> bool {
    match progress {
        Progress::Send(signed) => is_authenticated(Ok(signed), request, stored, reliable, wall),
        Progress::Fail(e) => is_authenticated(Err(e), request, stored, reliable, wall),
        _ => false,
    }
}

/// Whether a dispatcher went from `before` to `after`, with `progress`, by
/// asking for the admission of `request` at the time `now` and, where it was
/// granted at once, signing it at the wall-clock time `wall`. The budget is
/// that of the path of the request's URL, sixty grants a minute. A full
/// window suspends the request, unsigned. A URL that is none is an invalid
/// request. Nothing else changes.
pub open spec fn is_admission(
    progress: Progress,
    before: BaseEndpoint,
    after: BaseEndpoint,
    request: HttpRequestView,
    stored: Option<AccessToken>,
    reliable: bool,
    now: u64,
    wall: i64,
) -> bool {
    &&& after.base_url() == before.base_url()
    &&& forall|name: Seq<char>| #[trigger] after.cached(name) == before.cached(name)
    &&& match url_path(request.url) {
        None => progress matches Progress::Fail(e) && e is InvalidRequest && forall|
            other: Seq<char>,
        | #[trigger] after.window(other) == before.window(other),
        Some(path) => {
            &&& after.window(path) == admitted(before.window(path), now, 60).0
            &&& forall|other: Seq<char>|
                other != path ==> #[trigger] after.window(other) == before.window(other)
            &&& match admitted(before.window(path), now, 60).1 {
                Some(delay) => progress matches Progress::Suspend(millis, held) && millis == delay
                    && held@ == request,
                None => is_signing(progress, request, stored, reliable, wall),
            }
        },
    }
}

/// Whether a dispatcher went from `before` to `after`, with `progress`, by
/// taking up `request` after its suspension, at the time `now`: the grant goes
/// on record, and the request is signed at the wall-clock time `wall`.
pub open spec fn is_resumption(
    progress: Progress,
    before: BaseEndpoint,
    after: BaseEndpoint,
    request: HttpRequestView,
    stored: Option<AccessToken>,
    reliable: bool,
    now: u64,
    wall: i64,
) -> bool {
    &&& after.base_url() == before.base_url()
    &&& forall|name: Seq<char>| #[trigger] after.cached(name) == before.cached(name)
    &&& match url_path(request.url) {
        None => progress matches Progress::Fail(e) && e is InvalidRequest && forall|
            other: Seq<char>,
        | #[trigger] after.window(other) == before.window(other),
        Some(path) => {
            &&& after.window(path) == before.window(path).push(now)
            &&& forall|other: Seq<char>|
                other != path ==> #[trigger] after.window(other) == before.window(other)
            &&& is_signing(progress, request, stored, reliable, wall)
        },
    }
}

/// Whether a dispatcher went from `before` to `after`, with `progress`, by
/// beginning a request with the given method, path and body at the time `now`.
/// A GET request, and a POST request, first looks for its response in the
/// cache; a hit is the end of it. Else, and for the other methods, the request
/// is built and goes to admission and signing.
pub open spec fn is_beginning(
    progress: Progress,
    before: BaseEndpoint,
    after: BaseEndpoint,
    method: Method,
    path: &str,
    body: Option<&str>,
    stored: Option<AccessToken>,
    reliable: bool,
    now: u64,
    wall: i64,
) -> bool {
    let request = plain_request(method, before.base_url(), path@, text_of(body));
    match cache_of(method) {
        None => is_admission(progress, before, after, request, stored, reliable, now, wall),
        Some(name) => {
            let outcome = fetched(
                before.cached(name),
                request_key(method_text(method), path, None, body),
                now,
            );
            match outcome.1 {
                Some(text) => {
                    &&& progress == Progress::Hit(text)
                    &&& after.base_url() == before.base_url()
                    &&& after.cached(name) == outcome.0
                    &&& forall|other: Seq<char>|
                        other != name ==> #[trigger] after.cached(other) == before.cached(other)
                    &&& forall|endpoint: Seq<char>| #[trigger]
                        after.window(endpoint) == before.window(endpoint)
                },
                None => exists|looked: BaseEndpoint|
                    {
                        &&& #[trigger] looked.cached(name) == outcome.0
                        &&& looked.base_url() == before.base_url()
                        &&& forall|other: Seq<char>|
                            other != name ==> #[trigger] looked.cached(other) == before.cached(
                                other,
                            )
                        &&& forall|endpoint: Seq<char>| #[trigger]
                            looked.window(endpoint) == before.window(endpoint)
                        &&& is_admission(
                            progress,
                            looked,
                            after,
                            request,
                            stored,
                            reliable,
                            now,
                            wall,
                        )
                    },
            }
        },
    }
}

/// The name of the cache that holds the responses to requests of a method:
/// "get" for GET, "post" for POST, none for the others.
pub open spec fn cache_of(method: Method) -> Option<Seq<char>> {
    match method {
        Method::Get => Some("get"@),
        Method::Post => Some("post"@),
        _ => None,
    }
}

/// The name of a method as a string slice.
pub open spec fn method_text(method: Method) -> &'static str {
    match method {
        Method::Get => "GET",
        Method::Post => "POST",
        Method::Put => "PUT",
        Method::Delete => "DELETE",
    }
}

/// Whether a dispatcher went from `before` to `after` by finishing a request
/// whose response came at the time `now`: the response to a GET or POST request
/// is kept for a minute; a PUT request drops the responses to GET requests, all
/// of them, and a DELETE request those to GET and POST requests, for what they
/// changed may be cached.
pub open spec fn is_finish(
    before: BaseEndpoint,
    after: BaseEndpoint,
    method: Method,
    path: &str,
    body: Option<&str>,
    response: String,
    now: u64,
) -> bool {
    let kept = CacheEntry { value: response, created_at: now, ttl: RESPONSE_TTL };
    let key = request_key(method_text(method), path, None, body);
    &&& after.base_url() == before.base_url()
    &&& forall|endpoint: Seq<char>| #[trigger] after.window(endpoint) == before.window(endpoint)
    &&& forall|name: Seq<char>|
        name != "get"@ && name != "post"@ ==> #[trigger] after.cached(name) == before.cached(name)
    &&& after.cached("get"@) == match method {
        Method::Get => stored(before.cached("get"@), key, kept, now, 1000),
        Method::Post => before.cached("get"@),
        _ => Seq::empty(),
    }
    &&& after.cached("post"@) == match method {
        Method::Post => stored(before.cached("post"@), key, kept, now, 1000),
        Method::Delete => Seq::empty(),
        _ => before.cached("post"@),
    }
}

/// What a dispatcher has kept, it answers with. Take a dispatcher that
/// finished a GET or POST request at `now`. The same request, begun on that
/// dispatcher no more than a minute later, is answered from the cache with the
/// response that was kept: nothing is sent for it, whoever begins it.
pub proof fn law_kept_response_is_found(
    before: BaseEndpoint,
    kept: BaseEndpoint,
    after: BaseEndpoint,
    method: Method,
    path: &str,
    body: Option<&str>,
    response: String,
    held: Option<AccessToken>,
    reliable: bool,
    progress: Progress,
    now: u64,
    later: u64,
    wall: i64,
)
    requires
        cache_of(method) is Some,
        is_finish(before, kept, method, path, body, response, now),
        is_beginning(progress, kept, after, method, path, body, held, reliable, later, wall),
        elapsed(later, now) <= RESPONSE_TTL,
    ensures
        progress == Progress::Hit(response),
        forall|endpoint: Seq<char>| #[trigger] after.window(endpoint) == before.window(endpoint),
{
    let entry = CacheEntry { value: response, created_at: now, ttl: RESPONSE_TTL };
    let key = request_key(method_text(method), path, None, body);
    law_set_then_get(before.cached(cache_of(method)->0), key, entry, now, 1000, later);
}

/// Base endpoint for API requests: the dispatcher's base URL, its rate
/// limiter and its response caches. Responses are cached as the text of their
/// bodies, those to GET requests under the name "get" and those to POST
/// requests under "post".
pub struct BaseEndpoint {
    /// Base URL for API requests
    base_url: String,
    /// Rate limiter
    rate_limiter: RateLimiter,
    /// Cache manager
    cache_manager: CacheManager<String>,
    /// The moment from which the dispatcher counts its milliseconds
    origin: std::time::Instant,
}

impl BaseEndpoint {
    /// The base URL.
    pub closed spec fn base_url(&self) -> Seq<char> {
        self.base_url@
    }

    /// The grants on record for a path, oldest first.
    pub closed spec fn window(&self, path: Seq<char>) -> Seq<u64> {
        self.rate_limiter.window(path)
    }

    /// What the cache under `name` holds; nothing where there is no such
    /// cache yet.
    pub closed spec fn cached(&self, name: Seq<char>) -> Seq<Slot<String>> {
        if self.cache_manager.caches().contains_key(name) {
            self.cache_manager.caches()[name]@
        } else {
            Seq::empty()
        }
    }

    /// The dispatcher's parts fit together.
    pub closed spec fn wf(&self) -> bool {
        &&& self.cache_manager.wf()
        &&& self.rate_limiter.requests_per_minute() == 60
        &&& forall|name: Seq<char>| #[trigger]
            self.cache_manager.caches().contains_key(name)
                ==> self.cache_manager.caches()[name].default_ttl() == RESPONSE_TTL
                && self.cache_manager.caches()[name].max_entries() == 1000
    }

    /// Create a new base endpoint, with sixty requests per minute and path,
    /// and nothing cached.
    pub fn new(base_url: String) -> (endpoint: Self)
        ensures
            endpoint.wf(),
            endpoint.base_url() == base_url@,
            forall|path: Seq<char>| #[trigger] endpoint.window(path) == Seq::<u64>::empty(),
            forall|name: Seq<char>| #[trigger]
                endpoint.cached(name) == Seq::<Slot<String>>::empty(),
    {
        BaseEndpoint {
            base_url,
            rate_limiter: RateLimiter::new(60),
            cache_manager: CacheManager::new(),
            origin: instant_now(),
        }
    }

    /// Build a URL for the API: the base URL and the path, with exactly one
    /// slash between them.
    pub fn build_url(&self, path: &str) -> (url: String)
        ensures
            url@ == url_of(self.base_url(), path@),
    {
        let base = trim_end_char(self.base_url.as_str(), '/');
        let path = trim_start_char(path, '/');
        chain3(base, "/", path)
    }

    /// Build a request to the API: to the URL of the path, with the body, if
    /// there is one, declared as JSON.
    pub fn request(&self, method: Method, path: &str, body: Option<&str>) -> (request: HttpRequest)
        ensures
            request@ == plain_request(method, self.base_url(), path@, text_of(body)),
    {
        let url = self.build_url(path);
        let mut headers: Vec<TextField> = Vec::new();
        let owned = match body {
            Some(text) => {
                headers.push(TextField::new("content-type", "application/json"));
                Some(text.to_owned())
            },
            None => None,
        };
        let request = HttpRequest { method, url, headers, body: owned };
        assert(request@.headers =~= plain_request(
            method,
            self.base_url(),
            path@,
            text_of(body),
        ).headers);
        request
    }

    /// Add authentication headers to a request, at the time `now`: the
    /// bearer token that the manager holds. Without a usable token the call is
    /// unauthorized.
    pub fn authenticate_request_at<S: TokenStore>(
        auth: &AuthManager<S>,
        request: HttpRequest,
        now: i64,
    ) -> (r: WebullResult<HttpRequest>)
        ensures
            is_authenticated(
                r,
                request@,
                auth.token_store.stored(),
                auth.token_store.reliable(),
                now,
            ),
    {
        authenticate_request_with(request, auth.token_store.get_token(), now)
    }

    /// Add authentication headers to a request, as `authenticate_request_at`
    /// does at the time that the system clock gives.
    pub fn authenticate_request<S: TokenStore>(auth: &AuthManager<S>, request: HttpRequest) -> (r:
        WebullResult<HttpRequest>)
        ensures
            exists|now: i64| #[trigger]
                is_authenticated(
                    r,
                    request@,
                    auth.token_store.stored(),
                    auth.token_store.reliable(),
                    now,
                ),
    {
        let now = utc_now_millis();
        let r = BaseEndpoint::authenticate_request_at(auth, request, now);
        assert(is_authenticated(
            r,
            request@,
            auth.token_store.stored(),
            auth.token_store.reliable(),
            now,
        ));
        r
    }

    /// Signs a request, or fails.
    fn sign<S: TokenStore>(auth: &AuthManager<S>, request: HttpRequest, wall: i64) -> (progress:
        Progress)
        ensures
            is_signing(
                progress,
                request@,
                auth.token_store.stored(),
                auth.token_store.reliable(),
                wall,
            ),
    {
        match BaseEndpoint::authenticate_request_at(auth, request, wall) {
            Ok(signed) => Progress::Send(signed),
            Err(e) => Progress::Fail(e),
        }
    }

    /// Send a request to the API, at the time `now` on the dispatcher's
    /// clock and `wall` on the wall clock: ask the rate limiter for admission,
    /// and sign a request that is granted at once. The answer to the request
    /// that was sent goes to `classify`.
    pub fn send_request_at<S: TokenStore>(
        &mut self,
        auth: &AuthManager<S>,
        request: HttpRequest,
        now: u64,
        wall: i64,
    ) -> (progress: Progress)
        requires
            old(self).wf(),
        ensures
            final(self).wf(),
            is_admission(
                progress,
                *old(self),
                *final(self),
                request@,
                auth.token_store.stored(),
                auth.token_store.reliable(),
                now,
                wall,
            ),
    {
        let path = match url_path_of(request.url.as_str()) {
            Ok(path) => path,
            Err(why) => {
                return Progress::Fail(
                    WebullError::InvalidRequest(chain("Invalid URL: ", why.as_str())),
                );
            },
        };
        match self.rate_limiter.wait_at(path.as_str(), now) {
            Some(delay) => Progress::Suspend(delay, request),
            None => BaseEndpoint::sign(auth, request, wall),
        }
    }

    /// Send a request to the API, as `send_request_at` does at the times
    /// that the dispatcher's clock and the system clock show.
    pub fn send_request<S: TokenStore>(
        &mut self,
        auth: &AuthManager<S>,
        request: HttpRequest,
    ) -> (progress: Progress)
        requires
            old(self).wf(),
        ensures
            final(self).wf(),
            exists|now: u64, wall: i64| #[trigger]
                is_admission(
                    progress,
                    *old(self),
                    *final(self),
                    request@,
                    auth.token_store.stored(),
                    auth.token_store.reliable(),
                    now,
                    wall,
                ),
    {
        let now = millis_since(&self.origin);
        let wall = utc_now_millis();
        self.send_request_at(auth, request, now, wall)
    }

    /// Take up a request after its suspension, at the time `now` on the
    /// dispatcher's clock and `wall` on the wall clock: put its grant on
    /// record, and sign it.
    pub fn resume_at<S: TokenStore>(
        &mut self,
        auth: &AuthManager<S>,
        request: HttpRequest,
        now: u64,
        wall: i64,
    ) -> (progress: Progress)
        requires
            old(self).wf(),
        ensures
            final(self).wf(),
            is_resumption(
                progress,
                *old(self),
                *final(self),
                request@,
                auth.token_store.stored(),
                auth.token_store.reliable(),
                now,
                wall,
            ),
    {
        let path = match url_path_of(request.url.as_str()) {
            Ok(path) => path,
            Err(why) => {
                return Progress::Fail(
                    WebullError::InvalidRequest(chain("Invalid URL: ", why.as_str())),
                );
            },
        };
        self.rate_limiter.resume_at(path.as_str(), now);
        BaseEndpoint::sign(auth, request, wall)
    }

    /// Take up a request after its suspension, as `resume_at` does at the
    /// times that the dispatcher's clock and the system clock show.
    pub fn resume<S: TokenStore>(
        &mut self,
        auth: &AuthManager<S>,
        request: HttpRequest,
    ) -> (progress: Progress)
        requires
            old(self).wf(),
        ensures
            final(self).wf(),
            exists|now: u64, wall: i64| #[trigger]
                is_resumption(
                    progress,
                    *old(self),
                    *final(self),
                    request@,
                    auth.token_store.stored(),
                    auth.token_store.reliable(),
                    now,
                    wall,
                ),
    {
        let now = millis_since(&self.origin);
        let wall = utc_now_millis();
        self.resume_at(auth, request, now, wall)
    }

    /// Looks up the response to a request in the cache of its method.
    fn lookup(&mut self, method: Method, path: &str, body: Option<&str>, now: u64) -> (hit: Option<
        String,
    >)
        requires
            old(self).wf(),
        ensures
            final(self).wf(),
            final(self).base_url() == old(self).base_url(),
            forall|endpoint: Seq<char>| #[trigger]
                final(self).window(endpoint) == old(self).window(endpoint),
            match cache_of(method) {
                None => hit is None && forall|name: Seq<char>| #[trigger]
                    final(self).cached(name) == old(self).cached(name),
                Some(name) => {
                    let outcome = fetched(
                        old(self).cached(name),
                        request_key(method_text(method), path, None, body),
                        now,
                    );
                    &&& hit == outcome.1
                    &&& final(self).cached(name) == outcome.0
                    &&& forall|other: Seq<char>|
                        other != name ==> #[trigger] final(self).cached(other) == old(self).cached(
                            other,
                        )
                },
            },
    {
        match method {
            Method::Get => {
                let cache = self.cache_manager.get_cache("get");
                cache.get_at("GET", path, None, body, now)
            },
            Method::Post => {
                let cache = self.cache_manager.get_cache("post");
                cache.get_at("POST", path, None, body, now)
            },
            _ => None,
        }
    }

    /// Begin a request with the given method, at the time `now` on the
    /// dispatcher's clock and `wall` on the wall clock: look for its response
    /// in the cache, and else build it and send it on.
    pub fn begin_at<S: TokenStore>(
        &mut self,
        auth: &AuthManager<S>,
        method: Method,
        path: &str,
        body: Option<&str>,
        now: u64,
        wall: i64,
    ) -> (progress: Progress)
        requires
            old(self).wf(),
        ensures
            final(self).wf(),
            is_beginning(
                progress,
                *old(self),
                *final(self),
                method,
                path,
                body,
                auth.token_store.stored(),
                auth.token_store.reliable(),
                now,
                wall,
            ),
    {
        if let Some(text) = self.lookup(method, path, body, now) {
            return Progress::Hit(text);
        }
        let ghost looked = *self;
        let request = self.request(method, path, body);
        let progress = self.send_request_at(auth, request, now, wall);
        proof {
            if cache_of(method) is Some {
                let name = cache_of(method)->0;
                assert(looked.cached(name) == fetched(
                    old(self).cached(name),
                    request_key(method_text(method), path, None, body),
                    now,
                ).0);
            }
        }
        progress
    }

    /// Send a GET request to the API, at the time `now` on the dispatcher's
    /// clock and `wall` on the wall clock.
    pub fn get_at<S: TokenStore>(
        &mut self,
        auth: &AuthManager<S>,
        path: &str,
        now: u64,
        wall: i64,
    ) -> (progress: Progress)
        requires
            old(self).wf(),
        ensures
            final(self).wf(),
            is_beginning(
                progress,
                *old(self),
                *final(self),
                Method::Get,
                path,
                None,
                auth.token_store.stored(),
                auth.token_store.reliable(),
                now,
                wall,
            ),
    {
        self.begin_at(auth, Method::Get, path, None, now, wall)
    }

    /// Send a GET request to the API, as `get_at` does at the times that the
    /// dispatcher's clock and the system clock show.
    pub fn get<S: TokenStore>(&mut self, auth: &AuthManager<S>, path: &str) -> (progress: Progress)
        requires
            old(self).wf(),
        ensures
            final(self).wf(),
            exists|now: u64, wall: i64| #[trigger]
                is_beginning(
                    progress,
                    *old(self),
                    *final(self),
                    Method::Get,
                    path,
                    None,
                    auth.token_store.stored(),
                    auth.token_store.reliable(),
                    now,
                    wall,
                ),
    {
        let now = millis_since(&self.origin);
        let wall = utc_now_millis();
        self.begin_at(auth, Method::Get, path, None, now, wall)
    }

    /// Send a POST request with the given body to the API, at the time `now`
    /// on the dispatcher's clock and `wall` on the wall clock.
    pub fn post_at<S: TokenStore>(
        &mut self,
        auth: &AuthManager<S>,
        path: &str,
        body: &str,
        now: u64,
        wall: i64,
    ) -> (progress: Progress)
        requires
            old(self).wf(),
        ensures
            final(self).wf(),
            is_beginning(
                progress,
                *old(self),
                *final(self),
                Method::Post,
                path,
                Some(body),
                auth.token_store.stored(),
                auth.token_store.reliable(),
                now,
                wall,
            ),
    {
        self.begin_at(auth, Method::Post, path, Some(body), now, wall)
    }

    /// Send a POST request to the API, as `post_at` does at the times that
    /// the dispatcher's clock and the system clock show.
    pub fn post<S: TokenStore>(
        &mut self,
        auth: &AuthManager<S>,
        path: &str,
        body: &str,
    ) -> (progress: Progress)
        requires
            old(self).wf(),
        ensures
            final(self).wf(),
            exists|now: u64, wall: i64| #[trigger]
                is_beginning(
                    progress,
                    *old(self),
                    *final(self),
                    Method::Post,
                    path,
                    Some(body),
                    auth.token_store.stored(),
                    auth.token_store.reliable(),
                    now,
                    wall,
                ),
    {
        let now = millis_since(&self.origin);
        let wall = utc_now_millis();
        self.begin_at(auth, Method::Post, path, Some(body), now, wall)
    }

    /// Send a PUT request with the given body to the API, at the time `now`
    /// on the dispatcher's clock and `wall` on the wall clock.
    pub fn put_at<S: TokenStore>(
        &mut self,
        auth: &AuthManager<S>,
        path: &str,
        body: &str,
        now: u64,
        wall: i64,
    ) -> (progress: Progress)
        requires
            old(self).wf(),
        ensures
            final(self).wf(),
            is_beginning(
                progress,
                *old(self),
                *final(self),
                Method::Put,
                path,
                Some(body),
                auth.token_store.stored(),
                auth.token_store.reliable(),
                now,
                wall,
            ),
    {
        self.begin_at(auth, Method::Put, path, Some(body), now, wall)
    }

    /// Send a PUT request to the API, as `put_at` does at the times that the
    /// dispatcher's clock and the system clock show.
    pub fn put<S: TokenStore>(
        &mut self,
        auth: &AuthManager<S>,
        path: &str,
        body: &str,
    ) -> (progress: Progress)
        requires
            old(self).wf(),
        ensures
            final(self).wf(),
            exists|now: u64, wall: i64| #[trigger]
                is_beginning(
                    progress,
                    *old(self),
                    *final(self),
                    Method::Put,
                    path,
                    Some(body),
                    auth.token_store.stored(),
                    auth.token_store.reliable(),
                    now,
                    wall,
                ),
    {
        let now = millis_since(&self.origin);
        let wall = utc_now_millis();
        self.begin_at(auth, Method::Put, path, Some(body), now, wall)
    }

    /// Send a DELETE request to the API, at the time `now` on the
    /// dispatcher's clock and `wall` on the wall clock.
    pub fn delete_at<S: TokenStore>(
        &mut self,
        auth: &AuthManager<S>,
        path: &str,
        now: u64,
        wall: i64,
    ) -> (progress: Progress)
        requires
            old(self).wf(),
        ensures
            final(self).wf(),
            is_beginning(
                progress,
                *old(self),
                *final(self),
                Method::Delete,
                path,
                None,
                auth.token_store.stored(),
                auth.token_store.reliable(),
                now,
                wall,
            ),
    {
        self.begin_at(auth, Method::Delete, path, None, now, wall)
    }

    /// Send a DELETE request to the API, as `delete_at` does at the times
    /// that the dispatcher's clock and the system clock show.
    pub fn delete<S: TokenStore>(&mut self, auth: &AuthManager<S>, path: &str) -> (progress:
        Progress)
        requires
            old(self).wf(),
        ensures
            final(self).wf(),
            exists|now: u64, wall: i64| #[trigger]
                is_beginning(
                    progress,
                    *old(self),
                    *final(self),
                    Method::Delete,
                    path,
                    None,
                    auth.token_store.stored(),
                    auth.token_store.reliable(),
                    now,
                    wall,
                ),
    {
        let now = millis_since(&self.origin);
        let wall = utc_now_millis();
        self.begin_at(auth, Method::Delete, path, None, now, wall)
    }

    /// Finish a request whose response, with the body given, reported
    /// success and held its payload, at the time `now` on the dispatcher's
    /// clock.
    pub fn finish_at(
        &mut self,
        method: Method,
        path: &str,
        body: Option<&str>,
        response: String,
        now: u64,
    )
        requires
            old(self).wf(),
        ensures
            final(self).wf(),
            is_finish(*old(self), *final(self), method, path, body, response, now),
    {
        proof {
            reveal_strlit("get");
            reveal_strlit("post");
            assert("get"@.len() == 3 && "post"@.len() == 4);
        }
        match method {
            Method::Get => {
                let cache = self.cache_manager.get_cache("get");
                cache.set_at("GET", path, None, body, response, Some(RESPONSE_TTL), now);
            },
            Method::Post => {
                let cache = self.cache_manager.get_cache("post");
                cache.set_at("POST", path, None, body, response, Some(RESPONSE_TTL), now);
            },
            Method::Put => {
                let cache = self.cache_manager.get_cache("get");
                cache.clear();
            },
            Method::Delete => {
                let get_cache = self.cache_manager.get_cache("get");
                get_cache.clear();
                let post_cache = self.cache_manager.get_cache("post");
                post_cache.clear();
            },
        }
    }

    /// Finish a request, as `finish_at` does at the time that the
    /// dispatcher's clock shows.
    pub fn finish(&mut self, method: Method, path: &str, body: Option<&str>, response: String)
        requires
            old(self).wf(),
        ensures
            final(self).wf(),
            exists|now: u64| #[trigger]
                is_finish(*old(self), *final(self), method, path, body, response, now),
    {
        let now = millis_since(&self.origin);
        self.finish_at(method, path, body, response, now);
    }

    /// Classify the response to a request by its status.
    pub fn classify(status: u16, retry_after: Option<&str>, body: String) -> (reply: Reply)
        ensures
            is_reply(reply, status, retry_after, body),
    {
        if status == 429 {
            let seconds = match retry_after {
                Some(text) => match parse_u64(text) {
                    Some(seconds) => seconds,
                    None => 1,
                },
                None => 1,
            };
            Reply::RateLimited(seconds, WebullError::RateLimitExceeded)
        } else if status == 401 {
            Reply::Failed(WebullError::Unauthorized)
        } else if !status_is_success(status) {
            Reply::Failed(status_error(status, body))
        } else {
            Reply::Body(body)
        }
    }

    /// Take the payload out of the envelope of a successful response.
    pub fn open_envelope<T>(envelope: ApiResponse<T>) -> (result: WebullResult<T>)
        ensures
            is_envelope_result(result, envelope),
    {
        if !envelope.success {
            let code = match envelope.code {
                Some(code) => code,
                None => "unknown".to_owned(),
            };
            let message = match envelope.message {
                Some(message) => message,
                None => "Unknown error".to_owned(),
            };
            return Err(WebullError::ApiError { code, message });
        }
        match envelope.data {
            Some(data) => Ok(data),
            None => Err(
                WebullError::ApiError {
                    code: "no_data".to_owned(),
                    message: "Response did not contain data".to_owned(),
                },
            ),
        }
    }
}

} // verus!
