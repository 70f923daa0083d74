use crate::auth::{
    expiry, is_answer, is_refresh_of, is_revoke_of, is_signed_request, is_status_error,
    login_fields, refresh_request_from, revoke_request_from, AccessToken, AuthManager,
    Credentials, LoginResponse, MemoryTokenStore, StoreAnswer, TokenStore,
};
use crate::endpoints::base::BaseEndpoint;
use crate::utils::cache::Slot;
use crate::utils::crypto::generate_timestamp;
use crate::config::WebullConfig;
use crate::endpoints::account::AccountEndpoints;
use crate::endpoints::market_data::MarketDataEndpoints;
use crate::endpoints::orders::OrderEndpoints;
use crate::endpoints::watchlists::WatchlistEndpoints;
use crate::error::WebullResult;
use crate::streaming::client::WebSocketClient;
use crate::transport::{is_success, HttpRequest};
use crate::utils::credentials::{CredentialStore, MemoryCredentialStore};
use crate::utils::serialization::json_object_text;
use crate::utils::text::{replace_all, replaced};
use vstd::prelude::*;

verus! {

/// Calls `uuid::Uuid::new_v4` and writes the identifier in its hyphenated
/// form, which has thirty-six characters. The identifier depends on chance:
/// only its length is claimed.
#[verifier::external_body]
pub(crate) fn new_uuid() -> (id: String)
    ensures
        id@.len() == 36,
{
    uuid::Uuid::new_v4().to_hyphenated().to_string()
}

/// A fresh identifier for a device, a connection or a heartbeat: a random
/// UUID in its hyphenated form.
pub fn generate_id() -> (id: String)
    ensures
        id@.len() == 36,
{
    new_uuid()
}

/// Whether a dispatcher is one for the base URL given that has granted and
/// cached nothing yet.
pub open spec fn is_fresh(dispatcher: BaseEndpoint, base_url: Seq<char>) -> bool {
    &&& dispatcher.wf()
    &&& dispatcher.base_url() == base_url
    &&& forall|path: Seq<char>| #[trigger] dispatcher.window(path) == Seq::<u64>::empty()
    &&& forall|name: Seq<char>| #[trigger] dispatcher.cached(name) == Seq::<Slot<String>>::empty()
}

/// Builder for creating a WebullClient.
pub struct WebullClientBuilder<T: TokenStore, C: CredentialStore> {
    pub api_key: Option<String>,
    pub api_secret: Option<String>,
    pub device_id: Option<String>,
    /// Timeout for API requests, in milliseconds
    pub timeout: u64,
    pub base_url: String,
    pub paper_trading: bool,
    pub token_store: T,
    pub credential_store: C,
}

impl WebullClientBuilder<MemoryTokenStore, MemoryCredentialStore> {
    /// Create a new builder with default values: no key, no secret, no
    /// device, a timeout of thirty seconds, the production URL, live trading,
    /// and empty stores in memory.
    pub fn new() -> (builder: Self)
        ensures
            builder.api_key is None,
            builder.api_secret is None,
            builder.device_id is None,
            builder.timeout == 30_000,
            builder.base_url@ == "https://api.webull.com"@,
            !builder.paper_trading,
            builder.token_store.token is None,
            builder.credential_store.credentials is None,
            builder.credential_store.token is None,
    {
        WebullClientBuilder {
            api_key: None,
            api_secret: None,
            device_id: None,
            timeout: 30_000,
            base_url: "https://api.webull.com".to_owned(),
            paper_trading: false,
            token_store: MemoryTokenStore::new(),
            credential_store: MemoryCredentialStore::new(),
        }
    }
}

impl<T: TokenStore, C: CredentialStore> WebullClientBuilder<T, C> {
    /// Set the API key.
    pub fn with_api_key(self, api_key: &str) -> (builder: Self)
        ensures
            builder.api_key matches Some(key) && key@ == api_key@,
            builder.api_secret == self.api_secret,
            builder.device_id == self.device_id,
            builder.timeout == self.timeout,
            builder.base_url == self.base_url,
            builder.paper_trading == self.paper_trading,
            builder.token_store == self.token_store,
            builder.credential_store == self.credential_store,
    {
        let mut builder = self;
        builder.api_key = Some(api_key.to_owned());
        builder
    }

    /// Set the API secret.
    pub fn with_api_secret(self, api_secret: &str) -> (builder: Self)
        ensures
            builder.api_secret matches Some(secret) && secret@ == api_secret@,
            builder.api_key == self.api_key,
            builder.device_id == self.device_id,
            builder.timeout == self.timeout,
            builder.base_url == self.base_url,
            builder.paper_trading == self.paper_trading,
            builder.token_store == self.token_store,
            builder.credential_store == self.credential_store,
    {
        let mut builder = self;
        builder.api_secret = Some(api_secret.to_owned());
        builder
    }

    /// Set the device ID.
    pub fn with_device_id(self, device_id: &str) -> (builder: Self)
        ensures
            builder.device_id matches Some(device) && device@ == device_id@,
            builder.api_key == self.api_key,
            builder.api_secret == self.api_secret,
            builder.timeout == self.timeout,
            builder.base_url == self.base_url,
            builder.paper_trading == self.paper_trading,
            builder.token_store == self.token_store,
            builder.credential_store == self.credential_store,
    {
        let mut builder = self;
        builder.device_id = Some(device_id.to_owned());
        builder
    }

    /// Set the timeout for API requests, in milliseconds.
    pub fn with_timeout(self, timeout: u64) -> (builder: Self)
        ensures
            builder == (WebullClientBuilder { timeout, ..self }),
    {
        let mut builder = self;
        builder.timeout = timeout;
        builder
    }

    /// Set a custom base URL.
    pub fn with_custom_url(self, url: &str) -> (builder: Self)
        ensures
            builder.base_url@ == url@,
            builder.api_key == self.api_key,
            builder.api_secret == self.api_secret,
            builder.device_id == self.device_id,
            builder.timeout == self.timeout,
            builder.paper_trading == self.paper_trading,
            builder.token_store == self.token_store,
            builder.credential_store == self.credential_store,
    {
        let mut builder = self;
        builder.base_url = url.to_owned();
        builder
    }

    /// Set whether to use paper trading.
    pub fn with_paper_trading(self, paper_trading: bool) -> (builder: Self)
        ensures
            builder == (WebullClientBuilder { paper_trading, ..self }),
    {
        let mut builder = self;
        builder.paper_trading = paper_trading;
        builder
    }

    /// Enable paper trading.
    pub fn paper_trading(self) -> (builder: Self)
        ensures
            builder == (WebullClientBuilder { paper_trading: true, ..self }),
    {
        let mut builder = self;
        builder.paper_trading = true;
        builder
    }

    /// Set a custom token store.
    pub fn with_token_store<T2: TokenStore>(self, store: T2) -> (builder: WebullClientBuilder<
        T2,
        C,
    >)
        ensures
            builder.token_store == store,
            builder.api_key == self.api_key,
            builder.api_secret == self.api_secret,
            builder.device_id == self.device_id,
            builder.timeout == self.timeout,
            builder.base_url == self.base_url,
            builder.paper_trading == self.paper_trading,
            builder.credential_store == self.credential_store,
    {
        WebullClientBuilder {
            api_key: self.api_key,
            api_secret: self.api_secret,
            device_id: self.device_id,
            timeout: self.timeout,
            base_url: self.base_url,
            paper_trading: self.paper_trading,
            token_store: store,
            credential_store: self.credential_store,
        }
    }

    /// Set a custom credential store.
    pub fn with_credential_store<C2: CredentialStore>(self, store: C2) -> (builder:
        WebullClientBuilder<T, C2>)
        ensures
            builder.credential_store == store,
            builder.api_key == self.api_key,
            builder.api_secret == self.api_secret,
            builder.device_id == self.device_id,
            builder.timeout == self.timeout,
            builder.base_url == self.base_url,
            builder.paper_trading == self.paper_trading,
            builder.token_store == self.token_store,
    {
        WebullClientBuilder {
            api_key: self.api_key,
            api_secret: self.api_secret,
            device_id: self.device_id,
            timeout: self.timeout,
            base_url: self.base_url,
            paper_trading: self.paper_trading,
            token_store: self.token_store,
            credential_store: store,
        }
    }

    /// Build the WebullClient. A builder without a device ID gets a random
    /// one. The client's manager remembers no credentials, and its one
    /// dispatcher has granted and cached nothing yet.
    pub fn build(self) -> (r: WebullResult<WebullClient<T, C>>)
        ensures
            r matches Ok(client) && {
                &&& client.config.api_key == self.api_key
                &&& client.config.api_secret == self.api_secret
                &&& match self.device_id {
                    Some(device) => client.config.device_id == Some(device),
                    None => client.config.device_id matches Some(device) && device@.len() == 36,
                }
                &&& client.config.timeout == self.timeout
                &&& client.config.base_url == self.base_url
                &&& client.config.paper_trading == self.paper_trading
                &&& client.auth_manager.config == client.config
                &&& client.auth_manager.credentials is None
                &&& client.auth_manager.token_store == self.token_store
                &&& client.credential_store == self.credential_store
                &&& is_fresh(client.dispatcher, self.base_url@)
            },
    {
        let device_id = match self.device_id {
            Some(device) => device,
            None => new_uuid(),
        };
        let config = WebullConfig {
            api_key: self.api_key,
            api_secret: self.api_secret,
            device_id: Some(device_id),
            timeout: self.timeout,
            base_url: self.base_url,
            paper_trading: self.paper_trading,
        };
        let dispatcher = BaseEndpoint::new(config.base_url.clone());
        let auth_manager = AuthManager::new(config.clone(), self.token_store);
        Ok(WebullClient { config, auth_manager, credential_store: self.credential_store, dispatcher })
    }
}

/// Client for interacting with the Webull API.
pub struct WebullClient<T: TokenStore, C: CredentialStore> {
    /// Configuration
    pub config: WebullConfig,
    /// Authentication manager
    pub auth_manager: AuthManager<T>,
    /// Credential store
    pub credential_store: C,
    /// The one dispatcher of the client: its rate limiter and its response
    /// caches, which every endpoint group works on
    pub dispatcher: BaseEndpoint,
}

impl WebullClient<MemoryTokenStore, MemoryCredentialStore> {
    /// Create a new builder for configuring the client.
    pub fn builder() -> (builder: WebullClientBuilder<MemoryTokenStore, MemoryCredentialStore>)
        ensures
            builder.api_key is None,
            builder.api_secret is None,
            builder.device_id is None,
            builder.timeout == 30_000,
            builder.base_url@ == "https://api.webull.com"@,
            !builder.paper_trading,
            builder.token_store.token is None,
            builder.credential_store.credentials is None,
            builder.credential_store.token is None,
    {
        WebullClientBuilder::new()
    }
}

impl<T: TokenStore, C: CredentialStore> WebullClient<T, C> {
    /// Begin to log in to Webull: the result is the login request to send.
    /// The client itself does not change until the login is completed.
    pub fn login(&self, username: &str, password: &str) -> (r: WebullResult<HttpRequest>)
        ensures
            match r {
                Ok(request) => exists|timestamp: Seq<char>| #[trigger]
                    is_signed_request(
                        request,
                        self.config,
                        "/api/passport/login/v5/account"@,
                        None,
                        login_fields(self.config, username@, password@),
                        timestamp,
                    ),
                Err(e) => json_object_text(login_fields(self.config, username@, password@)) is None
                    && e is SerializationError,
            },
    {
        let mut manager = AuthManager::new(self.config.clone(), MemoryTokenStore::new());
        manager.authenticate(username, password)
    }

    /// Complete the login with the answer that came at `now`: the new token,
    /// which expires `expires_in` seconds after `now`, goes to the token store,
    /// and the credentials go to the credential store.
    pub fn login_done(
        &mut self,
        username: &str,
        password: &str,
        login: LoginResponse,
        now: i64,
    ) -> (r: WebullResult<()>)
        requires
            i64::MIN <= login.expires_in * 1000 <= i64::MAX,
            i64::MIN <= expiry(now, login.expires_in) <= i64::MAX,
        ensures
            final(self).config == old(self).config,
            final(self).dispatcher == old(self).dispatcher,
            final(self).auth_manager.config == old(self).auth_manager.config,
            final(self).auth_manager.credentials == old(self).auth_manager.credentials,
            final(self).auth_manager.token_store.reliable()
                == old(self).auth_manager.token_store.reliable(),
            final(self).credential_store.reliable() == old(self).credential_store.reliable(),
            old(self).auth_manager.token_store.reliable() && old(self).credential_store.reliable()
                ==> r is Ok,
            r is Ok ==> {
                &&& final(self).auth_manager.token_store.stored() matches Some(token)
                &&& token.token == login.access_token
                &&& token.expires_at == expiry(now, login.expires_in)
                &&& token.refresh_token == Some(login.refresh_token)
                &&& final(self).credential_store.credentials() matches Some(kept)
                &&& kept.username@ == username@
                &&& kept.password@ == password@
            },
    {
        let token = AccessToken {
            token: login.access_token,
            expires_at: now + login.expires_in * 1000,
            refresh_token: Some(login.refresh_token),
        };
        match self.auth_manager.token_store.store_token(token) {
            Ok(_) => {},
            Err(e) => {
                return Err(e);
            },
        }
        let credentials = Credentials {
            username: username.to_owned(),
            password: password.to_owned(),
        };
        self.credential_store.store_credentials(credentials)
    }

    /// Begin to log out from Webull. Without a token there is nothing to do;
    /// else the result is the logout request to send, whose answer goes to
    /// `logout_done`.
    pub fn logout(&self) -> (r: WebullResult<Option<HttpRequest>>)
        ensures
            exists|answer: StoreAnswer, timestamp: Seq<char>|
                is_answer(
                    answer,
                    self.auth_manager.token_store.stored(),
                    self.auth_manager.token_store.reliable(),
                ) && #[trigger] is_revoke_of(r, self.config, answer, timestamp),
    {
        let answer = self.auth_manager.token_store.get_token();
        let timestamp = generate_timestamp();
        let r = revoke_request_from(&self.config, answer, timestamp.as_str());
        assert(is_revoke_of(r, self.config, answer, timestamp@));
        r
    }

    /// Complete the logout with the status of the answer. Success, and 401,
    /// which says that the token was invalid already, clear the token and the
    /// stored credentials. Any other status is an error and changes nothing.
    pub fn logout_done(&mut self, status: u16, body: String) -> (r: WebullResult<()>)
        ensures
            final(self).config == old(self).config,
            final(self).dispatcher == old(self).dispatcher,
            final(self).auth_manager.config == old(self).auth_manager.config,
            final(self).auth_manager.credentials == old(self).auth_manager.credentials,
            if is_success(status) || status == 401 {
                &&& old(self).auth_manager.token_store.reliable()
                    && old(self).credential_store.reliable() ==> r is Ok
                &&& r is Ok ==> final(self).auth_manager.token_store.stored() is None
                    && final(self).credential_store.credentials() is None
            } else {
                &&& r matches Err(e) && is_status_error(e, status, body)
                &&& *final(self) == *old(self)
            },
    {
        match AuthManager::<T>::check_status(status, body) {
            Ok(_) => {},
            Err(e) => {
                if status != 401 {
                    return Err(e);
                }
            },
        }
        match self.auth_manager.token_store.clear_token() {
            Ok(_) => {},
            Err(e) => {
                return Err(e);
            },
        }
        self.credential_store.clear_credentials()
    }

    /// Begin to refresh the authentication token: the result is the refresh
    /// request to send. It needs a stored token that carries a refresh token.
    pub fn refresh_token(&self) -> (r: WebullResult<HttpRequest>)
        ensures
            exists|answer: StoreAnswer, timestamp: Seq<char>|
                is_answer(
                    answer,
                    self.auth_manager.token_store.stored(),
                    self.auth_manager.token_store.reliable(),
                ) && #[trigger] is_refresh_of(r, self.config, answer, timestamp),
    {
        let answer = self.auth_manager.token_store.get_token();
        let timestamp = generate_timestamp();
        let r = refresh_request_from(&self.config, answer, timestamp.as_str());
        assert(is_refresh_of(r, self.config, answer, timestamp@));
        r
    }

    /// Complete the refresh with the answer that came at `now`: the new
    /// token takes the place of the old one in the token store.
    pub fn refresh_token_done(&mut self, login: LoginResponse, now: i64) -> (r: WebullResult<()>)
        requires
            i64::MIN <= login.expires_in * 1000 <= i64::MAX,
            i64::MIN <= expiry(now, login.expires_in) <= i64::MAX,
        ensures
            final(self).config == old(self).config,
            final(self).dispatcher == old(self).dispatcher,
            final(self).credential_store == old(self).credential_store,
            final(self).auth_manager.config == old(self).auth_manager.config,
            final(self).auth_manager.credentials == old(self).auth_manager.credentials,
            old(self).auth_manager.token_store.reliable() ==> r is Ok,
            r is Ok ==> {
                &&& final(self).auth_manager.token_store.stored() matches Some(token)
                &&& token.token == login.access_token
                &&& token.expires_at == expiry(now, login.expires_in)
                &&& token.refresh_token == Some(login.refresh_token)
            },
    {
        match self.auth_manager.accept_login(login, now) {
            Ok(_) => Ok(()),
            Err(e) => Err(e),
        }
    }

    /// Get account endpoints. They work on the one dispatcher of the client:
    /// they find what was granted and cached through any endpoints before
    /// them, and what is granted and cached through them stays with the
    /// client for those after them.
    pub fn accounts(&mut self) -> (endpoints: AccountEndpoints<'_, T>)
        ensures
            *endpoints.base == old(self).dispatcher,
            *endpoints.auth == old(self).auth_manager,
            final(self).dispatcher == *final(endpoints.base),
            final(self).config == old(self).config,
            final(self).auth_manager == old(self).auth_manager,
            final(self).credential_store == old(self).credential_store,
    {
        AccountEndpoints { base: &mut self.dispatcher, auth: &self.auth_manager }
    }

    /// Get market data endpoints. They work on the one dispatcher of the client:
    /// they find what was granted and cached through any endpoints before
    /// them, and what is granted and cached through them stays with the
    /// client for those after them.
    pub fn market_data(&mut self) -> (endpoints: MarketDataEndpoints<'_, T>)
        ensures
            *endpoints.base == old(self).dispatcher,
            *endpoints.auth == old(self).auth_manager,
            final(self).dispatcher == *final(endpoints.base),
            final(self).config == old(self).config,
            final(self).auth_manager == old(self).auth_manager,
            final(self).credential_store == old(self).credential_store,
    {
        MarketDataEndpoints { base: &mut self.dispatcher, auth: &self.auth_manager }
    }

    /// Get order endpoints. They work on the one dispatcher of the client:
    /// they find what was granted and cached through any endpoints before
    /// them, and what is granted and cached through them stays with the
    /// client for those after them.
    pub fn orders(&mut self) -> (endpoints: OrderEndpoints<'_, T>)
        ensures
            *endpoints.base == old(self).dispatcher,
            *endpoints.auth == old(self).auth_manager,
            final(self).dispatcher == *final(endpoints.base),
            final(self).config == old(self).config,
            final(self).auth_manager == old(self).auth_manager,
            final(self).credential_store == old(self).credential_store,
    {
        OrderEndpoints { base: &mut self.dispatcher, auth: &self.auth_manager }
    }

    /// Get watchlist endpoints. They work on the one dispatcher of the client:
    /// they find what was granted and cached through any endpoints before
    /// them, and what is granted and cached through them stays with the
    /// client for those after them.
    pub fn watchlists(&mut self) -> (endpoints: WatchlistEndpoints<'_, T>)
        ensures
            *endpoints.base == old(self).dispatcher,
            *endpoints.auth == old(self).auth_manager,
            final(self).dispatcher == *final(endpoints.base),
            final(self).config == old(self).config,
            final(self).auth_manager == old(self).auth_manager,
            final(self).credential_store == old(self).credential_store,
    {
        WatchlistEndpoints { base: &mut self.dispatcher, auth: &self.auth_manager }
    }

    /// Create a WebSocket client for streaming data: a new client whose
    /// base URL is the configured one with every "http" replaced by "ws".
    pub fn streaming(&self) -> (client: WebSocketClient)
        ensures
            client.base_url@ == replaced(self.config.base_url@, "http"@, "ws"@),
            client.connection_state == crate::streaming::events::ConnectionState::Disconnected,
            client.phase == crate::streaming::client::Phase::Idle,
            client.connection_id is None,
            !client.channel_open,
            client.last_heartbeat == 0,
            client.heartbeat_interval == 30,
            client.reconnect_attempts == 0,
            client.max_reconnect_attempts == 5,
            client.reconnect_delay == 5,
    {
        proof {
            reveal_strlit("http");
        }
        let ws_base_url = replace_all(self.config.base_url.as_str(), "http", "ws");
        WebSocketClient::new(ws_base_url)
    }

    /// Get the stored credentials.
    pub fn get_credentials(&self) -> (r: WebullResult<Option<Credentials>>)
        ensures
            r matches Ok(credentials) ==> credentials == self.credential_store.credentials(),
            self.credential_store.reliable() ==> r is Ok,
    {
        self.credential_store.get_credentials()
    }

    /// Get the credential store.
    pub fn credential_store(&self) -> (store: &C)
        ensures
            *store == self.credential_store,
    {
        &self.credential_store
    }

    /// Check if the client is configured for paper trading.
    pub fn is_paper_trading(&self) -> (paper: bool)
        ensures
            paper == self.config.paper_trading,
    {
        self.config.paper_trading
    }

    /// Create a new client for paper trading: the same configuration but for
    /// paper trading, empty stores in memory, and a dispatcher of its own.
    pub fn paper_trading(&self) -> (r: WebullResult<
        WebullClient<MemoryTokenStore, MemoryCredentialStore>,
    >)
        ensures
            r matches Ok(client) && {
                &&& client.config == (WebullConfig { paper_trading: true, ..self.config })
                &&& client.auth_manager.config == client.config
                &&& client.auth_manager.credentials is None
                &&& client.auth_manager.token_store.token is None
                &&& client.credential_store.credentials is None
                &&& client.credential_store.token is None
                &&& is_fresh(client.dispatcher, self.config.base_url@)
            },
    {
        let mut config = self.config.clone();
        config.paper_trading = true;
        let dispatcher = BaseEndpoint::new(config.base_url.clone());
        let auth_manager = AuthManager::new(config.clone(), MemoryTokenStore::new());
        Ok(
            WebullClient {
                config,
                auth_manager,
                credential_store: MemoryCredentialStore::new(),
                dispatcher,
            },
        )
    }
}

} // verus!
