use vstd::prelude::*;

verus! {

/// Configuration for the Webull API client.
#[derive(Debug)]
pub struct WebullConfig {
    /// API key for authentication
    pub api_key: Option<String>,
    /// API secret for authentication
    pub api_secret: Option<String>,
    /// Device ID for authentication
    pub device_id: Option<String>,
    /// Timeout for API requests, in milliseconds
    pub timeout: u64,
    /// Base URL for API requests
    pub base_url: String,
    /// Whether to use paper trading
    pub paper_trading: bool,
}

/// A copy of an optional text.
pub fn clone_text(text: &Option<String>) -> (copy: Option<String>)
    ensures
        copy == *text,
{
    match text {
        Some(t) => Some(t.clone()),
        None => None,
    }
}

impl WebullConfig {
    /// The configuration that a client starts from: no key, no secret, no
    /// device, a timeout of thirty seconds, the production URL, live trading.
    pub open spec fn is_default(&self) -> bool {
        &&& self.api_key is None
        &&& self.api_secret is None
        &&& self.device_id is None
        &&& self.timeout == 30_000
        &&& self.base_url@ == "https://api.webull.com"@
        &&& !self.paper_trading
    }

    /// Create a new configuration with default values.
    pub fn new() -> (config: Self)
        ensures
            config.is_default(),
    {
        WebullConfig {
            api_key: None,
            api_secret: None,
            device_id: None,
            timeout: 30_000,
            base_url: "https://api.webull.com".to_owned(),
            paper_trading: false,
        }
    }
}

impl Default for WebullConfig {
    fn default() -> (config: Self)
        ensures
            config.is_default(),
    {
        WebullConfig::new()
    }
}

impl Clone for WebullConfig {
    fn clone(&self) -> (copy: Self)
        ensures
            copy == *self,
    {
        WebullConfig {
            api_key: clone_text(&self.api_key),
            api_secret: clone_text(&self.api_secret),
            device_id: clone_text(&self.device_id),
            timeout: self.timeout,
            base_url: self.base_url.clone(),
            paper_trading: self.paper_trading,
        }
    }
}

} // verus!
