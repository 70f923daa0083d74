//! A typed client core for the Webull trading API: token lifecycle, response
//! caching, rate limiting, request dispatch and streaming supervision.

pub mod auth;
pub mod client;
pub mod config;
pub mod endpoints;
pub mod error;
pub mod models;
pub mod streaming;
pub mod transport;
pub mod utils;

pub use client::{WebullClient, WebullClientBuilder};
pub use config::WebullConfig;
pub use error::{WebullError, WebullResult};
