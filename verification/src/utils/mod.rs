//! Utilities that the client is built from.

pub mod cache;
pub mod clock;
pub mod credentials;
pub mod crypto;
pub mod rate_limit;
pub mod serialization;
pub mod text;
