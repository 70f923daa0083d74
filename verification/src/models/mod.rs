//! Data models for the Webull API.

pub mod account;
pub mod market;
pub mod order;
pub mod response;
