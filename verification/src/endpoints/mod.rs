//! API endpoints: the dispatcher that every request goes through, and the
//! routes of the account, order, market data and watchlist calls.

pub mod account;
pub mod base;
pub mod market_data;
pub mod orders;
pub mod watchlists;
