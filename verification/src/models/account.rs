use vstd::prelude::*;

verus! {

/// Type of account.
#[derive(Debug, Clone, Copy, PartialEq, Eq, Structural)]
pub enum AccountType {
    /// Cash account
    Cash,
    /// Margin account
    Margin,
    /// IRA account
    Ira,
    /// Other account type
    Other,
}

/// Status of an account.
#[derive(Debug, Clone, Copy, PartialEq, Eq, Structural)]
pub enum AccountStatus {
    /// Account is active
    Active,
    /// Account is closed
    Closed,
    /// Account is pending approval
    Pending,
    /// Account is suspended
    Suspended,
}

/// Parameters for querying account positions.
#[derive(Debug, Clone, PartialEq, Eq)]
pub struct PositionParams {
    /// Account ID
    pub account_id: String,
    /// Page size (max 100)
    pub page_size: u32,
    /// Last instrument ID for pagination
    pub last_instrument_id: Option<String>,
}

impl PositionParams {
    /// Create new position query parameters.
    pub fn new(account_id: &str, page_size: u32) -> (params: Self)
        ensures
            params.account_id@ == account_id@,
            params.page_size == page_size,
            params.last_instrument_id is None,
    {
        PositionParams { account_id: account_id.to_owned(), page_size, last_instrument_id: None }
    }

    /// Set the last instrument ID for pagination.
    pub fn last_instrument_id(self, last_instrument_id: &str) -> (params: Self)
        ensures
            params.account_id == self.account_id,
            params.page_size == self.page_size,
            params.last_instrument_id matches Some(id) && id@ == last_instrument_id@,
    {
        let mut params = self;
        params.last_instrument_id = Some(last_instrument_id.to_owned());
        params
    }
}

/// Parameters for querying account balance.
#[derive(Debug, Clone, PartialEq, Eq)]
pub struct BalanceParams {
    /// Account ID
    pub account_id: String,
    /// Currency for total assets
    pub total_asset_currency: String,
}

impl BalanceParams {
    /// Create new balance query parameters.
    pub fn new(account_id: &str, total_asset_currency: &str) -> (params: Self)
        ensures
            params.account_id@ == account_id@,
            params.total_asset_currency@ == total_asset_currency@,
    {
        BalanceParams {
            account_id: account_id.to_owned(),
            total_asset_currency: total_asset_currency.to_owned(),
        }
    }

    /// Create new balance query parameters with default currency (HKD).
    pub fn new_with_default_currency(account_id: &str) -> (params: Self)
        ensures
            params.account_id@ == account_id@,
            params.total_asset_currency@ == "HKD"@,
    {
        BalanceParams::new(account_id, "HKD")
    }
}

} // verus!
