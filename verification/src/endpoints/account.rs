use crate::auth::{AuthManager, TokenStore};
use crate::endpoints::base::{BaseEndpoint, Route};
use crate::models::account::{BalanceParams, PositionParams};
use crate::transport::Method;
use crate::utils::text::{chain, chain3};
use vstd::prelude::*;
use vstd::string::StringExecFns;

verus! {

/// The body of a query for a page of the trade history.
#[derive(Debug, Clone, PartialEq, Eq)]
pub struct TradeHistoryParams {
    pub account_id: String,
    pub page: u32,
    pub page_size: u32,
}

/// Endpoints for account operations: the routes of the calls, on the dispatcher
/// and the authentication manager of the client that handed them out.
pub struct AccountEndpoints<'a, S: TokenStore> {
    /// Base endpoint: the dispatcher of the client
    pub base: &'a mut BaseEndpoint,
    /// Authentication manager of the client
    pub auth: &'a AuthManager<S>,
}

impl<'a, S: TokenStore> AccountEndpoints<'a, S> {
    /// Create new account endpoints on the dispatcher and the authentication
    /// manager given. What is cached and granted through these endpoints is
    /// cached and granted in that dispatcher.
    pub fn new(base: &'a mut BaseEndpoint, auth: &'a AuthManager<S>) -> (endpoints: Self)
        ensures
            *endpoints.base == *old(base),
            *final(endpoints.base) == *final(base),
            endpoints.auth == auth,
    {
        AccountEndpoints { base, auth }
    }

    /// Get a list of accounts.
    pub fn get_accounts(&self) -> (route: Route)
        ensures
            route.method == Method::Get,
            route.path@ == "/api/account/getSecAccountList"@,
    {
        Route { method: Method::Get, path: "/api/account/getSecAccountList".to_owned() }
    }

    /// Get account details.
    pub fn get_account(&self, account_id: &str) -> (route: Route)
        ensures
            route.method == Method::Get,
            route.path@ == "/api/account/getAccountMembers/"@ + account_id@,
    {
        Route { method: Method::Get, path: chain("/api/account/getAccountMembers/", account_id) }
    }

    /// Get account balance.
    pub fn get_account_balance(&self, account_id: &str) -> (route: Route)
        ensures
            route.method == Method::Get,
            route.path@ == "/api/asset/getAssetSummary/"@ + account_id@,
    {
        Route { method: Method::Get, path: chain("/api/asset/getAssetSummary/", account_id) }
    }

    /// Get account positions.
    pub fn get_positions(&self, account_id: &str) -> (route: Route)
        ensures
            route.method == Method::Get,
            route.path@ == "/api/position/getUserPositions/"@ + account_id@,
    {
        Route { method: Method::Get, path: chain("/api/position/getUserPositions/", account_id) }
    }

    /// Get account position by symbol.
    pub fn get_position(&self, account_id: &str, symbol: &str) -> (route: Route)
        ensures
            route.method == Method::Get,
            route.path@ == "/api/position/getUserPositions/"@ + account_id@ + "/"@ + symbol@,
    {
        let mut path = chain3("/api/position/getUserPositions/", account_id, "/");
        path.append(symbol);
        Route { method: Method::Get, path }
    }

    /// Get account trade history.
    pub fn get_trade_history(&self, account_id: &str) -> (route: Route)
        ensures
            route.method == Method::Get,
            route.path@ == "/api/trade/history/"@ + account_id@,
    {
        Route { method: Method::Get, path: chain("/api/trade/history/", account_id) }
    }

    /// Get account trade history with pagination: the route, and the body
    /// that names the account and the page.
    pub fn get_trade_history_paged(&self, account_id: &str, page: u32, page_size: u32) -> (call: (
        Route,
        TradeHistoryParams,
    ))
        ensures
            call.0.method == Method::Post,
            call.0.path@ == "/api/trade/history"@,
            call.1.account_id@ == account_id@,
            call.1.page == page,
            call.1.page_size == page_size,
    {
        (
            Route { method: Method::Post, path: "/api/trade/history".to_owned() },
            TradeHistoryParams { account_id: account_id.to_owned(), page, page_size },
        )
    }

    /// Get account profile information.
    pub fn get_account_profile(&self, account_id: &str) -> (route: Route)
        ensures
            route.method == Method::Get,
            route.path@ == "/api/account/profile/"@ + account_id@,
    {
        Route { method: Method::Get, path: chain("/api/account/profile/", account_id) }
    }

    /// Get account balance with parameters, which are the body.
    pub fn get_balance(&self, _params: &BalanceParams) -> (route: Route)
        ensures
            route.method == Method::Post,
            route.path@ == "/api/account/balance"@,
    {
        Route { method: Method::Post, path: "/api/account/balance".to_owned() }
    }

    /// Get account balance in the default currency: the route, and the
    /// parameters that are the body.
    pub fn get_balance_with_default_currency(&self, account_id: &str) -> (call: (
        Route,
        BalanceParams,
    ))
        ensures
            call.0.method == Method::Post,
            call.0.path@ == "/api/account/balance"@,
            call.1.account_id@ == account_id@,
            call.1.total_asset_currency@ == "HKD"@,
    {
        let params = BalanceParams::new_with_default_currency(account_id);
        (self.get_balance(&params), params)
    }

    /// Get account positions with pagination; the parameters are the body.
    pub fn get_positions_with_params(&self, _params: &PositionParams) -> (route: Route)
        ensures
            route.method == Method::Post,
            route.path@ == "/api/account/positions"@,
    {
        Route { method: Method::Post, path: "/api/account/positions".to_owned() }
    }

    /// Get a page of the account's positions: the route, and the parameters
    /// that are the body, with the last instrument of the page before where one
    /// is given.
    pub fn get_positions_paged(
        &self,
        account_id: &str,
        page_size: u32,
        last_instrument_id: Option<&str>,
    ) -> (call: (Route, PositionParams))
        ensures
            call.0.method == Method::Post,
            call.0.path@ == "/api/account/positions"@,
            call.1.account_id@ == account_id@,
            call.1.page_size == page_size,
            match last_instrument_id {
                Some(last) => call.1.last_instrument_id matches Some(id) && id@ == last@,
                None => call.1.last_instrument_id is None,
            },
    {
        let mut params = PositionParams::new(account_id, page_size);
        if let Some(last_id) = last_instrument_id {
            params = params.last_instrument_id(last_id);
        }
        (self.get_positions_with_params(&params), params)
    }
}

} // verus!
