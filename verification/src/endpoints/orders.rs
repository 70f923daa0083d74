use crate::auth::{AuthManager, TokenStore};
use crate::endpoints::base::{BaseEndpoint, Route};
use crate::models::order::OrderQueryParams;
use crate::transport::Method;
use crate::utils::text::{chain, chain3};
use vstd::prelude::*;

verus! {

/// The body of a query for a page of orders.
#[derive(Debug, Clone, PartialEq, Eq)]
pub struct OrdersPageRequest {
    pub account_id: String,
    pub page_size: u32,
    pub last_client_order_id: Option<String>,
}

/// The body of the request that cancels an option order.
#[derive(Debug, Clone, PartialEq, Eq)]
pub struct CancelOptionRequest {
    pub account_id: String,
    pub client_order_id: String,
}

fn orders_page(account_id: &str, page_size: u32, last_order_id: Option<&str>) -> (request:
    OrdersPageRequest)
    ensures
        request.account_id@ == account_id@,
        request.page_size == page_size,
        match last_order_id {
            Some(last) => request.last_client_order_id matches Some(id) && id@ == last@,
            None => request.last_client_order_id is None,
        },
{
    let mut request = OrdersPageRequest {
        account_id: account_id.to_owned(),
        page_size,
        last_client_order_id: None,
    };
    if let Some(order_id) = last_order_id {
        request.last_client_order_id = Some(order_id.to_owned());
    }
    request
}

/// Endpoints for order operations: the routes of the calls, on the dispatcher
/// and the authentication manager of the client that handed them out.
pub struct OrderEndpoints<'a, S: TokenStore> {
    /// Base endpoint: the dispatcher of the client
    pub base: &'a mut BaseEndpoint,
    /// Authentication manager of the client
    pub auth: &'a AuthManager<S>,
}

impl<'a, S: TokenStore> OrderEndpoints<'a, S> {
    /// Create new order endpoints on the dispatcher and the authentication
    /// manager given. What is cached and granted through these endpoints is
    /// cached and granted in that dispatcher.
    pub fn new(base: &'a mut BaseEndpoint, auth: &'a AuthManager<S>) -> (endpoints: Self)
        ensures
            *endpoints.base == *old(base),
            *final(endpoints.base) == *final(base),
            endpoints.auth == auth,
    {
        OrderEndpoints { base, auth }
    }

    /// Place an order; the order is the body.
    pub fn place_order(&self) -> (route: Route)
        ensures
            route.method == Method::Post,
            route.path@ == "/api/trade/order"@,
    {
        Route { method: Method::Post, path: "/api/trade/order".to_owned() }
    }

    /// Cancel an order.
    pub fn cancel_order(&self, order_id: &str) -> (route: Route)
        ensures
            route.method == Method::Delete,
            route.path@ == "/api/trade/cancel/"@ + order_id@,
    {
        Route { method: Method::Delete, path: chain("/api/trade/cancel/", order_id) }
    }

    /// Get an order by ID.
    pub fn get_order(&self, order_id: &str) -> (route: Route)
        ensures
            route.method == Method::Get,
            route.path@ == "/api/trade/order/"@ + order_id@,
    {
        Route { method: Method::Get, path: chain("/api/trade/order/", order_id) }
    }

    /// Get orders based on query parameters, which are the body.
    pub fn get_orders(&self, _params: &OrderQueryParams) -> (route: Route)
        ensures
            route.method == Method::Post,
            route.path@ == "/api/trade/orders"@,
    {
        Route { method: Method::Post, path: "/api/trade/orders".to_owned() }
    }

    /// Get active orders.
    pub fn get_active_orders(&self) -> (route: Route)
        ensures
            route.method == Method::Get,
            route.path@ == "/api/trade/active"@,
    {
        Route { method: Method::Get, path: "/api/trade/active".to_owned() }
    }

    /// Get filled orders.
    pub fn get_filled_orders(&self) -> (route: Route)
        ensures
            route.method == Method::Get,
            route.path@ == "/api/trade/filled"@,
    {
        Route { method: Method::Get, path: "/api/trade/filled".to_owned() }
    }

    /// Modify an existing order; the new order is the body.
    pub fn modify_order(&self, order_id: &str) -> (route: Route)
        ensures
            route.method == Method::Put,
            route.path@ == "/api/trade/modify/"@ + order_id@,
    {
        Route { method: Method::Put, path: chain("/api/trade/modify/", order_id) }
    }

    /// Get open orders for an account.
    pub fn get_open_orders(&self, account_id: &str) -> (route: Route)
        ensures
            route.method == Method::Get,
            route.path@ == "/api/trade/account/"@ + account_id@ + "/orders/open"@,
    {
        let path = chain3("/api/trade/account/", account_id, "/orders/open");
        Route { method: Method::Get, path }
    }

    /// Get a page of the open orders of an account: the route, and the
    /// body, with the last order of the page before where one is given.
    pub fn get_open_orders_paged(
        &self,
        account_id: &str,
        page_size: u32,
        last_order_id: Option<&str>,
    ) -> (call: (Route, OrdersPageRequest))
        ensures
            call.0.method == Method::Post,
            call.0.path@ == "/api/trade/orders/open"@,
            call.1.account_id@ == account_id@,
            call.1.page_size == page_size,
            match last_order_id {
                Some(last) => call.1.last_client_order_id matches Some(id) && id@ == last@,
                None => call.1.last_client_order_id is None,
            },
    {
        (
            Route { method: Method::Post, path: "/api/trade/orders/open".to_owned() },
            orders_page(account_id, page_size, last_order_id),
        )
    }

    /// Get today's orders for an account.
    pub fn get_today_orders(&self, account_id: &str) -> (route: Route)
        ensures
            route.method == Method::Get,
            route.path@ == "/api/trade/account/"@ + account_id@ + "/orders/today"@,
    {
        let path = chain3("/api/trade/account/", account_id, "/orders/today");
        Route { method: Method::Get, path }
    }

    /// Get a page of today's orders of an account: the route, and the
    /// body, with the last order of the page before where one is given.
    pub fn get_today_orders_paged(
        &self,
        account_id: &str,
        page_size: u32,
        last_order_id: Option<&str>,
    ) -> (call: (Route, OrdersPageRequest))
        ensures
            call.0.method == Method::Post,
            call.0.path@ == "/api/trade/orders/today"@,
            call.1.account_id@ == account_id@,
            call.1.page_size == page_size,
            match last_order_id {
                Some(last) => call.1.last_client_order_id matches Some(id) && id@ == last@,
                None => call.1.last_client_order_id is None,
            },
    {
        (
            Route { method: Method::Post, path: "/api/trade/orders/today".to_owned() },
            orders_page(account_id, page_size, last_order_id),
        )
    }

    /// Preview an option order; the preview request is the body.
    pub fn preview_option_order(&self) -> (route: Route)
        ensures
            route.method == Method::Post,
            route.path@ == "/api/trade/option/preview"@,
    {
        Route { method: Method::Post, path: "/api/trade/option/preview".to_owned() }
    }

    /// Place an option order; account and orders are the body.
    pub fn place_option_order(&self) -> (route: Route)
        ensures
            route.method == Method::Post,
            route.path@ == "/api/trade/option/place"@,
    {
        Route { method: Method::Post, path: "/api/trade/option/place".to_owned() }
    }

    /// Replace an option order; account and orders are the body.
    pub fn replace_option_order(&self) -> (route: Route)
        ensures
            route.method == Method::Post,
            route.path@ == "/api/trade/option/replace"@,
    {
        Route { method: Method::Post, path: "/api/trade/option/replace".to_owned() }
    }

    /// Cancel an option order: the route, and the body that names account
    /// and order.
    pub fn cancel_option_order(&self, account_id: &str, client_order_id: &str) -> (call: (
        Route,
        CancelOptionRequest,
    ))
        ensures
            call.0.method == Method::Post,
            call.0.path@ == "/api/trade/option/cancel"@,
            call.1.account_id@ == account_id@,
            call.1.client_order_id@ == client_order_id@,
    {
        (
            Route { method: Method::Post, path: "/api/trade/option/cancel".to_owned() },
            CancelOptionRequest {
                account_id: account_id.to_owned(),
                client_order_id: client_order_id.to_owned(),
            },
        )
    }
}

} // verus!
