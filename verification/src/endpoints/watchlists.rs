use crate::auth::{AuthManager, TokenStore};
use crate::endpoints::base::{BaseEndpoint, Route};
use crate::transport::Method;
use crate::utils::text::{chain, copy_all};
use vstd::prelude::*;

verus! {

/// Watchlist information.
#[derive(Debug, Clone, PartialEq, Eq)]
pub struct Watchlist {
    /// Watchlist ID
    pub id: String,
    /// Watchlist name
    pub name: String,
    /// Watchlist symbols
    pub symbols: Vec<String>,
}

/// Request to create a watchlist.
#[derive(Debug, Clone, PartialEq, Eq)]
pub struct CreateWatchlistRequest {
    /// Watchlist name
    pub name: String,
    /// Watchlist symbols
    pub symbols: Vec<String>,
}

/// Request to modify a watchlist.
#[derive(Debug, Clone, PartialEq, Eq)]
pub struct ModifyWatchlistRequest {
    /// Watchlist ID
    pub id: String,
    /// Watchlist name
    pub name: Option<String>,
    /// Watchlist symbols to add
    pub add_symbols: Option<Vec<String>>,
    /// Watchlist symbols to remove
    pub remove_symbols: Option<Vec<String>>,
}

/// Endpoints for watchlist operations: the routes of the calls, on the dispatcher
/// and the authentication manager of the client that handed them out.
pub struct WatchlistEndpoints<'a, S: TokenStore> {
    /// Base endpoint: the dispatcher of the client
    pub base: &'a mut BaseEndpoint,
    /// Authentication manager of the client
    pub auth: &'a AuthManager<S>,
}

impl<'a, S: TokenStore> WatchlistEndpoints<'a, S> {
    /// Create new watchlist endpoints on the dispatcher and the authentication
    /// manager given. What is cached and granted through these endpoints is
    /// cached and granted in that dispatcher.
    pub fn new(base: &'a mut BaseEndpoint, auth: &'a AuthManager<S>) -> (endpoints: Self)
        ensures
            *endpoints.base == *old(base),
            *final(endpoints.base) == *final(base),
            endpoints.auth == auth,
    {
        WatchlistEndpoints { base, auth }
    }

    /// Get all watchlists.
    pub fn get_watchlists(&self) -> (route: Route)
        ensures
            route.method == Method::Get,
            route.path@ == "/api/wlas/watchlist"@,
    {
        Route { method: Method::Get, path: "/api/wlas/watchlist".to_owned() }
    }

    /// Get a watchlist by ID.
    pub fn get_watchlist(&self, watchlist_id: &str) -> (route: Route)
        ensures
            route.method == Method::Get,
            route.path@ == "/api/wlas/watchlist/"@ + watchlist_id@,
    {
        Route { method: Method::Get, path: chain("/api/wlas/watchlist/", watchlist_id) }
    }

    /// Create a watchlist; the request is the body.
    pub fn create_watchlist(&self, _request: &CreateWatchlistRequest) -> (route: Route)
        ensures
            route.method == Method::Post,
            route.path@ == "/api/wlas/watchlist"@,
    {
        Route { method: Method::Post, path: "/api/wlas/watchlist".to_owned() }
    }

    /// Modify a watchlist; the request is the body.
    pub fn modify_watchlist(&self, _request: &ModifyWatchlistRequest) -> (route: Route)
        ensures
            route.method == Method::Post,
            route.path@ == "/api/wlas/watchlist/modify"@,
    {
        Route { method: Method::Post, path: "/api/wlas/watchlist/modify".to_owned() }
    }

    /// Delete a watchlist.
    pub fn delete_watchlist(&self, watchlist_id: &str) -> (route: Route)
        ensures
            route.method == Method::Delete,
            route.path@ == "/api/wlas/watchlist/delete/"@ + watchlist_id@,
    {
        Route { method: Method::Delete, path: chain("/api/wlas/watchlist/delete/", watchlist_id) }
    }

    /// Add symbols to a watchlist: the route, and the request that is the
    /// body.
    pub fn add_symbols(&self, watchlist_id: &str, symbols: &[String]) -> (call: (
        Route,
        ModifyWatchlistRequest,
    ))
        ensures
            call.0.method == Method::Post,
            call.0.path@ == "/api/wlas/watchlist/modify"@,
            call.1.id@ == watchlist_id@,
            call.1.name is None,
            call.1.add_symbols matches Some(added) && added@ == symbols@,
            call.1.remove_symbols is None,
    {
        let request = ModifyWatchlistRequest {
            id: watchlist_id.to_owned(),
            name: None,
            add_symbols: Some(copy_all(symbols)),
            remove_symbols: None,
        };
        (self.modify_watchlist(&request), request)
    }

    /// Remove symbols from a watchlist: the route, and the request that is
    /// the body.
    pub fn remove_symbols(&self, watchlist_id: &str, symbols: &[String]) -> (call: (
        Route,
        ModifyWatchlistRequest,
    ))
        ensures
            call.0.method == Method::Post,
            call.0.path@ == "/api/wlas/watchlist/modify"@,
            call.1.id@ == watchlist_id@,
            call.1.name is None,
            call.1.add_symbols is None,
            call.1.remove_symbols matches Some(removed) && removed@ == symbols@,
    {
        let request = ModifyWatchlistRequest {
            id: watchlist_id.to_owned(),
            name: None,
            add_symbols: None,
            remove_symbols: Some(copy_all(symbols)),
        };
        (self.modify_watchlist(&request), request)
    }

    /// Rename a watchlist: the route, and the request that is the body.
    pub fn rename_watchlist(&self, watchlist_id: &str, name: &str) -> (call: (
        Route,
        ModifyWatchlistRequest,
    ))
        ensures
            call.0.method == Method::Post,
            call.0.path@ == "/api/wlas/watchlist/modify"@,
            call.1.id@ == watchlist_id@,
            call.1.name matches Some(text) && text@ == name@,
            call.1.add_symbols is None,
            call.1.remove_symbols is None,
    {
        let request = ModifyWatchlistRequest {
            id: watchlist_id.to_owned(),
            name: Some(name.to_owned()),
            add_symbols: None,
            remove_symbols: None,
        };
        (self.modify_watchlist(&request), request)
    }
}

} // verus!
