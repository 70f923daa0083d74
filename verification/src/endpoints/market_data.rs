use crate::auth::{AuthManager, TokenStore};
use crate::endpoints::base::{BaseEndpoint, Route};
use crate::models::market::{
    event_names, BarQueryParams, CorpActionEventType, CorpActionParams, EodBarsParams,
    InstrumentParams, NewsQueryParams, SnapshotParams, TimeFrame,
};
use crate::transport::Method;
use crate::utils::text::{chain, decimal, joined, owned_all, slice_texts, string_texts};
use vstd::prelude::*;

verus! {

/// The body of a query for the quotes of several symbols.
#[derive(Debug, Clone, PartialEq, Eq)]
pub struct SymbolsRequest {
    pub symbols: Vec<String>,
}

/// Endpoints for market data operations: the routes of the calls, on the dispatcher
/// and the authentication manager of the client that handed them out.
pub struct MarketDataEndpoints<'a, S: TokenStore> {
    /// Base endpoint: the dispatcher of the client
    pub base: &'a mut BaseEndpoint,
    /// Authentication manager of the client
    pub auth: &'a AuthManager<S>,
}

fn post_to(path: &str) -> (route: Route)
    ensures
        route.method == Method::Post,
        route.path@ == path@,
{
    Route { method: Method::Post, path: path.to_owned() }
}

impl<'a, S: TokenStore> MarketDataEndpoints<'a, S> {
    /// Create new market data endpoints on the dispatcher and the authentication
    /// manager given. What is cached and granted through these endpoints is
    /// cached and granted in that dispatcher.
    pub fn new(base: &'a mut BaseEndpoint, auth: &'a AuthManager<S>) -> (endpoints: Self)
        ensures
            *endpoints.base == *old(base),
            *final(endpoints.base) == *final(base),
            endpoints.auth == auth,
    {
        MarketDataEndpoints { base, auth }
    }

    /// Get a real-time quote for a symbol.
    pub fn get_quote(&self, symbol: &str) -> (route: Route)
        ensures
            route.method == Method::Get,
            route.path@ == "/api/quote/tickerRealTimes/"@ + symbol@,
    {
        Route { method: Method::Get, path: chain("/api/quote/tickerRealTimes/", symbol) }
    }

    /// Get real-time quotes for multiple symbols: the route, and the body
    /// that lists the symbols.
    pub fn get_quotes(&self, symbols: &[&str]) -> (call: (Route, SymbolsRequest))
        ensures
            call.0.method == Method::Post,
            call.0.path@ == "/api/quote/tickerRealTimes"@,
            string_texts(call.1.symbols@) == slice_texts(symbols@),
    {
        (post_to("/api/quote/tickerRealTimes"), SymbolsRequest { symbols: owned_all(symbols) })
    }

    /// Get snapshot data for symbols; the parameters are the body.
    pub fn get_snapshot(&self, _params: &SnapshotParams) -> (route: Route)
        ensures
            route.method == Method::Post,
            route.path@ == "/api/quote/snapshot"@,
    {
        post_to("/api/quote/snapshot")
    }

    /// Get the snapshot for a single stock symbol: the route, and the
    /// parameters that are the body.
    pub fn get_stock_snapshot(&self, symbol: &str) -> (call: (Route, SnapshotParams))
        ensures
            call.0.method == Method::Post,
            call.0.path@ == "/api/quote/snapshot"@,
            call.1.symbols@ == symbol@,
            call.1.category@ == "STK"@,
    {
        let params = SnapshotParams::new_stock(symbol);
        (self.get_snapshot(&params), params)
    }

    /// Get the snapshot for multiple stock symbols: the route, and the
    /// parameters that are the body.
    pub fn get_stock_snapshots(&self, symbols: &[&str]) -> (call: (Route, SnapshotParams))
        ensures
            call.0.method == Method::Post,
            call.0.path@ == "/api/quote/snapshot"@,
            call.1.symbols@ == joined(slice_texts(symbols@), ","@),
            call.1.category@ == "STK"@,
    {
        let params = SnapshotParams::new_stocks(symbols);
        (self.get_snapshot(&params), params)
    }

    /// Get historical bar data for a symbol; the parameters are the body.
    pub fn get_history_bar(&self, _params: &BarQueryParams) -> (route: Route)
        ensures
            route.method == Method::Post,
            route.path@ == "/api/quote/history/bars"@,
    {
        post_to("/api/quote/history/bars")
    }

    /// Get option chain for a symbol; the parameters are the body.
    pub fn get_option_chain(&self) -> (route: Route)
        ensures
            route.method == Method::Post,
            route.path@ == "/api/options/list"@,
    {
        post_to("/api/options/list")
    }

    /// Get market news; the parameters are the body.
    pub fn get_news(&self, _params: &NewsQueryParams) -> (route: Route)
        ensures
            route.method == Method::Post,
            route.path@ == "/api/securities/news/list"@,
    {
        post_to("/api/securities/news/list")
    }

    /// Get market calendar.
    pub fn get_market_calendar(&self) -> (route: Route)
        ensures
            route.method == Method::Get,
            route.path@ == "/api/securities/financial/calendar"@,
    {
        Route { method: Method::Get, path: "/api/securities/financial/calendar".to_owned() }
    }

    /// Get instrument information; the parameters are the body.
    pub fn get_instrument(&self, _params: &InstrumentParams) -> (route: Route)
        ensures
            route.method == Method::Post,
            route.path@ == "/api/quote/instruments"@,
    {
        post_to("/api/quote/instruments")
    }

    /// Get instrument information for a single stock symbol: the route, and
    /// the parameters that are the body.
    pub fn get_stock_instrument(&self, symbol: &str) -> (call: (Route, InstrumentParams))
        ensures
            call.0.method == Method::Post,
            call.0.path@ == "/api/quote/instruments"@,
            call.1.symbols@ == symbol@,
            call.1.category@ == "STK"@,
    {
        let params = InstrumentParams::new_stock(symbol);
        (self.get_instrument(&params), params)
    }

    /// Get instrument information for multiple stock symbols: the route, and
    /// the parameters that are the body.
    pub fn get_stock_instruments(&self, symbols: &[&str]) -> (call: (Route, InstrumentParams))
        ensures
            call.0.method == Method::Post,
            call.0.path@ == "/api/quote/instruments"@,
            call.1.symbols@ == joined(slice_texts(symbols@), ","@),
            call.1.category@ == "STK"@,
    {
        let params = InstrumentParams::new_stocks(symbols);
        (self.get_instrument(&params), params)
    }

    /// Get end-of-day bars for instruments; the parameters are the body.
    /// Only available for Webull JP.
    pub fn get_eod_bar(&self, _params: &EodBarsParams) -> (route: Route)
        ensures
            route.method == Method::Post,
            route.path@ == "/api/quote/eod/bars"@,
    {
        post_to("/api/quote/eod/bars")
    }

    /// Get end-of-day bars for an instrument: the route, and the parameters
    /// that are the body.
    pub fn get_instrument_eod_bars(&self, instrument_id: &str, count: u32) -> (call: (
        Route,
        EodBarsParams,
    ))
        ensures
            call.0.method == Method::Post,
            call.0.path@ == "/api/quote/eod/bars"@,
            call.1.instrument_ids@ == instrument_id@,
            call.1.date is None,
            call.1.count@ == decimal(count as nat),
    {
        let params = EodBarsParams::new(instrument_id, count);
        (self.get_eod_bar(&params), params)
    }

    /// Get end-of-day bars for an instrument with a specific date: the route,
    /// and the parameters that are the body.
    pub fn get_instrument_eod_bars_with_date(
        &self,
        instrument_id: &str,
        date: &str,
        count: u32,
    ) -> (call: (Route, EodBarsParams))
        ensures
            call.0.method == Method::Post,
            call.0.path@ == "/api/quote/eod/bars"@,
            call.1.instrument_ids@ == instrument_id@,
            call.1.date matches Some(text) && text@ == date@,
            call.1.count@ == decimal(count as nat),
    {
        let params = EodBarsParams::new(instrument_id, count).date(date);
        (self.get_eod_bar(&params), params)
    }

    /// Get corporate actions for instruments; the parameters are the body.
    /// Only available for Webull JP.
    pub fn get_corp_action(&self, _params: &CorpActionParams) -> (route: Route)
        ensures
            route.method == Method::Post,
            route.path@ == "/api/quote/corp/action"@,
    {
        post_to("/api/quote/corp/action")
    }

    /// Get stock split corporate actions for an instrument: the route, and
    /// the parameters that are the body.
    pub fn get_stock_splits(&self, instrument_id: &str) -> (call: (Route, CorpActionParams))
        ensures
            call.0.method == Method::Post,
            call.0.path@ == "/api/quote/corp/action"@,
            call.1.instrument_ids@ == instrument_id@,
            call.1.event_types@ == "SPLIT"@,
            call.1.start_date is None,
            call.1.end_date is None,
            call.1.page_number is None,
            call.1.page_size is None,
            call.1.last_update_time is None,
    {
        let mut kinds: Vec<CorpActionEventType> = Vec::new();
        kinds.push(CorpActionEventType::Split);
        proof {
            let names = event_names(kinds@);
            assert(names.len() == 1 && names[0] == "SPLIT"@);
        }
        let params = CorpActionParams::new(instrument_id, kinds);
        (self.get_corp_action(&params), params)
    }

    /// Get reverse stock split corporate actions for an instrument: the
    /// route, and the parameters that are the body.
    pub fn get_reverse_stock_splits(&self, instrument_id: &str) -> (call: (
        Route,
        CorpActionParams,
    ))
        ensures
            call.0.method == Method::Post,
            call.0.path@ == "/api/quote/corp/action"@,
            call.1.instrument_ids@ == instrument_id@,
            call.1.event_types@ == "REVERSE_SPLIT"@,
            call.1.start_date is None,
            call.1.end_date is None,
            call.1.page_number is None,
            call.1.page_size is None,
            call.1.last_update_time is None,
    {
        let mut kinds: Vec<CorpActionEventType> = Vec::new();
        kinds.push(CorpActionEventType::ReverseSplit);
        proof {
            let names = event_names(kinds@);
            assert(names.len() == 1 && names[0] == "REVERSE_SPLIT"@);
        }
        let params = CorpActionParams::new(instrument_id, kinds);
        (self.get_corp_action(&params), params)
    }

    /// Get all corporate actions for an instrument: the route, and the
    /// parameters that are the body.
    pub fn get_all_corp_actions(&self, instrument_id: &str) -> (call: (Route, CorpActionParams))
        ensures
            call.0.method == Method::Post,
            call.0.path@ == "/api/quote/corp/action"@,
            call.1.instrument_ids@ == instrument_id@,
            call.1.event_types@ == "SPLIT"@ + ","@ + "REVERSE_SPLIT"@,
            call.1.start_date is None,
            call.1.end_date is None,
            call.1.page_number is None,
            call.1.page_size is None,
            call.1.last_update_time is None,
    {
        let mut kinds: Vec<CorpActionEventType> = Vec::new();
        kinds.push(CorpActionEventType::Split);
        kinds.push(CorpActionEventType::ReverseSplit);
        proof {
            let names = event_names(kinds@);
            assert(names.len() == 2 && names[0] == "SPLIT"@ && names[1] == "REVERSE_SPLIT"@);
            assert(names.drop_last().len() == 1 && names.drop_last()[0] == "SPLIT"@);
            assert(joined(names.drop_last(), ","@) == "SPLIT"@);
        }
        let params = CorpActionParams::new(instrument_id, kinds);
        (self.get_corp_action(&params), params)
    }

    /// Get daily bars for a symbol, two hundred where no count is given: the
    /// route, and the parameters that are the body.
    pub fn get_daily_bars(&self, symbol: &str, count: Option<u32>) -> (call: (
        Route,
        BarQueryParams,
    ))
        ensures
            call.0.method == Method::Post,
            call.0.path@ == "/api/quote/history/bars"@,
            call.1.symbol@ == symbol@,
            call.1.category@ == "STK"@,
            call.1.time_frame == TimeFrame::Day1,
            call.1.count@ == decimal(
                match count {
                    Some(n) => n as nat,
                    None => 200,
                },
            ),
    {
        self.get_intraday_bars(symbol, TimeFrame::Day1, count)
    }

    /// Get intraday bars for a symbol, two hundred where no count is given:
    /// the route, and the parameters that are the body.
    pub fn get_intraday_bars(
        &self,
        symbol: &str,
        time_frame: TimeFrame,
        count: Option<u32>,
    ) -> (call: (Route, BarQueryParams))
        ensures
            call.0.method == Method::Post,
            call.0.path@ == "/api/quote/history/bars"@,
            call.1.symbol@ == symbol@,
            call.1.category@ == "STK"@,
            call.1.time_frame == time_frame,
            call.1.count@ == decimal(
                match count {
                    Some(n) => n as nat,
                    None => 200,
                },
            ),
    {
        let params = if let Some(count) = count {
            BarQueryParams::new(symbol, "STK", time_frame, count)
        } else {
            BarQueryParams::new_stock(symbol, time_frame)
        };
        (self.get_history_bar(&params), params)
    }
}

} // verus!
