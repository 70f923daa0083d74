use webull_rs::auth::{AuthManager, MemoryTokenStore};
use webull_rs::config::WebullConfig;
use webull_rs::endpoints::account::{AccountEndpoints, TradeHistoryParams};
use webull_rs::endpoints::base::{BaseEndpoint, Route};
use webull_rs::endpoints::market_data::MarketDataEndpoints;
use webull_rs::endpoints::orders::{CancelOptionRequest, OrderEndpoints, OrdersPageRequest};
use webull_rs::endpoints::watchlists::{
    CreateWatchlistRequest, ModifyWatchlistRequest, WatchlistEndpoints,
};
use webull_rs::models::account::{BalanceParams, PositionParams};
use webull_rs::models::market::{
    BarQueryParams, CorpActionParams, EodBarsParams, InstrumentParams, NewsQueryParams,
    SnapshotParams, TimeFrame,
};
use webull_rs::models::order::OrderQueryParams;
use webull_rs::transport::Method;

fn parts() -> (BaseEndpoint, AuthManager<MemoryTokenStore>) {
    (
        BaseEndpoint::new("https://api.example.com".to_string()),
        AuthManager::new(WebullConfig::new(), MemoryTokenStore::new()),
    )
}

fn get(path: &str) -> Route {
    Route { method: Method::Get, path: path.to_string() }
}

fn post(path: &str) -> Route {
    Route { method: Method::Post, path: path.to_string() }
}

#[test]
fn account_routes() {
    let (mut base, auth) = parts();
    let accounts = AccountEndpoints::new(&mut base, &auth);
    assert_eq!(accounts.base.build_url("/a"), "https://api.example.com/a");
    assert_eq!(accounts.get_accounts(), get("/api/account/getSecAccountList"));
    assert_eq!(accounts.get_account("A1"), get("/api/account/getAccountMembers/A1"));
    assert_eq!(accounts.get_account_balance("A1"), get("/api/asset/getAssetSummary/A1"));
    assert_eq!(accounts.get_positions("A1"), get("/api/position/getUserPositions/A1"));
    assert_eq!(accounts.get_position("A1", "AAPL"), get("/api/position/getUserPositions/A1/AAPL"));
    assert_eq!(accounts.get_trade_history("A1"), get("/api/trade/history/A1"));
    assert_eq!(accounts.get_account_profile("A1"), get("/api/account/profile/A1"));
    assert_eq!(
        accounts.get_trade_history_paged("A1", 3, 25),
        (
            post("/api/trade/history"),
            TradeHistoryParams { account_id: "A1".to_string(), page: 3, page_size: 25 }
        )
    );
    assert_eq!(accounts.get_balance(&BalanceParams::new("A1", "USD")), post("/api/account/balance"));
    assert_eq!(
        accounts.get_balance_with_default_currency("A1"),
        (post("/api/account/balance"), BalanceParams::new("A1", "HKD"))
    );
    assert_eq!(
        accounts.get_positions_with_params(&PositionParams::new("A1", 10)),
        post("/api/account/positions")
    );
    assert_eq!(
        accounts.get_positions_paged("A1", 10, None),
        (post("/api/account/positions"), PositionParams::new("A1", 10))
    );
    assert_eq!(
        accounts.get_positions_paged("A1", 10, Some("I9")),
        (post("/api/account/positions"), PositionParams::new("A1", 10).last_instrument_id("I9"))
    );
}

#[test]
fn order_routes() {
    let (mut base, auth) = parts();
    let orders = OrderEndpoints::new(&mut base, &auth);
    assert_eq!(orders.place_order(), post("/api/trade/order"));
    assert_eq!(
        orders.cancel_order("test-order-id"),
        Route { method: Method::Delete, path: "/api/trade/cancel/test-order-id".to_string() }
    );
    assert_eq!(orders.get_order("test-order-id"), get("/api/trade/order/test-order-id"));
    assert_eq!(orders.get_orders(&OrderQueryParams::new()), post("/api/trade/orders"));
    assert_eq!(orders.get_active_orders(), get("/api/trade/active"));
    assert_eq!(orders.get_filled_orders(), get("/api/trade/filled"));
    assert_eq!(
        orders.modify_order("test-order-id"),
        Route { method: Method::Put, path: "/api/trade/modify/test-order-id".to_string() }
    );
    assert_eq!(
        orders.get_open_orders("test-account-id"),
        get("/api/trade/account/test-account-id/orders/open")
    );
    assert_eq!(
        orders.get_today_orders("test-account-id"),
        get("/api/trade/account/test-account-id/orders/today")
    );
    assert_eq!(
        orders.get_open_orders_paged("A1", 20, None),
        (
            post("/api/trade/orders/open"),
            OrdersPageRequest {
                account_id: "A1".to_string(),
                page_size: 20,
                last_client_order_id: None
            }
        )
    );
    assert_eq!(
        orders.get_today_orders_paged("A1", 20, Some("O7")),
        (
            post("/api/trade/orders/today"),
            OrdersPageRequest {
                account_id: "A1".to_string(),
                page_size: 20,
                last_client_order_id: Some("O7".to_string())
            }
        )
    );
    assert_eq!(orders.preview_option_order(), post("/api/trade/option/preview"));
    assert_eq!(orders.place_option_order(), post("/api/trade/option/place"));
    assert_eq!(orders.replace_option_order(), post("/api/trade/option/replace"));
    assert_eq!(
        orders.cancel_option_order("A1", "C3"),
        (
            post("/api/trade/option/cancel"),
            CancelOptionRequest { account_id: "A1".to_string(), client_order_id: "C3".to_string() }
        )
    );
}

#[test]
fn market_data_routes() {
    let (mut base, auth) = parts();
    let market = MarketDataEndpoints::new(&mut base, &auth);
    assert_eq!(market.get_quote("AAPL"), get("/api/quote/tickerRealTimes/AAPL"));
    let (route, body) = market.get_quotes(&["AAPL", "MSFT"]);
    assert_eq!(route, post("/api/quote/tickerRealTimes"));
    assert_eq!(body.symbols, vec!["AAPL".to_string(), "MSFT".to_string()]);
    assert_eq!(market.get_snapshot(&SnapshotParams::new("A", "STK")), post("/api/quote/snapshot"));
    assert_eq!(
        market.get_stock_snapshot("AAPL"),
        (post("/api/quote/snapshot"), SnapshotParams::new_stock("AAPL"))
    );
    assert_eq!(
        market.get_stock_snapshots(&["AAPL", "MSFT"]),
        (post("/api/quote/snapshot"), SnapshotParams::new("AAPL,MSFT", "STK"))
    );
    assert_eq!(
        market.get_history_bar(&BarQueryParams::new_stock("A", TimeFrame::Hour1)),
        post("/api/quote/history/bars")
    );
    assert_eq!(market.get_option_chain(), post("/api/options/list"));
    assert_eq!(market.get_news(&NewsQueryParams::new()), post("/api/securities/news/list"));
    assert_eq!(market.get_market_calendar(), get("/api/securities/financial/calendar"));
    assert_eq!(
        market.get_instrument(&InstrumentParams::new_stock("A")),
        post("/api/quote/instruments")
    );
    assert_eq!(
        market.get_stock_instrument("AAPL"),
        (post("/api/quote/instruments"), InstrumentParams::new("AAPL", "STK"))
    );
    assert_eq!(
        market.get_stock_instruments(&["AAPL", "MSFT"]),
        (post("/api/quote/instruments"), InstrumentParams::new("AAPL,MSFT", "STK"))
    );
    assert_eq!(market.get_eod_bar(&EodBarsParams::new("1", 5)), post("/api/quote/eod/bars"));
    assert_eq!(
        market.get_instrument_eod_bars("1", 5),
        (post("/api/quote/eod/bars"), EodBarsParams::new("1", 5))
    );
    assert_eq!(
        market.get_instrument_eod_bars_with_date("1", "2024-01-31", 5),
        (post("/api/quote/eod/bars"), EodBarsParams::new("1", 5).date("2024-01-31"))
    );
    assert_eq!(
        market.get_corp_action(&CorpActionParams::new("1", vec![])),
        post("/api/quote/corp/action")
    );
    let (route, splits) = market.get_stock_splits("1");
    assert_eq!(route, post("/api/quote/corp/action"));
    assert_eq!(splits.instrument_ids, "1");
    assert_eq!(splits.event_types, "SPLIT");
    assert_eq!(market.get_reverse_stock_splits("1").1.event_types, "REVERSE_SPLIT");
    assert_eq!(market.get_all_corp_actions("1").1.event_types, "SPLIT,REVERSE_SPLIT");
    assert_eq!(
        market.get_daily_bars("AAPL", None),
        (post("/api/quote/history/bars"), BarQueryParams::new("AAPL", "STK", TimeFrame::Day1, 200))
    );
    assert_eq!(
        market.get_daily_bars("AAPL", Some(7)),
        (post("/api/quote/history/bars"), BarQueryParams::new("AAPL", "STK", TimeFrame::Day1, 7))
    );
    assert_eq!(
        market.get_intraday_bars("AAPL", TimeFrame::Minute15, None),
        (
            post("/api/quote/history/bars"),
            BarQueryParams::new("AAPL", "STK", TimeFrame::Minute15, 200)
        )
    );
    assert_eq!(
        market.get_intraday_bars("AAPL", TimeFrame::Minute15, Some(30)).1.count,
        "30"
    );
}

#[test]
fn watchlist_routes() {
    let (mut base, auth) = parts();
    let watchlists = WatchlistEndpoints::new(&mut base, &auth);
    assert_eq!(watchlists.get_watchlists(), get("/api/wlas/watchlist"));
    assert_eq!(watchlists.get_watchlist("W1"), get("/api/wlas/watchlist/W1"));
    let create = CreateWatchlistRequest { name: "tech".to_string(), symbols: vec![] };
    assert_eq!(watchlists.create_watchlist(&create), post("/api/wlas/watchlist"));
    assert_eq!(
        watchlists.delete_watchlist("W1"),
        Route { method: Method::Delete, path: "/api/wlas/watchlist/delete/W1".to_string() }
    );
    let symbols = vec!["AAPL".to_string(), "MSFT".to_string()];
    let added = ModifyWatchlistRequest {
        id: "W1".to_string(),
        name: None,
        add_symbols: Some(symbols.clone()),
        remove_symbols: None,
    };
    assert_eq!(watchlists.modify_watchlist(&added), post("/api/wlas/watchlist/modify"));
    assert_eq!(
        watchlists.add_symbols("W1", &symbols),
        (post("/api/wlas/watchlist/modify"), added)
    );
    assert_eq!(
        watchlists.remove_symbols("W1", &symbols),
        (
            post("/api/wlas/watchlist/modify"),
            ModifyWatchlistRequest {
                id: "W1".to_string(),
                name: None,
                add_symbols: None,
                remove_symbols: Some(symbols),
            }
        )
    );
    assert_eq!(
        watchlists.rename_watchlist("W1", "tech"),
        (
            post("/api/wlas/watchlist/modify"),
            ModifyWatchlistRequest {
                id: "W1".to_string(),
                name: Some("tech".to_string()),
                add_symbols: None,
                remove_symbols: None,
            }
        )
    );
}
