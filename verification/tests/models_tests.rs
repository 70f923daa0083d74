use webull_rs::models::account::{BalanceParams, PositionParams};
use webull_rs::models::market::{
    BarQueryParams, CorpActionEventType, CorpActionParams, EodBarsParams, InstrumentParams,
    NewsQueryParams, SnapshotParams, TimeFrame,
};
use webull_rs::models::order::{OrderQueryParams, OrderStatus};
use webull_rs::models::response::{ApiResponse, PaginatedResponse, Pagination};

#[test]
fn position_params() {
    let params = PositionParams::new("acct", 50);
    assert_eq!(params.account_id, "acct");
    assert_eq!(params.page_size, 50);
    assert_eq!(params.last_instrument_id, None);
    let next = params.last_instrument_id("913256135");
    assert_eq!(next.account_id, "acct");
    assert_eq!(next.page_size, 50);
    assert_eq!(next.last_instrument_id, Some("913256135".to_string()));
}

#[test]
fn balance_params() {
    let params = BalanceParams::new("acct", "USD");
    assert_eq!(params.account_id, "acct");
    assert_eq!(params.total_asset_currency, "USD");
    let default = BalanceParams::new_with_default_currency("acct");
    assert_eq!(default.account_id, "acct");
    assert_eq!(default.total_asset_currency, "HKD");
}

#[test]
fn snapshot_params() {
    assert_eq!(
        SnapshotParams::new("AAPL", "ETF"),
        SnapshotParams { symbols: "AAPL".to_string(), category: "ETF".to_string() }
    );
    assert_eq!(
        SnapshotParams::new_stock("AAPL"),
        SnapshotParams { symbols: "AAPL".to_string(), category: "STK".to_string() }
    );
    assert_eq!(
        SnapshotParams::new_stocks(&["AAPL", "MSFT", "TSLA"]),
        SnapshotParams { symbols: "AAPL,MSFT,TSLA".to_string(), category: "STK".to_string() }
    );
    assert_eq!(SnapshotParams::new_stocks(&[]).symbols, "");
}

#[test]
fn bar_query_params() {
    let params = BarQueryParams::new("AAPL", "STK", TimeFrame::Minute5, 1200);
    assert_eq!(params.symbol, "AAPL");
    assert_eq!(params.category, "STK");
    assert_eq!(params.time_frame, TimeFrame::Minute5);
    assert_eq!(params.count, "1200");
    let stock = BarQueryParams::new_stock("MSFT", TimeFrame::Day1);
    assert_eq!(stock.symbol, "MSFT");
    assert_eq!(stock.category, "STK");
    assert_eq!(stock.time_frame, TimeFrame::Day1);
    assert_eq!(stock.count, "200");
    let counted = stock.count(0);
    assert_eq!(counted.count, "0");
    assert_eq!(counted.symbol, "MSFT");
    assert_eq!(counted.count(u32::MAX).count, "4294967295");
}

#[test]
fn instrument_params() {
    assert_eq!(
        InstrumentParams::new("AAPL", "ETF"),
        InstrumentParams { symbols: "AAPL".to_string(), category: "ETF".to_string() }
    );
    assert_eq!(InstrumentParams::new_stock("AAPL").category, "STK");
    assert_eq!(InstrumentParams::new_stocks(&["A", "B"]).symbols, "A,B");
    assert_eq!(InstrumentParams::new_stocks(&["A", "B"]).category, "STK");
}

#[test]
fn eod_bars_params() {
    let params = EodBarsParams::new("913256135", 800);
    assert_eq!(params.instrument_ids, "913256135");
    assert_eq!(params.date, None);
    assert_eq!(params.count, "800");
    let dated = params.date("2024-01-31");
    assert_eq!(dated.instrument_ids, "913256135");
    assert_eq!(dated.date, Some("2024-01-31".to_string()));
    assert_eq!(dated.count, "800");
}

#[test]
fn corp_action_params() {
    let params = CorpActionParams::new(
        "1,2",
        vec![CorpActionEventType::Split, CorpActionEventType::ReverseSplit],
    );
    assert_eq!(params.instrument_ids, "1,2");
    assert_eq!(params.event_types, "SPLIT,REVERSE_SPLIT");
    assert_eq!(params.start_date, None);
    assert_eq!(params.end_date, None);
    assert_eq!(params.page_number, None);
    assert_eq!(params.page_size, None);
    assert_eq!(params.last_update_time, None);
    assert_eq!(CorpActionParams::new("1", vec![]).event_types, "");
    assert_eq!(CorpActionParams::new("1", vec![CorpActionEventType::ReverseSplit]).event_types, "REVERSE_SPLIT");
    let full = params
        .start_date("2024-01-01")
        .end_date("2024-12-31")
        .page_number(2)
        .page_size(200)
        .last_update_time("2024-06-01 00:00:00");
    assert_eq!(
        full,
        CorpActionParams {
            instrument_ids: "1,2".to_string(),
            event_types: "SPLIT,REVERSE_SPLIT".to_string(),
            start_date: Some("2024-01-01".to_string()),
            end_date: Some("2024-12-31".to_string()),
            page_number: Some(2),
            page_size: Some(200),
            last_update_time: Some("2024-06-01 00:00:00".to_string()),
        }
    );
    assert_eq!(CorpActionEventType::Split.as_str(), "SPLIT");
    assert_eq!(CorpActionEventType::ReverseSplit.as_str(), "REVERSE_SPLIT");
}

#[test]
fn news_query_params() {
    assert_eq!(NewsQueryParams::new(), NewsQueryParams::default());
    let params = NewsQueryParams::new().symbol("AAPL").start_date(5).end_date(9).limit(3);
    assert_eq!(
        params,
        NewsQueryParams {
            symbol: Some("AAPL".to_string()),
            start_date: Some(5),
            end_date: Some(9),
            limit: Some(3),
        }
    );
}

#[test]
fn order_query_params() {
    assert_eq!(OrderQueryParams::new(), OrderQueryParams::default());
    assert_eq!(
        OrderQueryParams::new(),
        OrderQueryParams { status: None, symbol: None, start_date: None, end_date: None, limit: None }
    );
    let params = OrderQueryParams::new()
        .status(OrderStatus::Filled)
        .symbol("AAPL")
        .start_date(-5)
        .end_date(9)
        .limit(3);
    assert_eq!(
        params,
        OrderQueryParams {
            status: Some(OrderStatus::Filled),
            symbol: Some("AAPL".to_string()),
            start_date: Some(-5),
            end_date: Some(9),
            limit: Some(3),
        }
    );
}

#[test]
fn api_response() {
    let ok = ApiResponse::success(7u32);
    assert!(ok.is_success());
    assert_eq!(ok.get_data(), Some(&7));
    assert_eq!(ok.code, None);
    assert_eq!(ok.message, None);
    let failed: ApiResponse<u32> = ApiResponse::error("X1", "bad");
    assert!(!failed.is_success());
    assert_eq!(failed.get_data(), None);
    assert_eq!(failed.code, Some("X1".to_string()));
    assert_eq!(failed.message, Some("bad".to_string()));
}

#[test]
fn paginated_response() {
    let pagination = Pagination { page: 2, page_size: 10, total: 35, total_pages: 4 };
    let ok = PaginatedResponse::success(vec![1u32, 2, 3], pagination);
    assert!(ok.is_success());
    assert_eq!(ok.get_data(), Some(&vec![1, 2, 3]));
    assert_eq!(ok.get_pagination(), Some(&pagination));
    assert_eq!(ok.code, None);
    assert_eq!(ok.message, None);
    let failed: PaginatedResponse<u32> = PaginatedResponse::error("X1", "bad");
    assert!(!failed.is_success());
    assert_eq!(failed.get_data(), None);
    assert_eq!(failed.get_pagination(), None);
    assert_eq!(failed.code, Some("X1".to_string()));
    assert_eq!(failed.message, Some("bad".to_string()));
}
