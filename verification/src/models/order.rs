use vstd::prelude::*;

verus! {

/// Status of an order.
#[derive(Debug, Clone, Copy, PartialEq, Eq, Structural)]
pub enum OrderStatus {
    /// Order is new
    New,
    /// Order is partially filled
    PartiallyFilled,
    /// Order is filled
    Filled,
    /// Order is canceled
    Canceled,
    /// Order is rejected
    Rejected,
    /// Order is pending cancel
    PendingCancel,
    /// Order is pending new
    PendingNew,
    /// Order is pending replace
    PendingReplace,
    /// Order is replaced
    Replaced,
    /// Order is suspended
    Suspended,
    /// Order is expired
    Expired,
}

/// Side of an order.
#[derive(Debug, Clone, Copy, PartialEq, Eq, Structural)]
pub enum OrderSide {
    /// Buy order
    Buy,
    /// Sell order
    Sell,
    /// Sell short order
    SellShort,
    /// Buy to cover order
    BuyToCover,
}

/// Type of an order.
#[derive(Debug, Clone, Copy, PartialEq, Eq, Structural)]
pub enum OrderType {
    /// Market order
    Market,
    /// Limit order
    Limit,
    /// Stop order
    Stop,
    /// Stop limit order
    StopLimit,
    /// Trailing stop order
    TrailingStop,
    /// Trailing stop limit order
    TrailingStopLimit,
    /// Enhanced limit order (for Hong Kong stocks)
    EnhancedLimit,
    /// At auction order (for Hong Kong stocks)
    AtAuction,
    /// At auction limit order (for Hong Kong stocks)
    AtAuctionLimit,
}

/// Time in force for an order.
#[derive(Debug, Clone, Copy, PartialEq, Eq, Structural)]
pub enum TimeInForce {
    /// Day order
    Day,
    /// Good till canceled order
    Gtc,
    /// Good till date order
    Gtd,
    /// Immediate or cancel order
    Ioc,
    /// Fill or kill order
    Fok,
}

/// Trailing stop type for an order.
#[derive(Debug, Clone, Copy, PartialEq, Eq, Structural)]
pub enum TrailingStopType {
    /// Amount in currency
    Amount,
    /// Percentage
    Percent,
}

/// Parameters for querying orders. Dates are in milliseconds since the Unix
/// epoch.
#[derive(Debug, Clone, PartialEq, Eq)]
pub struct OrderQueryParams {
    /// Status of orders to query
    pub status: Option<OrderStatus>,
    /// Symbol to filter by
    pub symbol: Option<String>,
    /// Start date for the query
    pub start_date: Option<i64>,
    /// End date for the query
    pub end_date: Option<i64>,
    /// Maximum number of orders to return
    pub limit: Option<u32>,
}

impl OrderQueryParams {
    /// Create new order query parameters, with no filter set.
    pub fn new() -> (params: Self)
        ensures
            params == (OrderQueryParams {
                status: None,
                symbol: None,
                start_date: None,
                end_date: None,
                limit: None,
            }),
    {
        OrderQueryParams { status: None, symbol: None, start_date: None, end_date: None, limit: None }
    }

    /// Set the status filter.
    pub fn status(self, status: OrderStatus) -> (params: Self)
        ensures
            params == (OrderQueryParams { status: Some(status), ..self }),
    {
        let mut params = self;
        params.status = Some(status);
        params
    }

    /// Set the symbol filter.
    pub fn symbol(self, symbol: &str) -> (params: Self)
        ensures
            params.symbol matches Some(text) && text@ == symbol@,
            params.status == self.status,
            params.start_date == self.start_date,
            params.end_date == self.end_date,
            params.limit == self.limit,
    {
        let mut params = self;
        params.symbol = Some(symbol.to_owned());
        params
    }

    /// Set the start date filter.
    pub fn start_date(self, start_date: i64) -> (params: Self)
        ensures
            params == (OrderQueryParams { start_date: Some(start_date), ..self }),
    {
        let mut params = self;
        params.start_date = Some(start_date);
        params
    }

    /// Set the end date filter.
    pub fn end_date(self, end_date: i64) -> (params: Self)
        ensures
            params == (OrderQueryParams { end_date: Some(end_date), ..self }),
    {
        let mut params = self;
        params.end_date = Some(end_date);
        params
    }

    /// Set the limit.
    pub fn limit(self, limit: u32) -> (params: Self)
        ensures
            params == (OrderQueryParams { limit: Some(limit), ..self }),
    {
        let mut params = self;
        params.limit = Some(limit);
        params
    }
}

impl Default for OrderQueryParams {
    fn default() -> (params: Self)
        ensures
            params == (OrderQueryParams {
                status: None,
                symbol: None,
                start_date: None,
                end_date: None,
                limit: None,
            }),
    {
        OrderQueryParams::new()
    }
}

} // verus!
