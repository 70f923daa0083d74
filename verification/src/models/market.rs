use crate::utils::text::{decimal, join, joined, slice_texts, to_decimal};
use vstd::prelude::*;

verus! {

/// Parameters for querying snapshot data.
#[derive(Debug, Clone, PartialEq, Eq)]
pub struct SnapshotParams {
    /// Symbols to query (comma-separated)
    pub symbols: String,
    /// Security category (e.g., "STK" for stocks)
    pub category: String,
}

impl SnapshotParams {
    /// Create new snapshot query parameters.
    pub fn new(symbols: &str, category: &str) -> (params: Self)
        ensures
            params.symbols@ == symbols@,
            params.category@ == category@,
    {
        SnapshotParams { symbols: symbols.to_owned(), category: category.to_owned() }
    }

    /// Create new snapshot query parameters for stocks.
    pub fn new_stock(symbols: &str) -> (params: Self)
        ensures
            params.symbols@ == symbols@,
            params.category@ == "STK"@,
    {
        SnapshotParams::new(symbols, "STK")
    }

    /// Create new snapshot query parameters for multiple stock symbols: the
    /// symbols are joined by commas.
    pub fn new_stocks(symbols: &[&str]) -> (params: Self)
        ensures
            params.symbols@ == joined(slice_texts(symbols@), ","@),
            params.category@ == "STK"@,
    {
        let symbols_str = join(symbols, ",");
        SnapshotParams::new_stock(symbols_str.as_str())
    }
}

/// Time frame for bar data.
#[derive(Debug, Clone, Copy, PartialEq, Eq, Structural)]
pub enum TimeFrame {
    /// 1-minute bars
    Minute1,
    /// 5-minute bars
    Minute5,
    /// 15-minute bars
    Minute15,
    /// 30-minute bars
    Minute30,
    /// 1-hour bars
    Hour1,
    /// 4-hour bars
    Hour4,
    /// Daily bars
    Day1,
    /// Weekly bars
    Week1,
    /// Monthly bars
    Month1,
}

/// Parameters for querying historical bar data.
#[derive(Debug, Clone, PartialEq, Eq)]
pub struct BarQueryParams {
    /// Symbol to query
    pub symbol: String,
    /// Security category (e.g., "STK" for stocks)
    pub category: String,
    /// Time frame for the bars
    pub time_frame: TimeFrame,
    /// Number of bars to return (max 1200), in decimal
    pub count: String,
}

impl BarQueryParams {
    /// Create new bar query parameters.
    pub fn new(symbol: &str, category: &str, time_frame: TimeFrame, count: u32) -> (params: Self)
        ensures
            params.symbol@ == symbol@,
            params.category@ == category@,
            params.time_frame == time_frame,
            params.count@ == decimal(count as nat),
    {
        BarQueryParams {
            symbol: symbol.to_owned(),
            category: category.to_owned(),
            time_frame,
            count: to_decimal(count as u128),
        }
    }

    /// Create new bar query parameters for stocks with default count of 200.
    pub fn new_stock(symbol: &str, time_frame: TimeFrame) -> (params: Self)
        ensures
            params.symbol@ == symbol@,
            params.category@ == "STK"@,
            params.time_frame == time_frame,
            params.count@ == decimal(200),
    {
        BarQueryParams::new(symbol, "STK", time_frame, 200)
    }

    /// Set the count of bars to return.
    pub fn count(self, count: u32) -> (params: Self)
        ensures
            params.symbol == self.symbol,
            params.category == self.category,
            params.time_frame == self.time_frame,
            params.count@ == decimal(count as nat),
    {
        let mut params = self;
        params.count = to_decimal(count as u128);
        params
    }
}

/// Type of option contract.
#[derive(Debug, Clone, Copy, PartialEq, Eq, Structural)]
pub enum OptionType {
    /// Call option
    Call,
    /// Put option
    Put,
}

/// Parameters for querying news articles. Dates are in milliseconds since
/// the Unix epoch.
#[derive(Debug, Clone, PartialEq, Eq)]
pub struct NewsQueryParams {
    /// Symbol filter
    pub symbol: Option<String>,
    /// Start date filter
    pub start_date: Option<i64>,
    /// End date filter
    pub end_date: Option<i64>,
    /// Maximum number of articles to return
    pub limit: Option<u32>,
}

impl NewsQueryParams {
    /// Create new news query parameters, with no filter set.
    pub fn new() -> (params: Self)
        ensures
            params == (NewsQueryParams {
                symbol: None,
                start_date: None,
                end_date: None,
                limit: None,
            }),
    {
        NewsQueryParams { symbol: None, start_date: None, end_date: None, limit: None }
    }

    /// Set the symbol filter.
    pub fn symbol(self, symbol: &str) -> (params: Self)
        ensures
            params.symbol matches Some(text) && text@ == symbol@,
            params.start_date == self.start_date,
            params.end_date == self.end_date,
            params.limit == self.limit,
    {
        let mut params = self;
        params.symbol = Some(symbol.to_owned());
        params
    }

    /// Set the start date filter.
    pub fn start_date(self, start_date: i64) -> (params: Self)
        ensures
            params == (NewsQueryParams { start_date: Some(start_date), ..self }),
    {
        let mut params = self;
        params.start_date = Some(start_date);
        params
    }

    /// Set the end date filter.
    pub fn end_date(self, end_date: i64) -> (params: Self)
        ensures
            params == (NewsQueryParams { end_date: Some(end_date), ..self }),
    {
        let mut params = self;
        params.end_date = Some(end_date);
        params
    }

    /// Set the limit.
    pub fn limit(self, limit: u32) -> (params: Self)
        ensures
            params == (NewsQueryParams { limit: Some(limit), ..self }),
    {
        let mut params = self;
        params.limit = Some(limit);
        params
    }
}

impl Default for NewsQueryParams {
    fn default() -> (params: Self)
        ensures
            params == (NewsQueryParams {
                symbol: None,
                start_date: None,
                end_date: None,
                limit: None,
            }),
    {
        NewsQueryParams::new()
    }
}

/// Instrument information.
#[derive(Debug, Clone, PartialEq, Eq)]
pub struct Instrument {
    /// Instrument ID
    pub id: String,
    /// Symbol
    pub symbol: String,
    /// Name
    pub name: String,
    /// Exchange
    pub exchange: String,
    /// Security type
    pub security_type: String,
    /// Region
    pub region: String,
    /// Currency
    pub currency: String,
    /// Is tradable
    pub tradable: bool,
    /// Is shortable
    pub shortable: bool,
    /// Is marginable
    pub marginable: bool,
    /// Is fractional tradable
    pub fractional_tradable: bool,
}

/// Parameters for querying instrument data.
#[derive(Debug, Clone, PartialEq, Eq)]
pub struct InstrumentParams {
    /// Symbols to query (comma-separated)
    pub symbols: String,
    /// Security category (e.g., "STK" for stocks)
    pub category: String,
}

impl InstrumentParams {
    /// Create new instrument query parameters.
    pub fn new(symbols: &str, category: &str) -> (params: Self)
        ensures
            params.symbols@ == symbols@,
            params.category@ == category@,
    {
        InstrumentParams { symbols: symbols.to_owned(), category: category.to_owned() }
    }

    /// Create new instrument query parameters for stocks.
    pub fn new_stock(symbols: &str) -> (params: Self)
        ensures
            params.symbols@ == symbols@,
            params.category@ == "STK"@,
    {
        InstrumentParams::new(symbols, "STK")
    }

    /// Create new instrument query parameters for multiple stock symbols: the
    /// symbols are joined by commas.
    pub fn new_stocks(symbols: &[&str]) -> (params: Self)
        ensures
            params.symbols@ == joined(slice_texts(symbols@), ","@),
            params.category@ == "STK"@,
    {
        let symbols_str = join(symbols, ",");
        InstrumentParams::new_stock(symbols_str.as_str())
    }
}

/// Parameters for querying end-of-day bars.
#[derive(Debug, Clone, PartialEq, Eq)]
pub struct EodBarsParams {
    /// Instrument IDs (comma-separated)
    pub instrument_ids: String,
    /// Date (UTC, format: yyyy-MM-dd)
    pub date: Option<String>,
    /// Number of bars to return (max 800), in decimal
    pub count: String,
}

impl EodBarsParams {
    /// Create new EOD bars query parameters.
    pub fn new(instrument_ids: &str, count: u32) -> (params: Self)
        ensures
            params.instrument_ids@ == instrument_ids@,
            params.date is None,
            params.count@ == decimal(count as nat),
    {
        EodBarsParams {
            instrument_ids: instrument_ids.to_owned(),
            date: None,
            count: to_decimal(count as u128),
        }
    }

    /// Set the date filter.
    pub fn date(self, date: &str) -> (params: Self)
        ensures
            params.instrument_ids == self.instrument_ids,
            params.date matches Some(text) && text@ == date@,
            params.count == self.count,
    {
        let mut params = self;
        params.date = Some(date.to_owned());
        params
    }
}

/// Corporate action event type.
#[derive(Debug, Clone, Copy, PartialEq, Eq, Structural)]
pub enum CorpActionEventType {
    /// Stock split
    Split,
    /// Reverse stock split
    ReverseSplit,
}

impl CorpActionEventType {
    /// The name of the event type in a query.
    pub open spec fn name(self) -> Seq<char> {
        match self {
            CorpActionEventType::Split => "SPLIT"@,
            CorpActionEventType::ReverseSplit => "REVERSE_SPLIT"@,
        }
    }

    /// The name of the event type in a query.
    pub fn as_str(self) -> (name: &'static str)
        ensures
            name@ == self.name(),
    {
        match self {
            CorpActionEventType::Split => "SPLIT",
            CorpActionEventType::ReverseSplit => "REVERSE_SPLIT",
        }
    }
}

/// The names of a list of event types, in their order.
pub open spec fn event_names(event_types: Seq<CorpActionEventType>) -> Seq<Seq<char>> {
    Seq::new(event_types.len(), |i: int| event_types[i].name())
}

/// Parameters for querying corporate actions.
#[derive(Debug, Clone, PartialEq, Eq)]
pub struct CorpActionParams {
    /// Instrument IDs (comma-separated)
    pub instrument_ids: String,
    /// Event types (comma-separated)
    pub event_types: String,
    /// Start date (UTC, format: yyyy-MM-dd)
    pub start_date: Option<String>,
    /// End date (UTC, format: yyyy-MM-dd)
    pub end_date: Option<String>,
    /// Page number
    pub page_number: Option<u32>,
    /// Page size (max 200)
    pub page_size: Option<u32>,
    /// Last update time (UTC, format: yyyy-MM-dd HH:mm:ss)
    pub last_update_time: Option<String>,
}

impl CorpActionParams {
    /// Create new corporate action query parameters: the names of the event
    /// types are joined by commas, and no filter is set.
    pub fn new(instrument_ids: &str, event_types: Vec<CorpActionEventType>) -> (params: Self)
        ensures
            params.instrument_ids@ == instrument_ids@,
            params.event_types@ == joined(event_names(event_types@), ","@),
            params.start_date is None,
            params.end_date is None,
            params.page_number is None,
            params.page_size is None,
            params.last_update_time is None,
    {
        let mut names: Vec<&str> = Vec::new();
        let mut i: usize = 0;
        while i < event_types.len()
            invariant
                i <= event_types.len(),
                names@.len() == i,
                slice_texts(names@) == event_names(event_types@.take(i as int)),
            decreases event_types.len() - i,
        {
            let ghost before = names@;
            names.push(event_types[i].as_str());
            assert(slice_texts(names@) =~= event_names(event_types@.take(i as int + 1))) by {
                let next = event_names(event_types@.take(i as int + 1));
                let prev = event_names(event_types@.take(i as int));
                assert(slice_texts(names@).len() == next.len());
                assert forall|j: int| 0 <= j < next.len() implies slice_texts(names@)[j]
                    == next[j] by {
                    if j < i {
                        assert(names@[j] == before[j]);
                        assert(slice_texts(before)[j] == prev[j]);
                    }
                }
            }
            i += 1;
        }
        assert(event_types@.take(i as int) =~= event_types@);
        let event_types_str = join(names.as_slice(), ",");
        CorpActionParams {
            instrument_ids: instrument_ids.to_owned(),
            event_types: event_types_str,
            start_date: None,
            end_date: None,
            page_number: None,
            page_size: None,
            last_update_time: None,
        }
    }

    /// Set the start date filter.
    pub fn start_date(self, start_date: &str) -> (params: Self)
        ensures
            params.start_date matches Some(text) && text@ == start_date@,
            params.instrument_ids == self.instrument_ids,
            params.event_types == self.event_types,
            params.end_date == self.end_date,
            params.page_number == self.page_number,
            params.page_size == self.page_size,
            params.last_update_time == self.last_update_time,
    {
        let mut params = self;
        params.start_date = Some(start_date.to_owned());
        params
    }

    /// Set the end date filter.
    pub fn end_date(self, end_date: &str) -> (params: Self)
        ensures
            params.end_date matches Some(text) && text@ == end_date@,
            params.instrument_ids == self.instrument_ids,
            params.event_types == self.event_types,
            params.start_date == self.start_date,
            params.page_number == self.page_number,
            params.page_size == self.page_size,
            params.last_update_time == self.last_update_time,
    {
        let mut params = self;
        params.end_date = Some(end_date.to_owned());
        params
    }

    /// Set the page number.
    pub fn page_number(self, page_number: u32) -> (params: Self)
        ensures
            params == (CorpActionParams { page_number: Some(page_number), ..self }),
    {
        let mut params = self;
        params.page_number = Some(page_number);
        params
    }

    /// Set the page size.
    pub fn page_size(self, page_size: u32) -> (params: Self)
        ensures
            params == (CorpActionParams { page_size: Some(page_size), ..self }),
    {
        let mut params = self;
        params.page_size = Some(page_size);
        params
    }

    /// Set the last update time.
    pub fn last_update_time(self, last_update_time: &str) -> (params: Self)
        ensures
            params.last_update_time matches Some(text) && text@ == last_update_time@,
            params.instrument_ids == self.instrument_ids,
            params.event_types == self.event_types,
            params.start_date == self.start_date,
            params.end_date == self.end_date,
            params.page_number == self.page_number,
            params.page_size == self.page_size,
    {
        let mut params = self;
        params.last_update_time = Some(last_update_time.to_owned());
        params
    }
}

} // verus!
