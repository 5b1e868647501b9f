//! # Coinbase Advanced Product API
//!
//! Products: their types and trading sessions, and the parameters of the endpoints that list
//! products, tickers, best bids and asks, and candles.

use vstd::prelude::*;

use crate::constants::CANDLE_MAXIMUM;
use crate::errors::{bad_query, CbErrorView, CbResult};
use crate::text::{copy_texts, text_less, text_lt};
use crate::time::{self, Granularity};
use crate::traits::Query;
use crate::utils::{
    count_set, count_values, group_query_pairs, lemma_optional_pair, lemma_render_contains,
    lemma_repeated_pair, occurs_in, optional_pairs, optional_repeated_pairs, pair_text,
    render_query, repeated_pairs, QueryBuilder, QueryPair, QueryValue,
};

verus! {

/// Type of a product.
#[derive(Debug, Clone, Copy, PartialEq, Eq, Structural)]
pub enum ProductType {
    /// Unknown product type.
    Unknown,
    /// Spot product type.
    Spot,
    /// Future product type.
    Future,
}

impl ProductType {
    /// The name by which the API knows the value.
    pub open spec fn api_name(self) -> Seq<char> {
        match self {
            ProductType::Unknown => "UNKNOWN_PRODUCT_TYPE"@,
            ProductType::Spot => "SPOT"@,
            ProductType::Future => "FUTURE"@,
        }
    }

    /// The name by which the API knows the value.
    pub fn as_ref(&self) -> (s: &'static str)
        ensures
            s@ == self.api_name(),
    {
        match self {
            ProductType::Unknown => "UNKNOWN_PRODUCT_TYPE",
            ProductType::Spot => "SPOT",
            ProductType::Future => "FUTURE",
        }
    }

    /// The text that the value is displayed as: its API name.
    pub fn to_string(&self) -> (s: String)
        ensures
            s@ == self.api_name(),
    {
        String::from_str(self.as_ref())
    }
}

impl QueryValue for ProductType {
    open spec fn query_text(&self) -> Seq<char> {
        self.api_name()
    }

    fn to_query_text(&self) -> (s: String) {
        self.to_string()
    }
}

/// Represents the trading session state.
#[derive(Debug, Clone, Copy, PartialEq, Eq, Structural)]
pub enum SessionState {
    Undefined,
    PreOpen,
    PreOpenNoCancel,
    Open,
    Close,
}

/// Reasons for a trading session to close.
#[derive(Debug, Clone, Copy, PartialEq, Eq, Structural)]
pub enum CloseReason {
    Undefined,
    RegularMarketClose,
    ExchangeMaintenance,
    VendorMaintenance,
}

/// The venue where a product trades.
#[derive(Debug, Clone, Copy, PartialEq, Eq, Structural)]
pub enum ProductVenue {
    Unknown,
    Cbe,
    Fcm,
    Intx,
}

/// Fcm specific scheduled maintenance details.
#[derive(Debug, Clone)]
pub struct Maintenance {
    /// Start time of the maintenance.
    pub start: String,
    /// End time of the maintenance.
    pub end: String,
}

/// Session details for the product.
#[derive(Debug, Clone)]
pub struct SessionDetails {
    /// Whether or not the session is currently open.
    pub is_session_open: bool,
    /// Time the session opened.
    pub open_time: String,
    /// Time the session closed.
    pub close_time: String,
    /// The current state of the session.
    pub session_state: SessionState,
    /// Whether or not after-hours order entry is disabled.
    pub after_hours_order_entry_disabled: bool,
    /// Reason the session closed.
    pub closed_reason: CloseReason,
    /// Whether or not the session is in maintenance.
    pub maintenance: Option<Maintenance>,
}

/// Perpetual details for the product.
#[derive(Debug, Clone)]
pub struct PerpetualDetails {
    pub open_interest: String,
    pub funding_rate: String,
    pub funding_time: String,
    pub max_leverage: String,
    pub base_asset_uuid: String,
    pub underlying_type: String,
}

/// Future details for the product.
#[derive(Debug, Clone)]
pub struct FutureDetails {
    pub venue: String,
    pub contract_code: String,
    pub contract_expiry: String,
    pub contract_size: String,
    pub contract_root_unit: String,
    /// Descriptive name for the product series, eg "Nano Bitcoin Futures".
    pub group_description: String,
    pub contract_expiry_timezone: String,
    /// Short version of the `group_description`, eg "Nano BTC".
    pub group_short_description: String,
    /// Possible values: [`UNKNOWN_RISK_MANAGEMENT_TYPE`, `MANAGED_BY_FCM`, `MANAGED_BY_VENUE`]
    pub risk_managed_by: String,
    /// Possible values: [`UNKNOWN_CONTRACT_EXPIRY_TYPE`, EXPIRING]
    pub contract_expiry_type: String,
    pub perpetual_details: Option<PerpetualDetails>,
    /// Name of the contract.
    pub contract_display_name: String,
    pub time_to_expiry_ms: String,
    pub non_crypto: bool,
    pub contract_expiry_name: String,
    pub twenty_four_by_seven: bool,
}

/// Represents parameters that are optional for List Products API request.
#[derive(Debug)]
pub struct ProductListQuery {
    /// A limit describing how many products to return.
    pub limit: Option<u32>,
    /// Number of products to offset before returning.
    pub offset: Option<u32>,
    /// Type of products to return. Valid options: SPOT or FUTURE
    pub product_type: Option<ProductType>,
    /// List of product IDs to return.
    pub product_ids: Option<Vec<String>>,
    /// If true, return all products of all product types (including expired futures contracts).
    pub get_all_products: Option<bool>,
    /// Whether or not to populate `view_only` with the tradability status of the product.
    pub get_tradability_status: Option<bool>,
}

impl Query for ProductListQuery {
    open spec fn query_pairs(&self) -> Seq<QueryPair> {
        optional_pairs("limit"@, self.limit) + optional_pairs("offset"@, self.offset)
            + optional_pairs("product_type"@, self.product_type) + optional_repeated_pairs(
            "product_ids"@,
            self.product_ids,
        ) + optional_pairs("get_all_products"@, self.get_all_products) + optional_pairs(
            "get_tradability_status"@,
            self.get_tradability_status,
        )
    }

    /// Only the first of `limit`, `offset` and `product_type` that is set is checked.
    open spec fn query_failure(&self) -> Option<CbErrorView> {
        match self.limit {
            Some(limit) => if limit == 0 {
                Some(CbErrorView::BadQuery("limit must be greater than 0"@))
            } else {
                None
            },
            None => match self.offset {
                Some(offset) => if offset == 0 {
                    Some(CbErrorView::BadQuery("offset must be greater than 0"@))
                } else {
                    None
                },
                None => match self.product_type {
                    Some(product_type) => if product_type == ProductType::Unknown {
                        Some(CbErrorView::BadQuery("product_type cannot be unknown"@))
                    } else {
                        None
                    },
                    None => None,
                },
            },
        }
    }

    fn check(&self) -> (r: CbResult<()>) {
        if let Some(limit) = self.limit {
            if limit == 0 {
                return Err(bad_query("limit must be greater than 0"));
            }
        } else if let Some(offset) = self.offset {
            if offset == 0 {
                return Err(bad_query("offset must be greater than 0"));
            }
        } else if let Some(product_type) = self.product_type {
            if product_type == ProductType::Unknown {
                return Err(bad_query("product_type cannot be unknown"));
            }
        }
        Ok(())
    }

    fn to_query(&self) -> (s: String) {
        let b = QueryBuilder::new().push_optional("limit", &self.limit).push_optional(
            "offset",
            &self.offset,
        ).push_optional("product_type", &self.product_type).push_optional_vec(
            "product_ids",
            &self.product_ids,
        ).push_optional("get_all_products", &self.get_all_products).push_optional(
            "get_tradability_status",
            &self.get_tradability_status,
        );
        proof {
            assert(b@ =~= self.query_pairs());
        }
        b.build()
    }
}

impl ProductListQuery {
    /// A query that sets nothing.
    pub open spec fn empty_spec() -> ProductListQuery {
        ProductListQuery {
            limit: None,
            offset: None,
            product_type: None,
            product_ids: None,
            get_all_products: None,
            get_tradability_status: None,
        }
    }

    /// Creates a new `ProductListQuery` object with default values.
    pub fn new() -> (q: Self)
        ensures
            q == ProductListQuery::empty_spec(),
    {
        ProductListQuery {
            limit: None,
            offset: None,
            product_type: None,
            product_ids: None,
            get_all_products: None,
            get_tradability_status: None,
        }
    }

    /// Number of products to return.
    pub fn limit(self, limit: u32) -> (q: Self)
        ensures
            q == (ProductListQuery { limit: Some(limit), ..self }),
    {
        ProductListQuery { limit: Some(limit), ..self }
    }

    /// Number of products to offset before returning.
    pub fn offset(self, offset: u32) -> (q: Self)
        ensures
            q == (ProductListQuery { offset: Some(offset), ..self }),
    {
        ProductListQuery { offset: Some(offset), ..self }
    }

    /// Type of products to return. Valid options: SPOT or FUTURE.
    pub fn product_type(self, product_type: ProductType) -> (q: Self)
        ensures
            q == (ProductListQuery { product_type: Some(product_type), ..self }),
    {
        ProductListQuery { product_type: Some(product_type), ..self }
    }

    /// List of product IDs to return.
    pub fn product_ids(self, product_ids: &[String]) -> (q: Self)
        ensures
            q.product_ids is Some,
            q.product_ids->0@ == product_ids@,
            q == (ProductListQuery { product_ids: q.product_ids, ..self }),
    {
        ProductListQuery { product_ids: Some(copy_texts(product_ids)), ..self }
    }

    /// If true, return all products of all product types (including expired futures contracts).
    pub fn get_all_products(self, get_all_products: bool) -> (q: Self)
        ensures
            q == (ProductListQuery { get_all_products: Some(get_all_products), ..self }),
    {
        ProductListQuery { get_all_products: Some(get_all_products), ..self }
    }

    /// Whether or not to populate `view_only` with the tradability status of the product.
    pub fn get_tradability_status(self, get_tradability_status: bool) -> (q: Self)
        ensures
            q == (ProductListQuery { get_tradability_status: Some(get_tradability_status), ..self }),
    {
        ProductListQuery { get_tradability_status: Some(get_tradability_status), ..self }
    }
}

/// Represents parameters for Ticker Product API request.
#[derive(Debug)]
pub struct ProductTickerQuery {
    /// Number of trades to return.
    pub limit: u32,
    /// The UNIX timestamp indicating the start of the time interval.
    pub start: Option<String>,
    /// The UNIX timestamp indicating the end of the time interval.
    pub end: Option<String>,
}

impl Query for ProductTickerQuery {
    open spec fn query_pairs(&self) -> Seq<QueryPair> {
        seq![("limit"@, self.limit.query_text())] + optional_pairs("start"@, self.start)
            + optional_pairs("end"@, self.end)
    }

    /// `start` and `end` are compared as texts.
    open spec fn query_failure(&self) -> Option<CbErrorView> {
        if self.limit == 0 {
            Some(CbErrorView::BadQuery("limit must be greater than 0"@))
        } else if self.start is Some && self.end is Some && !text_less(
            self.start->0@,
            self.end->0@,
        ) {
            Some(CbErrorView::BadQuery("start must be less than end"@))
        } else {
            None
        }
    }

    fn check(&self) -> (r: CbResult<()>) {
        if self.limit == 0 {
            return Err(bad_query("limit must be greater than 0"));
        } else if let (Some(start), Some(end)) = (&self.start, &self.end) {
            if !text_lt(start.as_str(), end.as_str()) {
                return Err(bad_query("start must be less than end"));
            }
        }
        Ok(())
    }

    fn to_query(&self) -> (s: String) {
        let b = QueryBuilder::new().push("limit", &self.limit).push_optional(
            "start",
            &self.start,
        ).push_optional("end", &self.end);
        proof {
            assert(b@ =~= self.query_pairs());
        }
        b.build()
    }
}

impl ProductTickerQuery {
    /// Creates a new `ProductTickerQuery` for a number of trades, with no time interval.
    pub fn new(limit: u32) -> (q: Self)
        ensures
            q == (ProductTickerQuery { limit, start: None, end: None }),
    {
        ProductTickerQuery { limit, start: None, end: None }
    }

    /// Number of trades to return.
    pub fn limit(self, limit: u32) -> (q: Self)
        ensures
            q == (ProductTickerQuery { limit, ..self }),
    {
        ProductTickerQuery { limit, ..self }
    }

    /// The UNIX timestamp indicating the start of the time interval.
    pub fn start(self, start: &str) -> (q: Self)
        ensures
            q.start is Some,
            q.start->0@ == start@,
            q.limit == self.limit,
            q.end == self.end,
    {
        ProductTickerQuery { start: Some(String::from_str(start)), ..self }
    }

    /// The UNIX timestamp indicating the end of the time interval.
    pub fn end(self, end: &str) -> (q: Self)
        ensures
            q.end is Some,
            q.end->0@ == end@,
            q.limit == self.limit,
            q.start == self.start,
    {
        ProductTickerQuery { end: Some(String::from_str(end)), ..self }
    }
}

impl Default for ProductTickerQuery {
    fn default() -> (q: Self)
        ensures
            q == (ProductTickerQuery { limit: 100, start: None, end: None }),
    {
        ProductTickerQuery { limit: 100, start: None, end: None }
    }
}

/// Represents parameters for the best bid and ask request.
#[derive(Debug)]
pub struct ProductBidAskQuery {
    /// The list of trading pairs (e.g. 'BTC-USD').
    pub product_ids: Vec<String>,
}

impl Query for ProductBidAskQuery {
    open spec fn query_pairs(&self) -> Seq<QueryPair> {
        repeated_pairs("product_ids"@, self.product_ids@)
    }

    open spec fn query_failure(&self) -> Option<CbErrorView> {
        None
    }

    fn check(&self) -> (r: CbResult<()>) {
        Ok(())
    }

    fn to_query(&self) -> (s: String) {
        let b = QueryBuilder::new().push_vec("product_ids", &self.product_ids);
        proof {
            assert(b@ =~= self.query_pairs());
        }
        b.build()
    }
}

impl ProductBidAskQuery {
    /// Creates a new `ProductBidAskQuery` with no product.
    pub fn new() -> (q: Self)
        ensures
            q.product_ids@ == Seq::<String>::empty(),
    {
        ProductBidAskQuery { product_ids: Vec::new() }
    }

    /// The list of trading pairs (e.g. 'BTC-USD').
    pub fn product_ids(self, product_ids: &[String]) -> (q: Self)
        ensures
            q.product_ids@ == product_ids@,
    {
        ProductBidAskQuery { product_ids: copy_texts(product_ids) }
    }
}

/// Represents parameters for Candles Product API request.
#[derive(Debug, Clone)]
pub struct ProductCandleQuery {
    /// The start time of the time range.
    pub start: u64,
    /// The end time of the time range.
    pub end: u64,
    /// The granularity of the candles.
    pub granularity: Granularity,
    /// The number of candles to return. Maximum is 350.
    pub limit: u32,
}

impl Query for ProductCandleQuery {
    open spec fn query_pairs(&self) -> Seq<QueryPair> {
        seq![
            ("start"@, self.start.query_text()),
            ("end"@, self.end.query_text()),
            ("granularity"@, self.granularity.api_name()),
            ("limit"@, self.limit.query_text()),
        ]
    }

    open spec fn query_failure(&self) -> Option<CbErrorView> {
        if self.limit == 0 {
            Some(CbErrorView::BadQuery("limit must be greater than 0"@))
        } else if self.start >= self.end {
            Some(CbErrorView::BadQuery("start must be less than end"@))
        } else if self.granularity == Granularity::Unknown {
            Some(CbErrorView::BadQuery("granularity cannot be unknown or unset"@))
        } else {
            None
        }
    }

    fn check(&self) -> (r: CbResult<()>) {
        if self.limit == 0 {
            return Err(bad_query("limit must be greater than 0"));
        } else if self.start >= self.end {
            return Err(bad_query("start must be less than end"));
        } else if self.granularity == Granularity::Unknown {
            return Err(bad_query("granularity cannot be unknown or unset"));
        }
        Ok(())
    }

    fn to_query(&self) -> (s: String) {
        let b = QueryBuilder::new().push("start", &self.start).push("end", &self.end).push(
            "granularity",
            &self.granularity,
        ).push("limit", &self.limit);
        proof {
            assert(b@ =~= self.query_pairs());
        }
        b.build()
    }
}

impl Default for ProductCandleQuery {
    /// The last day of five-minute candles, as many as one request returns. The two ends are
    /// read from the clock separately; a clock before the UNIX epoch counts as the epoch.
    fn default() -> (q: Self)
        ensures
            exists|start_clock: u64, end_clock: u64|
                q == #[trigger] ProductCandleQuery::last_day_spec(start_clock, end_clock),
    {
        let start_clock = match time::now() {
            Some(t) => t,
            None => 0,
        };
        let end_clock = match time::now() {
            Some(t) => t,
            None => 0,
        };
        ProductCandleQuery::last_day(start_clock, end_clock)
    }
}

impl ProductCandleQuery {
    /// The query for the day before the clock read `start_clock`, up to the clock read
    /// `end_clock`: five-minute candles, as many as one request returns. A clock less than a day
    /// after the epoch starts at the epoch.
    pub open spec fn last_day_spec(start_clock: u64, end_clock: u64) -> ProductCandleQuery {
        ProductCandleQuery {
            start: if start_clock >= 86400 {
                (start_clock - 86400) as u64
            } else {
                0
            },
            end: end_clock,
            granularity: Granularity::FiveMinute,
            limit: CANDLE_MAXIMUM,
        }
    }

    /// The query for the last day of five-minute candles, given the two readings of the clock.
    pub fn last_day(start_clock: u64, end_clock: u64) -> (q: Self)
        ensures
            q == ProductCandleQuery::last_day_spec(start_clock, end_clock),
    {
        let day = Granularity::to_secs(&Granularity::OneDay) as u64;
        let start = if start_clock >= day {
            start_clock - day
        } else {
            0
        };
        ProductCandleQuery {
            start,
            end: end_clock,
            granularity: Granularity::FiveMinute,
            limit: CANDLE_MAXIMUM,
        }
    }

    /// Creates a new `ProductCandleQuery` for a time range and granularity, with the largest limit.
    pub fn new(start: u64, end: u64, granularity: Granularity) -> (q: Self)
        ensures
            q == (ProductCandleQuery { start, end, granularity, limit: CANDLE_MAXIMUM }),
    {
        ProductCandleQuery { start, end, granularity, limit: CANDLE_MAXIMUM }
    }

    /// The start time of the time range.
    pub fn start(self, start: u64) -> (q: Self)
        ensures
            q == (ProductCandleQuery { start, ..self }),
    {
        ProductCandleQuery { start, ..self }
    }

    /// The end time of the time range.
    pub fn end(self, end: u64) -> (q: Self)
        ensures
            q == (ProductCandleQuery { end, ..self }),
    {
        ProductCandleQuery { end, ..self }
    }

    /// The granularity of the candles.
    pub fn granularity(self, granularity: Granularity) -> (q: Self)
        ensures
            q == (ProductCandleQuery { granularity, ..self }),
    {
        ProductCandleQuery { granularity, ..self }
    }

    /// The number of candles to return. Maximum is 350.
    pub fn limit(self, limit: u32) -> (q: Self)
        ensures
            q == (ProductCandleQuery { limit, ..self }),
    {
        ProductCandleQuery { limit, ..self }
    }
}

/// Every parameter set on a product list query is sent: each value set is a pair of the query, one
/// pair per value, with the key of its field; no other pair is sent; and every pair is written into
/// the query string as `key=value`.
pub proof fn lemma_product_list_query_sends_filters(q: ProductListQuery)
    ensures
        q.limit is Some ==> q.query_pairs().contains(("limit"@, q.limit->0.query_text())),
        q.offset is Some ==> q.query_pairs().contains(("offset"@, q.offset->0.query_text())),
        q.product_type is Some ==> q.query_pairs().contains(
            ("product_type"@, q.product_type->0.query_text()),
        ),
        forall|i: int|
            #![trigger q.product_ids->0@[i]]
            q.product_ids is Some && 0 <= i < q.product_ids->0@.len() ==> q.query_pairs().contains(
                ("product_ids"@, q.product_ids->0@[i].query_text()),
            ),
        q.get_all_products is Some ==> q.query_pairs().contains(
            ("get_all_products"@, q.get_all_products->0.query_text()),
        ),
        q.get_tradability_status is Some ==> q.query_pairs().contains(
            ("get_tradability_status"@, q.get_tradability_status->0.query_text()),
        ),
        q.query_pairs().len() == count_set(q.limit) + count_set(q.offset)
            + count_set(q.product_type) + count_values(q.product_ids)
            + count_set(q.get_all_products) + count_set(q.get_tradability_status),
        forall|i: int|
            0 <= i < q.query_pairs().len() ==> occurs_in(
                pair_text(#[trigger] q.query_pairs()[i]),
                render_query(q.query_pairs()),
            ),
{
    broadcast use group_query_pairs;

    if q.limit is Some {
        lemma_optional_pair("limit"@, q.limit);
    }
    if q.offset is Some {
        lemma_optional_pair("offset"@, q.offset);
    }
    if q.product_type is Some {
        lemma_optional_pair("product_type"@, q.product_type);
    }
    assert forall|i: int|
        #![trigger q.product_ids->0@[i]]
        q.product_ids is Some && 0 <= i < q.product_ids->0@.len() implies q.query_pairs().contains(
            ("product_ids"@, q.product_ids->0@[i].query_text()),
        ) by {
        lemma_repeated_pair("product_ids"@, q.product_ids, i);
    }
    if q.get_all_products is Some {
        lemma_optional_pair("get_all_products"@, q.get_all_products);
    }
    if q.get_tradability_status is Some {
        lemma_optional_pair("get_tradability_status"@, q.get_tradability_status);
    }
    assert forall|i: int| 0 <= i < q.query_pairs().len() implies occurs_in(
        pair_text(#[trigger] q.query_pairs()[i]),
        render_query(q.query_pairs()),
    ) by {
        lemma_render_contains(q.query_pairs(), i);
    }
}

/// Every parameter set on a product ticker query is sent: each value set is a pair of the query,
/// one pair per value, with the key of its field; no other pair is sent; and every pair is written
/// into the query string as `key=value`.
pub proof fn lemma_product_ticker_query_sends_filters(q: ProductTickerQuery)
    ensures
        q.query_pairs().contains(("limit"@, q.limit.query_text())),
        q.start is Some ==> q.query_pairs().contains(("start"@, q.start->0.query_text())),
        q.end is Some ==> q.query_pairs().contains(("end"@, q.end->0.query_text())),
        q.query_pairs().len() == 1 + count_set(q.start) + count_set(q.end),
        forall|i: int|
            0 <= i < q.query_pairs().len() ==> occurs_in(
                pair_text(#[trigger] q.query_pairs()[i]),
                render_query(q.query_pairs()),
            ),
{
    broadcast use group_query_pairs;

    assert(seq![("limit"@, q.limit.query_text())][0] == ("limit"@, q.limit.query_text()));
    if q.start is Some {
        lemma_optional_pair("start"@, q.start);
    }
    if q.end is Some {
        lemma_optional_pair("end"@, q.end);
    }
    assert forall|i: int| 0 <= i < q.query_pairs().len() implies occurs_in(
        pair_text(#[trigger] q.query_pairs()[i]),
        render_query(q.query_pairs()),
    ) by {
        lemma_render_contains(q.query_pairs(), i);
    }
}

/// A candle query sends exactly its window: `start` and `end` with their timestamps, `granularity`
/// with the API name of its granularity and `limit` with its limit, in that order; each is written
/// into the query string as `key=value`.
pub proof fn lemma_product_candle_query_sends_window(q: ProductCandleQuery)
    ensures
        q.query_pairs().len() == 4,
        q.query_pairs()[0] == ("start"@, q.start.query_text()),
        q.query_pairs()[1] == ("end"@, q.end.query_text()),
        q.query_pairs()[2] == ("granularity"@, q.granularity.api_name()),
        q.query_pairs()[3] == ("limit"@, q.limit.query_text()),
        forall|i: int|
            0 <= i < q.query_pairs().len() ==> occurs_in(
                pair_text(#[trigger] q.query_pairs()[i]),
                render_query(q.query_pairs()),
            ),
{
    assert forall|i: int| 0 <= i < q.query_pairs().len() implies occurs_in(
        pair_text(#[trigger] q.query_pairs()[i]),
        render_query(q.query_pairs()),
    ) by {
        lemma_render_contains(q.query_pairs(), i);
    }
}

/// A best bid and ask query sends one `product_ids` pair per product id, in the order given,
/// and nothing else; each is written into the query string as `key=value`.
pub proof fn lemma_bid_ask_query_sends_products(q: ProductBidAskQuery)
    ensures
        q.query_pairs().len() == q.product_ids@.len(),
        forall|i: int|
            0 <= i < q.product_ids@.len() ==> #[trigger] q.query_pairs()[i] == (
                "product_ids"@,
                q.product_ids@[i]@,
            ),
        forall|i: int|
            0 <= i < q.query_pairs().len() ==> occurs_in(
                pair_text(#[trigger] q.query_pairs()[i]),
                render_query(q.query_pairs()),
            ),
{
    assert forall|i: int| 0 <= i < q.query_pairs().len() implies occurs_in(
        pair_text(#[trigger] q.query_pairs()[i]),
        render_query(q.query_pairs()),
    ) by {
        lemma_render_contains(q.query_pairs(), i);
    }
}

/// Distinct product types have distinct API names, so the text sent names exactly one of them.
pub proof fn lemma_product_type_api_names_distinct(a: ProductType, b: ProductType)
    ensures
        a.api_name() == b.api_name() ==> a == b,
{
    reveal_strlit("UNKNOWN_PRODUCT_TYPE");
    reveal_strlit("SPOT");
    reveal_strlit("FUTURE");
    assert("UNKNOWN_PRODUCT_TYPE"@.len() == 20);
    assert("SPOT"@.len() == 4);
    assert("FUTURE"@.len() == 6);
}

/// A candle query is accepted exactly when its limit is positive, its start comes before its
/// end and its granularity is known.
pub proof fn lemma_product_candle_query_accepted(q: ProductCandleQuery)
    ensures
        q.query_failure() is None <==> (q.limit > 0 && q.start < q.end && q.granularity
            != Granularity::Unknown),
{
}

/// A ticker query is accepted exactly when its limit is positive and, where both a start and
/// an end are given, the start comes before the end as a text.
pub proof fn lemma_product_ticker_query_accepted(q: ProductTickerQuery)
    ensures
        q.query_failure() is None <==> (q.limit > 0 && (q.start is Some && q.end is Some
            ==> text_less(q.start->0@, q.end->0@))),
{
}

/// A product list query is refused only for a zero limit, a zero offset or an unknown
/// product type, and one whose limit, offset and product type are all acceptable passes.
pub proof fn lemma_product_list_query_accepted(q: ProductListQuery)
    ensures
        q.query_failure() is Some ==> (q.limit == Some(0u32) || q.offset == Some(0u32)
            || q.product_type == Some(ProductType::Unknown)),
        q.limit != Some(0u32) && q.offset != Some(0u32) && q.product_type != Some(
            ProductType::Unknown,
        ) ==> q.query_failure() is None,
        q.limit == Some(0u32) ==> q.query_failure() is Some,
{
}

} // verus!
