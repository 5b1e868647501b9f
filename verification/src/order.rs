//! # Coinbase Advanced Order API, first version
//!
//! The enumerations and the list parameters of the first version of the Order API.

use vstd::prelude::*;

use crate::errors::{CbError, CbErrorView, CbResult};
use crate::models::order::MarketIoc;
use crate::text::same_text;
use crate::utils::{
    count_set, count_values, group_query_pairs, lemma_optional_pair, lemma_render_contains,
    lemma_repeated_pair, occurs_in, optional_pairs, optional_repeated_pairs, pair_text,
    render_query, QueryBuilder, QueryPair, QueryValue,
};

pub use crate::models::order::ListFillsQuery;

verus! {

/// Various order types.
#[derive(Debug, Clone, Copy, PartialEq, Eq, Structural)]
pub enum OrderType {
    /// A Market order.
    MARKET,
    /// A Limit order.
    LIMIT,
    /// A stop order is an order that becomes a market order when triggered.
    STOP,
    /// A stop order is a limit order that doesn't go on the book until it hits the stop price.
    STOPLIMIT,
}

/// The text that an order type is displayed as.
pub open spec fn order_type_text(t: OrderType) -> Seq<char> {
    match t {
        OrderType::MARKET => "MARKET"@,
        OrderType::LIMIT => "LIMIT"@,
        OrderType::STOP => "STOP"@,
        OrderType::STOPLIMIT => "STOPLIMIT"@,
    }
}

impl OrderType {
    /// The text that the order type is displayed as.
    pub fn to_string(&self) -> (s: String)
        ensures
            s@ == order_type_text(*self),
    {
        match self {
            OrderType::MARKET => String::from_str("MARKET"),
            OrderType::LIMIT => String::from_str("LIMIT"),
            OrderType::STOP => String::from_str("STOP"),
            OrderType::STOPLIMIT => String::from_str("STOPLIMIT"),
        }
    }
}

impl QueryValue for OrderType {
    open spec fn query_text(&self) -> Seq<char> {
        order_type_text(*self)
    }

    fn to_query_text(&self) -> (s: String) {
        self.to_string()
    }
}

/// Order side, BUY or SELL.
#[derive(Debug, Clone, Copy, PartialEq, Eq, Structural)]
pub enum OrderSide {
    /// Buying a product.
    BUY,
    /// Selling a product.
    SELL,
}

/// The text that an order side is displayed as.
pub open spec fn order_side_text(s: OrderSide) -> Seq<char> {
    match s {
        OrderSide::BUY => "BUY"@,
        OrderSide::SELL => "SELL"@,
    }
}

impl OrderSide {
    /// The text that the order side is displayed as.
    pub fn to_string(&self) -> (s: String)
        ensures
            s@ == order_side_text(*self),
    {
        match self {
            OrderSide::BUY => String::from_str("BUY"),
            OrderSide::SELL => String::from_str("SELL"),
        }
    }
}

impl QueryValue for OrderSide {
    open spec fn query_text(&self) -> Seq<char> {
        order_side_text(*self)
    }

    fn to_query_text(&self) -> (s: String) {
        self.to_string()
    }
}

/// Order status, OPEN, CANCELLED, and EXPIRED.
#[derive(Debug, Clone, Copy, PartialEq, Eq, Structural)]
pub enum OrderStatus {
    /// Implies the order is still available and not closed.
    OPEN,
    /// Order was closed by cancellation.
    CANCELLED,
    /// Order was closed by expiration.
    EXPIRED,
}

/// The text that an order status is displayed as.
pub open spec fn order_status_text(s: OrderStatus) -> Seq<char> {
    match s {
        OrderStatus::OPEN => "OPEN"@,
        OrderStatus::CANCELLED => "CANCELLED"@,
        OrderStatus::EXPIRED => "EXPIRED"@,
    }
}

impl OrderStatus {
    /// The text that the order status is displayed as.
    pub fn to_string(&self) -> (s: String)
        ensures
            s@ == order_status_text(*self),
    {
        match self {
            OrderStatus::OPEN => String::from_str("OPEN"),
            OrderStatus::CANCELLED => String::from_str("CANCELLED"),
            OrderStatus::EXPIRED => String::from_str("EXPIRED"),
        }
    }
}

impl QueryValue for OrderStatus {
    open spec fn query_text(&self) -> Seq<char> {
        order_status_text(*self)
    }

    fn to_query_text(&self) -> (s: String) {
        self.to_string()
    }
}

/// Represents parameters that are optional for List Orders API request.
#[derive(Debug, Clone)]
pub struct ListOrdersQuery {
    /// Optional string of the product ID. Defaults to null, or fetch for all products.
    pub product_id: Option<String>,
    /// Note: Cannot pair OPEN orders with other order types.
    pub order_status: Option<Vec<OrderStatus>>,
    /// A pagination limit with no default set.
    pub limit: Option<u32>,
    /// Start date to fetch orders from, inclusive.
    pub start_date: Option<String>,
    /// An optional end date for the query window, exclusive.
    pub end_date: Option<String>,
    /// Type of orders to return. Default is to return all order types.
    pub order_type: Option<OrderType>,
    /// Only orders matching this side are returned. Default is to return all sides.
    pub order_side: Option<OrderSide>,
    /// Cursor used for pagination.
    pub cursor: Option<String>,
    /// Only orders matching this product type are returned: SPOT or FUTURE.
    pub product_type: Option<String>,
}

impl ListOrdersQuery {
    /// A query that sets nothing.
    pub open spec fn empty_spec() -> ListOrdersQuery {
        ListOrdersQuery {
            product_id: None,
            order_status: None,
            limit: None,
            start_date: None,
            end_date: None,
            order_type: None,
            order_side: None,
            cursor: None,
            product_type: None,
        }
    }

    /// A query that sets nothing.
    pub fn new() -> (q: Self)
        ensures
            q == ListOrdersQuery::empty_spec(),
    {
        ListOrdersQuery {
            product_id: None,
            order_status: None,
            limit: None,
            start_date: None,
            end_date: None,
            order_type: None,
            order_side: None,
            cursor: None,
            product_type: None,
        }
    }

    /// The parameters that the query sends, in order; one per order status.
    pub open spec fn query_pairs(&self) -> Seq<QueryPair> {
        optional_pairs("product_id"@, self.product_id) + optional_repeated_pairs(
            "order_status"@,
            self.order_status,
        ) + optional_pairs("limit"@, self.limit) + optional_pairs("start_date"@, self.start_date)
            + optional_pairs("end_date"@, self.end_date) + optional_pairs(
            "order_type"@,
            self.order_type,
        ) + optional_pairs("order_side"@, self.order_side) + optional_pairs(
            "cursor"@,
            self.cursor,
        ) + optional_pairs("product_type"@, self.product_type)
    }

    /// Converts the object into HTTP request parameters: each parameter that is set, in order,
    /// joined by `&`.
    pub fn to_string(&self) -> (s: String)
        ensures
            s@ == render_query(self.query_pairs()),
    {
        let b = QueryBuilder::new().push_optional("product_id", &self.product_id).push_optional_vec(
            "order_status",
            &self.order_status,
        ).push_optional("limit", &self.limit).push_optional("start_date", &self.start_date).push_optional(
            "end_date",
            &self.end_date,
        ).push_optional("order_type", &self.order_type).push_optional(
            "order_side",
            &self.order_side,
        ).push_optional("cursor", &self.cursor).push_optional("product_type", &self.product_type);
        proof {
            assert(b@ =~= self.query_pairs());
        }
        b.build()
    }
}

/// Represents a create order response from the API.
#[derive(Debug)]
pub struct OrderResponse {
    /// Whether the order was created.
    pub success: bool,
    /// Why the order failed, when it did.
    pub failure_reason: String,
    /// The ID of the order.
    pub order_id: String,
}

/// Represents a cancel order response from the API.
#[derive(Debug)]
pub struct CancelOrdersResponse {
    /// The orders cancelled.
    pub results: Vec<OrderResponse>,
}

/// The query that obtains all orders of a product: the query given, or one that sets nothing,
/// with the product set to the one given.
pub fn get_all_query(product_id: &str, query: Option<ListOrdersQuery>) -> (q: ListOrdersQuery)
    ensures
        q.product_id matches Some(p) && p@ == product_id@,
        q == (ListOrdersQuery {
            product_id: q.product_id,
            ..match query {
                Some(given) => given,
                None => ListOrdersQuery::empty_spec(),
            }
        }),
{
    let base = match query {
        Some(given) => given,
        None => ListOrdersQuery::new(),
    };
    ListOrdersQuery { product_id: Some(String::from_str(product_id)), ..base }
}

/// The query of the next page of orders: the query with the cursor of the page received, when
/// the page says that more follow; `None` when it is the last.
pub fn next_page(query: ListOrdersQuery, has_next: bool, cursor: String) -> (q: Option<
    ListOrdersQuery,
>)
    ensures
        has_next ==> q == Some(ListOrdersQuery { cursor: Some(cursor), ..query }),
        !has_next ==> q is None,
{
    if has_next {
        Some(ListOrdersQuery { cursor: Some(cursor), ..query })
    } else {
        None
    }
}

/// The query of the orders that cancelling all orders of a product cancels: its open orders.
pub fn cancel_all_query(product_id: &str) -> (q: ListOrdersQuery)
    ensures
        q.product_id matches Some(p) && p@ == product_id@,
        q.order_status matches Some(s) && s@ == seq![OrderStatus::OPEN],
        q == (ListOrdersQuery {
            product_id: q.product_id,
            order_status: q.order_status,
            ..ListOrdersQuery::empty_spec()
        }),
{
    let mut statuses: Vec<OrderStatus> = Vec::new();
    statuses.push(OrderStatus::OPEN);
    assert(statuses@ =~= seq![OrderStatus::OPEN]);
    ListOrdersQuery {
        product_id: Some(String::from_str(product_id)),
        order_status: Some(statuses),
        limit: None,
        start_date: None,
        end_date: None,
        order_type: None,
        order_side: None,
        cursor: None,
        product_type: None,
    }
}

/// The orders that cancelling all orders of a product cancels: the ids found, or an error when
/// none was found.
pub fn cancel_plan(order_ids: Vec<String>) -> (r: CbResult<Vec<String>>)
    ensures
        order_ids@.len() == 0 ==> (r matches Err(e) && e@ == CbErrorView::NothingToDo(
            "no orders found to cancel"@,
        )),
        order_ids@.len() > 0 ==> (r matches Ok(ids) && ids@ == order_ids@),
{
    if order_ids.len() == 0 {
        return Err(CbError::NothingToDo(String::from_str("no orders found to cancel")));
    }
    Ok(order_ids)
}

/// The configuration of a market order of a size: a buy spends the size in the quote currency,
/// any other side sells the size in the base currency.
pub fn market_configuration(side: &str, size: &str) -> (m: MarketIoc)
    ensures
        side@ == "BUY"@ ==> (m.quote_size matches Some(q) && q@ == size@ && m.base_size is None),
        side@ != "BUY"@ ==> (m.base_size matches Some(b) && b@ == size@ && m.quote_size is None),
{
    if same_text(side, "BUY") {
        MarketIoc { quote_size: Some(String::from_str(size)), base_size: None }
    } else {
        MarketIoc { quote_size: None, base_size: Some(String::from_str(size)) }
    }
}

/// Every parameter set on a List Orders query is sent: each value set is a pair of the query, one
/// pair per value, with the key of its field; no other pair is sent; and every pair is written into
/// the query string as `key=value`.
pub proof fn lemma_list_orders_query_sends_filters(q: ListOrdersQuery)
    ensures
        q.product_id is Some ==> q.query_pairs().contains(
            ("product_id"@, q.product_id->0.query_text()),
        ),
        forall|i: int|
            #![trigger q.order_status->0@[i]]
            q.order_status is Some && 0 <= i < q.order_status->0@.len()
                ==> q.query_pairs().contains(
                ("order_status"@, q.order_status->0@[i].query_text()),
            ),
        q.limit is Some ==> q.query_pairs().contains(("limit"@, q.limit->0.query_text())),
        q.start_date is Some ==> q.query_pairs().contains(
            ("start_date"@, q.start_date->0.query_text()),
        ),
        q.end_date is Some ==> q.query_pairs().contains(("end_date"@, q.end_date->0.query_text())),
        q.order_type is Some ==> q.query_pairs().contains(
            ("order_type"@, q.order_type->0.query_text()),
        ),
        q.order_side is Some ==> q.query_pairs().contains(
            ("order_side"@, q.order_side->0.query_text()),
        ),
        q.cursor is Some ==> q.query_pairs().contains(("cursor"@, q.cursor->0.query_text())),
        q.product_type is Some ==> q.query_pairs().contains(
            ("product_type"@, q.product_type->0.query_text()),
        ),
        q.query_pairs().len() == count_set(q.product_id) + count_values(q.order_status)
            + count_set(q.limit) + count_set(q.start_date) + count_set(q.end_date)
            + count_set(q.order_type) + count_set(q.order_side) + count_set(q.cursor)
            + count_set(q.product_type),
        forall|i: int|
            0 <= i < q.query_pairs().len() ==> occurs_in(
                pair_text(#[trigger] q.query_pairs()[i]),
                render_query(q.query_pairs()),
            ),
{
    broadcast use group_query_pairs;

    if q.product_id is Some {
        lemma_optional_pair("product_id"@, q.product_id);
    }
    assert forall|i: int|
        #![trigger q.order_status->0@[i]]
        q.order_status is Some && 0 <= i < q.order_status->0@.len()
            implies q.query_pairs().contains(
            ("order_status"@, q.order_status->0@[i].query_text()),
        ) by {
        lemma_repeated_pair("order_status"@, q.order_status, i);
    }
    if q.limit is Some {
        lemma_optional_pair("limit"@, q.limit);
    }
    if q.start_date is Some {
        lemma_optional_pair("start_date"@, q.start_date);
    }
    if q.end_date is Some {
        lemma_optional_pair("end_date"@, q.end_date);
    }
    if q.order_type is Some {
        lemma_optional_pair("order_type"@, q.order_type);
    }
    if q.order_side is Some {
        lemma_optional_pair("order_side"@, q.order_side);
    }
    if q.cursor is Some {
        lemma_optional_pair("cursor"@, q.cursor);
    }
    if q.product_type is Some {
        lemma_optional_pair("product_type"@, q.product_type);
    }
    assert forall|i: int| 0 <= i < q.query_pairs().len() implies occurs_in(
        pair_text(#[trigger] q.query_pairs()[i]),
        render_query(q.query_pairs()),
    ) by {
        lemma_render_contains(q.query_pairs(), i);
    }
}

/// Distinct order types have distinct texts, so the text sent names exactly one of them.
pub proof fn lemma_order_type_texts_distinct(a: OrderType, b: OrderType)
    ensures
        order_type_text(a) == order_type_text(b) ==> a == b,
{
    reveal_strlit("MARKET");
    reveal_strlit("LIMIT");
    reveal_strlit("STOP");
    reveal_strlit("STOPLIMIT");
    assert("MARKET"@.len() == 6);
    assert("LIMIT"@.len() == 5);
    assert("STOP"@.len() == 4);
    assert("STOPLIMIT"@.len() == 9);
}

/// Distinct order sides have distinct texts, so the text sent names exactly one of them.
pub proof fn lemma_order_side_texts_distinct(a: OrderSide, b: OrderSide)
    ensures
        order_side_text(a) == order_side_text(b) ==> a == b,
{
    reveal_strlit("BUY");
    reveal_strlit("SELL");
    assert("BUY"@.len() == 3);
    assert("SELL"@.len() == 4);
}

/// Distinct order statuses have distinct texts, so the text sent names exactly one of them.
pub proof fn lemma_order_status_texts_distinct(a: OrderStatus, b: OrderStatus)
    ensures
        order_status_text(a) == order_status_text(b) ==> a == b,
{
    reveal_strlit("OPEN");
    reveal_strlit("CANCELLED");
    reveal_strlit("EXPIRED");
    assert("OPEN"@.len() == 4);
    assert("CANCELLED"@.len() == 9);
    assert("EXPIRED"@.len() == 7);
}

} // verus!
