//! Query parameters of the endpoints that list orders and fills.

use vstd::prelude::*;
use vstd::slice::slice_to_vec;

use crate::errors::{bad_query, CbErrorView, CbResult};
use crate::models::product::ProductType;
use crate::text::{copy_texts, text_less, text_lt};
use crate::traits::Query;
use crate::utils::{
    count_set, count_values, group_query_pairs, lemma_optional_pair, lemma_render_contains,
    lemma_repeated_pair, occurs_in, optional_pairs, optional_repeated_pairs, pair_text,
    render_query, QueryBuilder, QueryPair, QueryValue,
};

use super::{OrderSide, OrderSortBy, OrderStatus, OrderType, TimeInForce};

verus! {

/// Represents parameters that are optional for List Orders API request.
#[derive(Debug)]
pub struct OrderListQuery {
    /// ID(s) of order(s).
    pub order_ids: Option<Vec<String>>,
    /// Optional string of the product ID(s). Defaults to null, or fetch for all products.
    pub product_ids: Option<Vec<String>>,
    /// Only orders matching this product type are returned.
    pub product_type: Option<ProductType>,
    /// Note: Cannot pair OPEN orders with other order types.
    pub order_status: Option<Vec<OrderStatus>>,
    /// Only orders matching this time in force(s) are returned.
    pub time_in_forces: Option<Vec<TimeInForce>>,
    /// Type of orders to return. Default is to return all order types.
    pub order_types: Option<Vec<OrderType>>,
    /// Only orders matching this side are returned. Default is to return all sides.
    pub order_side: Option<OrderSide>,
    /// Start date to fetch orders from, inclusive.
    pub start_date: Option<String>,
    /// An optional end date for the query window, exclusive.
    pub end_date: Option<String>,
    /// Only returns the orders where the quote, base or underlying asset matches the filter(s).
    pub asset_filters: Option<Vec<String>>,
    /// A pagination limit with no default set.
    pub limit: Option<u32>,
    /// Cursor used for pagination.
    pub cursor: Option<String>,
    /// Sort results by a field. Default is sort by creation time.
    pub sort_by: Option<OrderSortBy>,
}

impl Query for OrderListQuery {
    open spec fn query_pairs(&self) -> Seq<QueryPair> {
        optional_repeated_pairs("order_ids"@, self.order_ids) + optional_repeated_pairs(
            "product_ids"@,
            self.product_ids,
        ) + optional_pairs("product_type"@, self.product_type) + optional_repeated_pairs(
            "order_status"@,
            self.order_status,
        ) + optional_repeated_pairs("time_in_forces"@, self.time_in_forces)
            + optional_repeated_pairs("order_types"@, self.order_types) + optional_pairs(
            "order_side"@,
            self.order_side,
        ) + optional_pairs("start_date"@, self.start_date) + optional_pairs(
            "end_date"@,
            self.end_date,
        ) + optional_repeated_pairs("asset_filters"@, self.asset_filters) + optional_pairs(
            "limit"@,
            self.limit,
        ) + optional_pairs("cursor"@, self.cursor) + optional_pairs("sort_by"@, self.sort_by)
    }

    /// Only the first of `product_type`, `limit`, the pair of dates and `sort_by` that is set
    /// is checked; dates are compared as texts.
    open spec fn query_failure(&self) -> Option<CbErrorView> {
        match self.product_type {
            Some(product_type) => if product_type == ProductType::Unknown {
                Some(CbErrorView::BadQuery("product_type must not be unknown"@))
            } else {
                None
            },
            None => match self.limit {
                Some(limit) => if limit == 0 {
                    Some(CbErrorView::BadQuery("limit must be greater than 0"@))
                } else {
                    None
                },
                None => if self.start_date is Some && self.end_date is Some {
                    if text_less(self.end_date->0@, self.start_date->0@) {
                        Some(CbErrorView::BadQuery("start_date must be before end_date"@))
                    } else {
                        None
                    }
                } else {
                    match self.sort_by {
                        Some(sort_by) => if sort_by == OrderSortBy::Unknown {
                            Some(CbErrorView::BadQuery("sort_by must not be unknown"@))
                        } else {
                            None
                        },
                        None => None,
                    }
                },
            },
        }
    }

    fn check(&self) -> (r: CbResult<()>) {
        if let Some(product_type) = self.product_type {
            if product_type == ProductType::Unknown {
                return Err(bad_query("product_type must not be unknown"));
            }
        } else if let Some(limit) = self.limit {
            if limit == 0 {
                return Err(bad_query("limit must be greater than 0"));
            }
        } else if let (Some(start), Some(end)) = (&self.start_date, &self.end_date) {
            if text_lt(end.as_str(), start.as_str()) {
                return Err(bad_query("start_date must be before end_date"));
            }
        } else if let Some(sort_by) = self.sort_by {
            if sort_by == OrderSortBy::Unknown {
                return Err(bad_query("sort_by must not be unknown"));
            }
        }
        Ok(())
    }

    fn to_query(&self) -> (s: String) {
        let b = QueryBuilder::new().push_optional_vec("order_ids", &self.order_ids).push_optional_vec(
            "product_ids",
            &self.product_ids,
        ).push_optional("product_type", &self.product_type).push_optional_vec(
            "order_status",
            &self.order_status,
        ).push_optional_vec("time_in_forces", &self.time_in_forces).push_optional_vec(
            "order_types",
            &self.order_types,
        ).push_optional("order_side", &self.order_side).push_optional(
            "start_date",
            &self.start_date,
        ).push_optional("end_date", &self.end_date).push_optional_vec(
            "asset_filters",
            &self.asset_filters,
        ).push_optional("limit", &self.limit).push_optional("cursor", &self.cursor).push_optional(
            "sort_by",
            &self.sort_by,
        );
        proof {
            assert(b@ =~= self.query_pairs());
        }
        b.build()
    }
}

impl OrderListQuery {
    /// A query that sets nothing.
    pub open spec fn empty_spec() -> OrderListQuery {
        OrderListQuery {
            order_ids: None,
            product_ids: None,
            product_type: None,
            order_status: None,
            time_in_forces: None,
            order_types: None,
            order_side: None,
            start_date: None,
            end_date: None,
            asset_filters: None,
            limit: None,
            cursor: None,
            sort_by: None,
        }
    }

    /// Creates a new instance of a Query to list orders.
    pub fn new() -> (q: Self)
        ensures
            q == OrderListQuery::empty_spec(),
    {
        OrderListQuery {
            order_ids: None,
            product_ids: None,
            product_type: None,
            order_status: None,
            time_in_forces: None,
            order_types: None,
            order_side: None,
            start_date: None,
            end_date: None,
            asset_filters: None,
            limit: None,
            cursor: None,
            sort_by: None,
        }
    }

    /// The ID(s) of order(s).
    pub fn order_ids(self, order_ids: &[String]) -> (q: Self)
        ensures
            q.order_ids is Some,
            q.order_ids->0@ == order_ids@,
            q == (OrderListQuery { order_ids: q.order_ids, ..self }),
    {
        OrderListQuery { order_ids: Some(copy_texts(order_ids)), ..self }
    }

    /// The ID(s) of the product(s) to filter orders by.
    pub fn product_ids(self, product_ids: &[String]) -> (q: Self)
        ensures
            q.product_ids is Some,
            q.product_ids->0@ == product_ids@,
            q == (OrderListQuery { product_ids: q.product_ids, ..self }),
    {
        OrderListQuery { product_ids: Some(copy_texts(product_ids)), ..self }
    }

    /// Only orders matching this product type are returned.
    pub fn product_type(self, product_type: ProductType) -> (q: Self)
        ensures
            q == (OrderListQuery { product_type: Some(product_type), ..self }),
    {
        OrderListQuery { product_type: Some(product_type), ..self }
    }

    /// Only orders matching this order status are returned.
    pub fn order_status(self, order_status: &[OrderStatus]) -> (q: Self)
        ensures
            q.order_status is Some,
            q.order_status->0@ == order_status@,
            q == (OrderListQuery { order_status: q.order_status, ..self }),
    {
        OrderListQuery { order_status: Some(slice_to_vec(order_status)), ..self }
    }

    /// Only orders matching this time in force(s) are returned.
    pub fn time_in_forces(self, time_in_forces: &[TimeInForce]) -> (q: Self)
        ensures
            q.time_in_forces is Some,
            q.time_in_forces->0@ == time_in_forces@,
            q == (OrderListQuery { time_in_forces: q.time_in_forces, ..self }),
    {
        OrderListQuery { time_in_forces: Some(slice_to_vec(time_in_forces)), ..self }
    }

    /// Type of orders to return.
    pub fn order_types(self, order_types: &[OrderType]) -> (q: Self)
        ensures
            q.order_types is Some,
            q.order_types->0@ == order_types@,
            q == (OrderListQuery { order_types: q.order_types, ..self }),
    {
        OrderListQuery { order_types: Some(slice_to_vec(order_types)), ..self }
    }

    /// Only orders matching this side are returned.
    pub fn order_side(self, order_side: OrderSide) -> (q: Self)
        ensures
            q == (OrderListQuery { order_side: Some(order_side), ..self }),
    {
        OrderListQuery { order_side: Some(order_side), ..self }
    }

    /// Start date to fetch orders from, inclusive.
    pub fn start_date(self, start_date: String) -> (q: Self)
        ensures
            q == (OrderListQuery { start_date: Some(start_date), ..self }),
    {
        OrderListQuery { start_date: Some(start_date), ..self }
    }

    /// An optional end date for the query window, exclusive.
    pub fn end_date(self, end_date: String) -> (q: Self)
        ensures
            q == (OrderListQuery { end_date: Some(end_date), ..self }),
    {
        OrderListQuery { end_date: Some(end_date), ..self }
    }

    /// Only returns the orders where the quote, base or underlying asset matches the filter(s).
    pub fn asset_filters(self, asset_filters: &[String]) -> (q: Self)
        ensures
            q.asset_filters is Some,
            q.asset_filters->0@ == asset_filters@,
            q == (OrderListQuery { asset_filters: q.asset_filters, ..self }),
    {
        OrderListQuery { asset_filters: Some(copy_texts(asset_filters)), ..self }
    }

    /// A pagination limit with no default set.
    pub fn limit(self, limit: u32) -> (q: Self)
        ensures
            q == (OrderListQuery { limit: Some(limit), ..self }),
    {
        OrderListQuery { limit: Some(limit), ..self }
    }

    /// Cursor used for pagination.
    pub fn cursor(self, cursor: String) -> (q: Self)
        ensures
            q == (OrderListQuery { cursor: Some(cursor), ..self }),
    {
        OrderListQuery { cursor: Some(cursor), ..self }
    }

    /// Sort results by a field.
    pub fn sort_by(self, sort_by: OrderSortBy) -> (q: Self)
        ensures
            q == (OrderListQuery { sort_by: Some(sort_by), ..self }),
    {
        OrderListQuery { sort_by: Some(sort_by), ..self }
    }
}

/// Represents parameters that are optional for List Fills API request.
#[derive(Debug)]
pub struct OrderListFillsQuery {
    /// The ID(s) of order(s).
    pub order_ids: Option<Vec<String>>,
    /// The ID(s) of the trades of fills.
    pub trade_ids: Option<Vec<String>>,
    /// The ID(s) of the product(s) to filter fills by.
    pub product_ids: Option<Vec<String>>,
    /// Start date. Only fills with a trade time at or after this start date are returned.
    pub start_sequence_timestamp: Option<String>,
    /// End date. Only fills with a trade time before this start date are returned.
    pub end_sequence_timestamp: Option<String>,
    /// Maximum number of fills to return in response. Defaults to 100.
    pub limit: u32,
    /// Cursor used for pagination.
    pub cursor: Option<String>,
    /// Sort results by a field.
    pub sort_by: Option<OrderSortBy>,
}

impl Query for OrderListFillsQuery {
    open spec fn query_pairs(&self) -> Seq<QueryPair> {
        optional_repeated_pairs("order_ids"@, self.order_ids) + optional_repeated_pairs(
            "trade_ids"@,
            self.trade_ids,
        ) + optional_repeated_pairs("product_ids"@, self.product_ids) + optional_pairs(
            "start_sequence_timestamp"@,
            self.start_sequence_timestamp,
        ) + optional_pairs("end_sequence_timestamp"@, self.end_sequence_timestamp) + seq![
            ("limit"@, self.limit.query_text()),
        ] + optional_pairs("cursor"@, self.cursor) + optional_pairs("sort_by"@, self.sort_by)
    }

    /// The two timestamps are compared as texts, and `sort_by` is checked only when they are
    /// not both set.
    open spec fn query_failure(&self) -> Option<CbErrorView> {
        if self.limit == 0 {
            Some(CbErrorView::BadQuery("limit must be greater than 0"@))
        } else if self.start_sequence_timestamp is Some && self.end_sequence_timestamp is Some {
            if text_less(self.end_sequence_timestamp->0@, self.start_sequence_timestamp->0@) {
                Some(
                    CbErrorView::BadQuery(
                        "start_sequence_timestamp must be before end_sequence_timestamp"@,
                    ),
                )
            } else {
                None
            }
        } else {
            match self.sort_by {
                Some(sort_by) => if sort_by == OrderSortBy::Unknown {
                    Some(CbErrorView::BadQuery("sort_by must not be unknown"@))
                } else {
                    None
                },
                None => None,
            }
        }
    }

    fn check(&self) -> (r: CbResult<()>) {
        if self.limit == 0 {
            return Err(bad_query("limit must be greater than 0"));
        } else if let (Some(start), Some(end)) = (
            &self.start_sequence_timestamp,
            &self.end_sequence_timestamp,
        ) {
            if text_lt(end.as_str(), start.as_str()) {
                return Err(
                    bad_query("start_sequence_timestamp must be before end_sequence_timestamp"),
                );
            }
        } else if let Some(sort_by) = self.sort_by {
            if sort_by == OrderSortBy::Unknown {
                return Err(bad_query("sort_by must not be unknown"));
            }
        }
        Ok(())
    }

    fn to_query(&self) -> (s: String) {
        let b = QueryBuilder::new().push_optional_vec("order_ids", &self.order_ids).push_optional_vec(
            "trade_ids",
            &self.trade_ids,
        ).push_optional_vec("product_ids", &self.product_ids).push_optional(
            "start_sequence_timestamp",
            &self.start_sequence_timestamp,
        ).push_optional("end_sequence_timestamp", &self.end_sequence_timestamp).push(
            "limit",
            &self.limit,
        ).push_optional("cursor", &self.cursor).push_optional("sort_by", &self.sort_by);
        proof {
            assert(b@ =~= self.query_pairs());
        }
        b.build()
    }
}

impl OrderListFillsQuery {
    /// A query with the default limit of 100 and nothing else set.
    pub open spec fn default_spec() -> OrderListFillsQuery {
        OrderListFillsQuery {
            order_ids: None,
            trade_ids: None,
            product_ids: None,
            start_sequence_timestamp: None,
            end_sequence_timestamp: None,
            limit: 100,
            cursor: None,
            sort_by: None,
        }
    }

    /// Creates a new instance of a Query to list fills.
    pub fn new() -> (q: Self)
        ensures
            q == OrderListFillsQuery::default_spec(),
    {
        OrderListFillsQuery {
            order_ids: None,
            trade_ids: None,
            product_ids: None,
            start_sequence_timestamp: None,
            end_sequence_timestamp: None,
            limit: 100,
            cursor: None,
            sort_by: None,
        }
    }

    /// The ID(s) of order(s).
    pub fn order_ids(self, order_ids: &[String]) -> (q: Self)
        ensures
            q.order_ids is Some,
            q.order_ids->0@ == order_ids@,
            q == (OrderListFillsQuery { order_ids: q.order_ids, ..self }),
    {
        OrderListFillsQuery { order_ids: Some(copy_texts(order_ids)), ..self }
    }

    /// The ID(s) of the trades of fills.
    pub fn trade_ids(self, trade_ids: &[String]) -> (q: Self)
        ensures
            q.trade_ids is Some,
            q.trade_ids->0@ == trade_ids@,
            q == (OrderListFillsQuery { trade_ids: q.trade_ids, ..self }),
    {
        OrderListFillsQuery { trade_ids: Some(copy_texts(trade_ids)), ..self }
    }

    /// The ID(s) of the product(s) to filter.
    pub fn product_ids(self, product_ids: &[String]) -> (q: Self)
        ensures
            q.product_ids is Some,
            q.product_ids->0@ == product_ids@,
            q == (OrderListFillsQuery { product_ids: q.product_ids, ..self }),
    {
        OrderListFillsQuery { product_ids: Some(copy_texts(product_ids)), ..self }
    }

    /// Start date. Only fills with a trade time at or after this start date are returned.
    pub fn start_sequence_timestamp(self, start_sequence_timestamp: String) -> (q: Self)
        ensures
            q == (OrderListFillsQuery {
                start_sequence_timestamp: Some(start_sequence_timestamp),
                ..self
            }),
    {
        OrderListFillsQuery { start_sequence_timestamp: Some(start_sequence_timestamp), ..self }
    }

    /// End date. Only fills with a trade time before this start date are returned.
    pub fn end_sequence_timestamp(self, end_sequence_timestamp: String) -> (q: Self)
        ensures
            q == (OrderListFillsQuery {
                end_sequence_timestamp: Some(end_sequence_timestamp),
                ..self
            }),
    {
        OrderListFillsQuery { end_sequence_timestamp: Some(end_sequence_timestamp), ..self }
    }

    /// Maximum number of fills to return in response. Defaults to 100.
    pub fn limit(self, limit: u32) -> (q: Self)
        ensures
            q == (OrderListFillsQuery { limit, ..self }),
    {
        OrderListFillsQuery { limit, ..self }
    }

    /// Cursor used for pagination.
    pub fn cursor(self, cursor: String) -> (q: Self)
        ensures
            q == (OrderListFillsQuery { cursor: Some(cursor), ..self }),
    {
        OrderListFillsQuery { cursor: Some(cursor), ..self }
    }

    /// Sort results by a field.
    pub fn sort_by(self, sort_by: OrderSortBy) -> (q: Self)
        ensures
            q == (OrderListFillsQuery { sort_by: Some(sort_by), ..self }),
    {
        OrderListFillsQuery { sort_by: Some(sort_by), ..self }
    }
}

/// Parameters of the List Orders request in its earlier form, which takes the product type as
/// text and has no sort.
#[derive(Debug)]
pub struct ListOrdersQuery {
    /// ID(s) of order(s).
    pub order_ids: Option<Vec<String>>,
    /// Optional string of the product ID(s).
    pub product_ids: Option<Vec<String>>,
    /// Only orders matching this product type are returned.
    pub product_type: Option<String>,
    /// Note: Cannot pair OPEN orders with other order types.
    pub order_status: Option<Vec<OrderStatus>>,
    /// Only orders matching this time in force(s) are returned.
    pub time_in_forces: Option<Vec<TimeInForce>>,
    /// Type of orders to return.
    pub order_types: Option<Vec<OrderType>>,
    /// Only orders matching this side are returned.
    pub order_side: Option<OrderSide>,
    /// Start date to fetch orders from, inclusive.
    pub start_date: Option<String>,
    /// An optional end date for the query window, exclusive.
    pub end_date: Option<String>,
    /// Only returns the orders where the quote, base or underlying asset matches the filter(s).
    pub asset_filters: Option<Vec<String>>,
    /// A pagination limit with no default set.
    pub limit: Option<u32>,
    /// Cursor used for pagination.
    pub cursor: Option<String>,
}

impl ListOrdersQuery {
    /// The pairs written into the query string, in order.
    pub open spec fn query_pairs(&self) -> Seq<QueryPair> {
        optional_repeated_pairs("order_ids"@, self.order_ids) + optional_repeated_pairs(
            "product_ids"@,
            self.product_ids,
        ) + optional_pairs("product_type"@, self.product_type) + optional_repeated_pairs(
            "order_status"@,
            self.order_status,
        ) + optional_repeated_pairs("time_in_forces"@, self.time_in_forces)
            + optional_repeated_pairs("order_types"@, self.order_types) + optional_pairs(
            "order_side"@,
            self.order_side,
        ) + optional_pairs("start_date"@, self.start_date) + optional_pairs(
            "end_date"@,
            self.end_date,
        ) + optional_repeated_pairs("asset_filters"@, self.asset_filters) + optional_pairs(
            "limit"@,
            self.limit,
        ) + optional_pairs("cursor"@, self.cursor)
    }

    /// Converts the object into HTTP request parameters.
    pub fn to_query(&self) -> (s: String)
        ensures
            s@ == render_query(self.query_pairs()),
    {
        let b = QueryBuilder::new().push_optional_vec("order_ids", &self.order_ids).push_optional_vec(
            "product_ids",
            &self.product_ids,
        ).push_optional("product_type", &self.product_type).push_optional_vec(
            "order_status",
            &self.order_status,
        ).push_optional_vec("time_in_forces", &self.time_in_forces).push_optional_vec(
            "order_types",
            &self.order_types,
        ).push_optional("order_side", &self.order_side).push_optional(
            "start_date",
            &self.start_date,
        ).push_optional("end_date", &self.end_date).push_optional_vec(
            "asset_filters",
            &self.asset_filters,
        ).push_optional("limit", &self.limit).push_optional("cursor", &self.cursor);
        proof {
            assert(b@ =~= self.query_pairs());
        }
        b.build()
    }
}

/// Parameters of the List Fills request in its earlier form, for one order and one product.
#[derive(Debug)]
pub struct ListFillsQuery {
    /// ID of the order.
    pub order_id: Option<String>,
    /// The ID of the product this order was created for.
    pub product_id: Option<String>,
    /// Start date. Only fills with a trade time at or after this start date are returned.
    pub start_sequence_timestamp: Option<String>,
    /// End date. Only fills with a trade time before this start date are returned.
    pub end_sequence_timestamp: Option<String>,
    /// Maximum number of fills to return in response. Defaults to 100.
    pub limit: Option<u32>,
    /// Cursor used for pagination.
    pub cursor: Option<String>,
}

impl ListFillsQuery {
    /// The pairs written into the query string, in order.
    pub open spec fn query_pairs(&self) -> Seq<QueryPair> {
        optional_pairs("order_id"@, self.order_id) + optional_pairs("product_id"@, self.product_id)
            + optional_pairs("start_sequence_timestamp"@, self.start_sequence_timestamp)
            + optional_pairs("end_sequence_timestamp"@, self.end_sequence_timestamp)
            + optional_pairs("limit"@, self.limit) + optional_pairs("cursor"@, self.cursor)
    }

    /// Converts the object into HTTP request parameters.
    pub fn to_query(&self) -> (s: String)
        ensures
            s@ == render_query(self.query_pairs()),
    {
        let b = QueryBuilder::new().push_optional("order_id", &self.order_id).push_optional(
            "product_id",
            &self.product_id,
        ).push_optional("start_sequence_timestamp", &self.start_sequence_timestamp).push_optional(
            "end_sequence_timestamp",
            &self.end_sequence_timestamp,
        ).push_optional("limit", &self.limit).push_optional("cursor", &self.cursor);
        proof {
            assert(b@ =~= self.query_pairs());
        }
        b.build()
    }

    /// The parameters as they are displayed: the same text as the query.
    pub fn to_string(&self) -> (s: String)
        ensures
            s@ == render_query(self.query_pairs()),
    {
        self.to_query()
    }
}

/// Represents parameters that are needed to close positions.
#[derive(Debug)]
pub struct ClosePositionQuery {
    /// The unique ID provided for the order (used for identification purposes).
    pub client_order_id: Option<String>,
    /// The trading pair (e.g. 'BIT-28JUL23-CDE').
    pub product_id: Option<String>,
    /// The amount of contracts that should be closed.
    pub size: Option<u32>,
}

impl ClosePositionQuery {
    /// The pairs written into the query string, in order.
    pub open spec fn query_pairs(&self) -> Seq<QueryPair> {
        optional_pairs("client_order_id"@, self.client_order_id) + optional_pairs(
            "product_id"@,
            self.product_id,
        ) + optional_pairs("size"@, self.size)
    }

    /// Converts the object into HTTP request parameters.
    pub fn to_query(&self) -> (s: String)
        ensures
            s@ == render_query(self.query_pairs()),
    {
        let b = QueryBuilder::new().push_optional("client_order_id", &self.client_order_id).push_optional(
            "product_id",
            &self.product_id,
        ).push_optional("size", &self.size);
        proof {
            assert(b@ =~= self.query_pairs());
        }
        b.build()
    }
}

/// Every filter set on a List Orders query is sent: each value set is a pair of the query, one pair
/// per value, with the key of its field; no other pair is sent; and every pair is written into the
/// query string as `key=value`.
pub proof fn lemma_order_list_query_sends_filters(q: OrderListQuery)
    ensures
        forall|i: int|
            #![trigger q.order_ids->0@[i]]
            q.order_ids is Some && 0 <= i < q.order_ids->0@.len() ==> q.query_pairs().contains(
                ("order_ids"@, q.order_ids->0@[i]@),
            ),
        forall|i: int|
            #![trigger q.product_ids->0@[i]]
            q.product_ids is Some && 0 <= i < q.product_ids->0@.len() ==> q.query_pairs().contains(
                ("product_ids"@, q.product_ids->0@[i]@),
            ),
        q.product_type is Some ==> q.query_pairs().contains(
            ("product_type"@, q.product_type->0.query_text()),
        ),
        forall|i: int|
            #![trigger q.order_status->0@[i]]
            q.order_status is Some && 0 <= i < q.order_status->0@.len()
                ==> q.query_pairs().contains(
                ("order_status"@, q.order_status->0@[i].query_text()),
            ),
        forall|i: int|
            #![trigger q.time_in_forces->0@[i]]
            q.time_in_forces is Some && 0 <= i < q.time_in_forces->0@.len()
                ==> q.query_pairs().contains(
                ("time_in_forces"@, q.time_in_forces->0@[i].query_text()),
            ),
        forall|i: int|
            #![trigger q.order_types->0@[i]]
            q.order_types is Some && 0 <= i < q.order_types->0@.len() ==> q.query_pairs().contains(
                ("order_types"@, q.order_types->0@[i].query_text()),
            ),
        q.order_side is Some ==> q.query_pairs().contains(
            ("order_side"@, q.order_side->0.query_text()),
        ),
        q.start_date is Some ==> q.query_pairs().contains(("start_date"@, q.start_date->0@)),
        q.end_date is Some ==> q.query_pairs().contains(("end_date"@, q.end_date->0@)),
        forall|i: int|
            #![trigger q.asset_filters->0@[i]]
            q.asset_filters is Some && 0 <= i < q.asset_filters->0@.len()
                ==> q.query_pairs().contains(
                ("asset_filters"@, q.asset_filters->0@[i]@),
            ),
        q.limit is Some ==> q.query_pairs().contains(("limit"@, q.limit->0.query_text())),
        q.cursor is Some ==> q.query_pairs().contains(("cursor"@, q.cursor->0@)),
        q.sort_by is Some ==> q.query_pairs().contains(("sort_by"@, q.sort_by->0.query_text())),
        q.query_pairs().len() == count_values(q.order_ids) + count_values(q.product_ids)
            + count_set(q.product_type) + count_values(q.order_status)
            + count_values(q.time_in_forces) + count_values(q.order_types) + count_set(q.order_side)
            + count_set(q.start_date) + count_set(q.end_date) + count_values(q.asset_filters)
            + count_set(q.limit) + count_set(q.cursor) + count_set(q.sort_by),
        forall|i: int|
            0 <= i < q.query_pairs().len() ==> occurs_in(
                pair_text(#[trigger] q.query_pairs()[i]),
                render_query(q.query_pairs()),
            ),
{
    broadcast use group_query_pairs;

    assert forall|i: int|
        #![trigger q.order_ids->0@[i]]
        q.order_ids is Some && 0 <= i < q.order_ids->0@.len() implies q.query_pairs().contains(
            ("order_ids"@, q.order_ids->0@[i]@),
        ) by {
        lemma_repeated_pair("order_ids"@, q.order_ids, i);
    }
    assert forall|i: int|
        #![trigger q.product_ids->0@[i]]
        q.product_ids is Some && 0 <= i < q.product_ids->0@.len() implies q.query_pairs().contains(
            ("product_ids"@, q.product_ids->0@[i]@),
        ) by {
        lemma_repeated_pair("product_ids"@, q.product_ids, i);
    }
    if q.product_type is Some {
        lemma_optional_pair("product_type"@, q.product_type);
    }
    assert forall|i: int|
        #![trigger q.order_status->0@[i]]
        q.order_status is Some && 0 <= i < q.order_status->0@.len()
            implies q.query_pairs().contains(
            ("order_status"@, q.order_status->0@[i].query_text()),
        ) by {
        lemma_repeated_pair("order_status"@, q.order_status, i);
    }
    assert forall|i: int|
        #![trigger q.time_in_forces->0@[i]]
        q.time_in_forces is Some && 0 <= i < q.time_in_forces->0@.len()
            implies q.query_pairs().contains(
            ("time_in_forces"@, q.time_in_forces->0@[i].query_text()),
        ) by {
        lemma_repeated_pair("time_in_forces"@, q.time_in_forces, i);
    }
    assert forall|i: int|
        #![trigger q.order_types->0@[i]]
        q.order_types is Some && 0 <= i < q.order_types->0@.len() implies q.query_pairs().contains(
            ("order_types"@, q.order_types->0@[i].query_text()),
        ) by {
        lemma_repeated_pair("order_types"@, q.order_types, i);
    }
    if q.order_side is Some {
        lemma_optional_pair("order_side"@, q.order_side);
    }
    if q.start_date is Some {
        lemma_optional_pair("start_date"@, q.start_date);
    }
    if q.end_date is Some {
        lemma_optional_pair("end_date"@, q.end_date);
    }
    assert forall|i: int|
        #![trigger q.asset_filters->0@[i]]
        q.asset_filters is Some && 0 <= i < q.asset_filters->0@.len()
            implies q.query_pairs().contains(
            ("asset_filters"@, q.asset_filters->0@[i]@),
        ) by {
        lemma_repeated_pair("asset_filters"@, q.asset_filters, i);
    }
    if q.limit is Some {
        lemma_optional_pair("limit"@, q.limit);
    }
    if q.cursor is Some {
        lemma_optional_pair("cursor"@, q.cursor);
    }
    if q.sort_by is Some {
        lemma_optional_pair("sort_by"@, q.sort_by);
    }
    assert forall|i: int| 0 <= i < q.query_pairs().len() implies occurs_in(
        pair_text(#[trigger] q.query_pairs()[i]),
        render_query(q.query_pairs()),
    ) by {
        lemma_render_contains(q.query_pairs(), i);
    }
}

/// Every filter set on a List Fills query is sent, and its limit always: each value is a pair of
/// the query, one pair per value, with the key of its field; no other pair is sent; and every pair
/// is written into the query string as `key=value`.
pub proof fn lemma_order_list_fills_query_sends_filters(q: OrderListFillsQuery)
    ensures
        forall|i: int|
            #![trigger q.order_ids->0@[i]]
            q.order_ids is Some && 0 <= i < q.order_ids->0@.len() ==> q.query_pairs().contains(
                ("order_ids"@, q.order_ids->0@[i]@),
            ),
        forall|i: int|
            #![trigger q.trade_ids->0@[i]]
            q.trade_ids is Some && 0 <= i < q.trade_ids->0@.len() ==> q.query_pairs().contains(
                ("trade_ids"@, q.trade_ids->0@[i]@),
            ),
        forall|i: int|
            #![trigger q.product_ids->0@[i]]
            q.product_ids is Some && 0 <= i < q.product_ids->0@.len() ==> q.query_pairs().contains(
                ("product_ids"@, q.product_ids->0@[i]@),
            ),
        q.start_sequence_timestamp is Some ==> q.query_pairs().contains(
            ("start_sequence_timestamp"@, q.start_sequence_timestamp->0@),
        ),
        q.end_sequence_timestamp is Some ==> q.query_pairs().contains(
            ("end_sequence_timestamp"@, q.end_sequence_timestamp->0@),
        ),
        q.query_pairs().contains(("limit"@, q.limit.query_text())),
        q.cursor is Some ==> q.query_pairs().contains(("cursor"@, q.cursor->0@)),
        q.sort_by is Some ==> q.query_pairs().contains(("sort_by"@, q.sort_by->0.query_text())),
        q.query_pairs().len() == count_values(q.order_ids) + count_values(q.trade_ids)
            + count_values(q.product_ids) + count_set(q.start_sequence_timestamp)
            + count_set(q.end_sequence_timestamp) + 1 + count_set(q.cursor) + count_set(q.sort_by),
        forall|i: int|
            0 <= i < q.query_pairs().len() ==> occurs_in(
                pair_text(#[trigger] q.query_pairs()[i]),
                render_query(q.query_pairs()),
            ),
{
    broadcast use group_query_pairs;

    assert forall|i: int|
        #![trigger q.order_ids->0@[i]]
        q.order_ids is Some && 0 <= i < q.order_ids->0@.len() implies q.query_pairs().contains(
            ("order_ids"@, q.order_ids->0@[i]@),
        ) by {
        lemma_repeated_pair("order_ids"@, q.order_ids, i);
    }
    assert forall|i: int|
        #![trigger q.trade_ids->0@[i]]
        q.trade_ids is Some && 0 <= i < q.trade_ids->0@.len() implies q.query_pairs().contains(
            ("trade_ids"@, q.trade_ids->0@[i]@),
        ) by {
        lemma_repeated_pair("trade_ids"@, q.trade_ids, i);
    }
    assert forall|i: int|
        #![trigger q.product_ids->0@[i]]
        q.product_ids is Some && 0 <= i < q.product_ids->0@.len() implies q.query_pairs().contains(
            ("product_ids"@, q.product_ids->0@[i]@),
        ) by {
        lemma_repeated_pair("product_ids"@, q.product_ids, i);
    }
    if q.start_sequence_timestamp is Some {
        lemma_optional_pair("start_sequence_timestamp"@, q.start_sequence_timestamp);
    }
    if q.end_sequence_timestamp is Some {
        lemma_optional_pair("end_sequence_timestamp"@, q.end_sequence_timestamp);
    }
    assert(seq![("limit"@, q.limit.query_text())][0] == ("limit"@, q.limit.query_text()));
    if q.cursor is Some {
        lemma_optional_pair("cursor"@, q.cursor);
    }
    if q.sort_by is Some {
        lemma_optional_pair("sort_by"@, q.sort_by);
    }
    assert forall|i: int| 0 <= i < q.query_pairs().len() implies occurs_in(
        pair_text(#[trigger] q.query_pairs()[i]),
        render_query(q.query_pairs()),
    ) by {
        lemma_render_contains(q.query_pairs(), i);
    }
}

/// Every parameter set on a List Orders query is sent: each value set is a pair of the query, one
/// pair per value, with the key of its field; no other pair is sent; and every pair is written into
/// the query string as `key=value`.
pub proof fn lemma_list_orders_query_sends_filters(q: ListOrdersQuery)
    ensures
        forall|i: int|
            #![trigger q.order_ids->0@[i]]
            q.order_ids is Some && 0 <= i < q.order_ids->0@.len() ==> q.query_pairs().contains(
                ("order_ids"@, q.order_ids->0@[i].query_text()),
            ),
        forall|i: int|
            #![trigger q.product_ids->0@[i]]
            q.product_ids is Some && 0 <= i < q.product_ids->0@.len() ==> q.query_pairs().contains(
                ("product_ids"@, q.product_ids->0@[i].query_text()),
            ),
        q.product_type is Some ==> q.query_pairs().contains(
            ("product_type"@, q.product_type->0.query_text()),
        ),
        forall|i: int|
            #![trigger q.order_status->0@[i]]
            q.order_status is Some && 0 <= i < q.order_status->0@.len()
                ==> q.query_pairs().contains(
                ("order_status"@, q.order_status->0@[i].query_text()),
            ),
        forall|i: int|
            #![trigger q.time_in_forces->0@[i]]
            q.time_in_forces is Some && 0 <= i < q.time_in_forces->0@.len()
                ==> q.query_pairs().contains(
                ("time_in_forces"@, q.time_in_forces->0@[i].query_text()),
            ),
        forall|i: int|
            #![trigger q.order_types->0@[i]]
            q.order_types is Some && 0 <= i < q.order_types->0@.len() ==> q.query_pairs().contains(
                ("order_types"@, q.order_types->0@[i].query_text()),
            ),
        q.order_side is Some ==> q.query_pairs().contains(
            ("order_side"@, q.order_side->0.query_text()),
        ),
        q.start_date is Some ==> q.query_pairs().contains(
            ("start_date"@, q.start_date->0.query_text()),
        ),
        q.end_date is Some ==> q.query_pairs().contains(("end_date"@, q.end_date->0.query_text())),
        forall|i: int|
            #![trigger q.asset_filters->0@[i]]
            q.asset_filters is Some && 0 <= i < q.asset_filters->0@.len()
                ==> q.query_pairs().contains(
                ("asset_filters"@, q.asset_filters->0@[i].query_text()),
            ),
        q.limit is Some ==> q.query_pairs().contains(("limit"@, q.limit->0.query_text())),
        q.cursor is Some ==> q.query_pairs().contains(("cursor"@, q.cursor->0.query_text())),
        q.query_pairs().len() == count_values(q.order_ids) + count_values(q.product_ids)
            + count_set(q.product_type) + count_values(q.order_status)
            + count_values(q.time_in_forces) + count_values(q.order_types) + count_set(q.order_side)
            + count_set(q.start_date) + count_set(q.end_date) + count_values(q.asset_filters)
            + count_set(q.limit) + count_set(q.cursor),
        forall|i: int|
            0 <= i < q.query_pairs().len() ==> occurs_in(
                pair_text(#[trigger] q.query_pairs()[i]),
                render_query(q.query_pairs()),
            ),
{
    broadcast use group_query_pairs;

    assert forall|i: int|
        #![trigger q.order_ids->0@[i]]
        q.order_ids is Some && 0 <= i < q.order_ids->0@.len() implies q.query_pairs().contains(
            ("order_ids"@, q.order_ids->0@[i].query_text()),
        ) by {
        lemma_repeated_pair("order_ids"@, q.order_ids, i);
    }
    assert forall|i: int|
        #![trigger q.product_ids->0@[i]]
        q.product_ids is Some && 0 <= i < q.product_ids->0@.len() implies q.query_pairs().contains(
            ("product_ids"@, q.product_ids->0@[i].query_text()),
        ) by {
        lemma_repeated_pair("product_ids"@, q.product_ids, i);
    }
    if q.product_type is Some {
        lemma_optional_pair("product_type"@, q.product_type);
    }
    assert forall|i: int|
        #![trigger q.order_status->0@[i]]
        q.order_status is Some && 0 <= i < q.order_status->0@.len()
            implies q.query_pairs().contains(
            ("order_status"@, q.order_status->0@[i].query_text()),
        ) by {
        lemma_repeated_pair("order_status"@, q.order_status, i);
    }
    assert forall|i: int|
        #![trigger q.time_in_forces->0@[i]]
        q.time_in_forces is Some && 0 <= i < q.time_in_forces->0@.len()
            implies q.query_pairs().contains(
            ("time_in_forces"@, q.time_in_forces->0@[i].query_text()),
        ) by {
        lemma_repeated_pair("time_in_forces"@, q.time_in_forces, i);
    }
    assert forall|i: int|
        #![trigger q.order_types->0@[i]]
        q.order_types is Some && 0 <= i < q.order_types->0@.len() implies q.query_pairs().contains(
            ("order_types"@, q.order_types->0@[i].query_text()),
        ) by {
        lemma_repeated_pair("order_types"@, q.order_types, i);
    }
    if q.order_side is Some {
        lemma_optional_pair("order_side"@, q.order_side);
    }
    if q.start_date is Some {
        lemma_optional_pair("start_date"@, q.start_date);
    }
    if q.end_date is Some {
        lemma_optional_pair("end_date"@, q.end_date);
    }
    assert forall|i: int|
        #![trigger q.asset_filters->0@[i]]
        q.asset_filters is Some && 0 <= i < q.asset_filters->0@.len()
            implies q.query_pairs().contains(
            ("asset_filters"@, q.asset_filters->0@[i].query_text()),
        ) by {
        lemma_repeated_pair("asset_filters"@, q.asset_filters, i);
    }
    if q.limit is Some {
        lemma_optional_pair("limit"@, q.limit);
    }
    if q.cursor is Some {
        lemma_optional_pair("cursor"@, q.cursor);
    }
    assert forall|i: int| 0 <= i < q.query_pairs().len() implies occurs_in(
        pair_text(#[trigger] q.query_pairs()[i]),
        render_query(q.query_pairs()),
    ) by {
        lemma_render_contains(q.query_pairs(), i);
    }
}

/// Every parameter set on a List Fills query is sent: each value set is a pair of the query, one
/// pair per value, with the key of its field; no other pair is sent; and every pair is written into
/// the query string as `key=value`.
pub proof fn lemma_list_fills_query_sends_filters(q: ListFillsQuery)
    ensures
        q.order_id is Some ==> q.query_pairs().contains(("order_id"@, q.order_id->0.query_text())),
        q.product_id is Some ==> q.query_pairs().contains(
            ("product_id"@, q.product_id->0.query_text()),
        ),
        q.start_sequence_timestamp is Some ==> q.query_pairs().contains(
            ("start_sequence_timestamp"@, q.start_sequence_timestamp->0.query_text()),
        ),
        q.end_sequence_timestamp is Some ==> q.query_pairs().contains(
            ("end_sequence_timestamp"@, q.end_sequence_timestamp->0.query_text()),
        ),
        q.limit is Some ==> q.query_pairs().contains(("limit"@, q.limit->0.query_text())),
        q.cursor is Some ==> q.query_pairs().contains(("cursor"@, q.cursor->0.query_text())),
        q.query_pairs().len() == count_set(q.order_id) + count_set(q.product_id)
            + count_set(q.start_sequence_timestamp) + count_set(q.end_sequence_timestamp)
            + count_set(q.limit) + count_set(q.cursor),
        forall|i: int|
            0 <= i < q.query_pairs().len() ==> occurs_in(
                pair_text(#[trigger] q.query_pairs()[i]),
                render_query(q.query_pairs()),
            ),
{
    broadcast use group_query_pairs;

    if q.order_id is Some {
        lemma_optional_pair("order_id"@, q.order_id);
    }
    if q.product_id is Some {
        lemma_optional_pair("product_id"@, q.product_id);
    }
    if q.start_sequence_timestamp is Some {
        lemma_optional_pair("start_sequence_timestamp"@, q.start_sequence_timestamp);
    }
    if q.end_sequence_timestamp is Some {
        lemma_optional_pair("end_sequence_timestamp"@, q.end_sequence_timestamp);
    }
    if q.limit is Some {
        lemma_optional_pair("limit"@, q.limit);
    }
    if q.cursor is Some {
        lemma_optional_pair("cursor"@, q.cursor);
    }
    assert forall|i: int| 0 <= i < q.query_pairs().len() implies occurs_in(
        pair_text(#[trigger] q.query_pairs()[i]),
        render_query(q.query_pairs()),
    ) by {
        lemma_render_contains(q.query_pairs(), i);
    }
}

/// Every parameter set on a close position query is sent: each value set is a pair of the query,
/// one pair per value, with the key of its field; no other pair is sent; and every pair is written
/// into the query string as `key=value`.
pub proof fn lemma_close_position_query_sends_filters(q: ClosePositionQuery)
    ensures
        q.client_order_id is Some ==> q.query_pairs().contains(
            ("client_order_id"@, q.client_order_id->0.query_text()),
        ),
        q.product_id is Some ==> q.query_pairs().contains(
            ("product_id"@, q.product_id->0.query_text()),
        ),
        q.size is Some ==> q.query_pairs().contains(("size"@, q.size->0.query_text())),
        q.query_pairs().len() == count_set(q.client_order_id) + count_set(q.product_id)
            + count_set(q.size),
        forall|i: int|
            0 <= i < q.query_pairs().len() ==> occurs_in(
                pair_text(#[trigger] q.query_pairs()[i]),
                render_query(q.query_pairs()),
            ),
{
    broadcast use group_query_pairs;

    if q.client_order_id is Some {
        lemma_optional_pair("client_order_id"@, q.client_order_id);
    }
    if q.product_id is Some {
        lemma_optional_pair("product_id"@, q.product_id);
    }
    if q.size is Some {
        lemma_optional_pair("size"@, q.size);
    }
    assert forall|i: int| 0 <= i < q.query_pairs().len() implies occurs_in(
        pair_text(#[trigger] q.query_pairs()[i]),
        render_query(q.query_pairs()),
    ) by {
        lemma_render_contains(q.query_pairs(), i);
    }
}

/// A List Orders query is refused only for an unknown product type, a zero limit, an end
/// date before the start date or an unknown sort order; one with none of these passes, and an
/// unknown product type is always refused.
pub proof fn lemma_order_list_query_accepted(q: OrderListQuery)
    ensures
        q.query_failure() is Some ==> (q.product_type == Some(ProductType::Unknown) || q.limit
            == Some(0u32) || (q.start_date is Some && q.end_date is Some && text_less(
            q.end_date->0@,
            q.start_date->0@,
        )) || q.sort_by == Some(OrderSortBy::Unknown)),
        !(q.product_type == Some(ProductType::Unknown) || q.limit == Some(0u32)
            || (q.start_date is Some && q.end_date is Some && text_less(
            q.end_date->0@,
            q.start_date->0@,
        )) || q.sort_by == Some(OrderSortBy::Unknown)) ==> q.query_failure() is None,
        q.product_type == Some(ProductType::Unknown) ==> q.query_failure() is Some,
{
}

/// A List Fills query is refused only for a zero limit, an end timestamp before the start one
/// or an unknown sort order; one with none of these passes, and a zero limit is always refused.
pub proof fn lemma_order_list_fills_query_accepted(q: OrderListFillsQuery)
    ensures
        q.query_failure() is Some ==> (q.limit == 0 || (q.start_sequence_timestamp is Some
            && q.end_sequence_timestamp is Some && text_less(
            q.end_sequence_timestamp->0@,
            q.start_sequence_timestamp->0@,
        )) || q.sort_by == Some(OrderSortBy::Unknown)),
        !(q.limit == 0 || (q.start_sequence_timestamp is Some && q.end_sequence_timestamp is Some
            && text_less(q.end_sequence_timestamp->0@, q.start_sequence_timestamp->0@))
            || q.sort_by == Some(OrderSortBy::Unknown)) ==> q.query_failure() is None,
        q.limit == 0 ==> q.query_failure() is Some,
{
}

} // verus!
