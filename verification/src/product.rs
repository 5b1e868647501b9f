//! # Coinbase Advanced Product API, first version
//!
//! The list parameters of the first version of the Product API.

use vstd::prelude::*;

use crate::utils::{
    count_set, count_values, group_query_pairs, lemma_optional_pair, lemma_render_contains,
    lemma_repeated_pair, occurs_in, optional_pairs, optional_repeated_pairs, pair_text,
    render_query, QueryBuilder, QueryPair, QueryValue,
};

verus! {

/// Largest number of candles that one request of the first version of the Product API asks
/// for; longer spans are fetched in windows of this many intervals.
pub const CANDLE_MAXIMUM: u32 = 300;

/// Represents parameters that are optional for the List Products API request.
#[derive(Debug, Clone)]
pub struct ListProductsQuery {
    /// A limit describing how many products to return.
    pub limit: Option<u32>,
    /// Number of products to offset before returning.
    pub offset: Option<u32>,
    /// Type of products to return. Valid options: SPOT or FUTURE
    pub product_type: Option<String>,
    /// List of product IDs to return.
    pub product_ids: Option<Vec<String>>,
}

impl ListProductsQuery {
    /// The parameters that the query sends, in order.
    pub open spec fn query_pairs(&self) -> Seq<QueryPair> {
        optional_pairs("limit"@, self.limit) + optional_pairs("offset"@, self.offset)
            + optional_pairs("product_type"@, self.product_type) + optional_repeated_pairs(
            "product_ids"@,
            self.product_ids,
        )
    }

    /// Converts the object into HTTP request parameters: each parameter that is set, in order,
    /// joined by `&`.
    pub fn to_string(&self) -> (s: String)
        ensures
            s@ == render_query(self.query_pairs()),
    {
        let b = QueryBuilder::new().push_optional("limit", &self.limit).push_optional(
            "offset",
            &self.offset,
        ).push_optional("product_type", &self.product_type).push_optional_vec(
            "product_ids",
            &self.product_ids,
        );
        proof {
            assert(b@ =~= self.query_pairs());
        }
        b.build()
    }
}

/// Represents parameters for the Ticker Product API request.
#[derive(Debug, Clone, Copy)]
pub struct TickerQuery {
    /// Number of trades to return.
    pub limit: u32,
}

impl TickerQuery {
    /// The parameters that the query sends: the limit.
    pub open spec fn query_pairs(&self) -> Seq<QueryPair> {
        seq![("limit"@, self.limit.query_text())]
    }

    /// Converts the object into HTTP request parameters: `limit=` and the limit.
    pub fn to_string(&self) -> (s: String)
        ensures
            s@ == render_query(self.query_pairs()),
    {
        let b = QueryBuilder::new().push("limit", &self.limit);
        proof {
            assert(b@ =~= self.query_pairs());
        }
        b.build()
    }
}

/// Every parameter set on a product list query is sent: each value set is a pair of the query, one
/// pair per value, with the key of its field; no other pair is sent; and every pair is written into
/// the query string as `key=value`.
pub proof fn lemma_list_products_query_sends_filters(q: ListProductsQuery)
    ensures
        q.limit is Some ==> q.query_pairs().contains(("limit"@, q.limit->0.query_text())),
        q.offset is Some ==> q.query_pairs().contains(("offset"@, q.offset->0.query_text())),
        q.product_type is Some ==> q.query_pairs().contains(
            ("product_type"@, q.product_type->0.query_text()),
        ),
        forall|i: int|
            #![trigger q.product_ids->0@[i]]
            q.product_ids is Some && 0 <= i < q.product_ids->0@.len() ==> q.query_pairs().contains(
                ("product_ids"@, q.product_ids->0@[i].query_text()),
            ),
        q.query_pairs().len() == count_set(q.limit) + count_set(q.offset)
            + count_set(q.product_type) + count_values(q.product_ids),
        forall|i: int|
            0 <= i < q.query_pairs().len() ==> occurs_in(
                pair_text(#[trigger] q.query_pairs()[i]),
                render_query(q.query_pairs()),
            ),
{
    broadcast use group_query_pairs;

    if q.limit is Some {
        lemma_optional_pair("limit"@, q.limit);
    }
    if q.offset is Some {
        lemma_optional_pair("offset"@, q.offset);
    }
    if q.product_type is Some {
        lemma_optional_pair("product_type"@, q.product_type);
    }
    assert forall|i: int|
        #![trigger q.product_ids->0@[i]]
        q.product_ids is Some && 0 <= i < q.product_ids->0@.len() implies q.query_pairs().contains(
            ("product_ids"@, q.product_ids->0@[i].query_text()),
        ) by {
        lemma_repeated_pair("product_ids"@, q.product_ids, i);
    }
    assert forall|i: int| 0 <= i < q.query_pairs().len() implies occurs_in(
        pair_text(#[trigger] q.query_pairs()[i]),
        render_query(q.query_pairs()),
    ) by {
        lemma_render_contains(q.query_pairs(), i);
    }
}

/// Every parameter set on a ticker query is sent: each value set is a pair of the query, one pair
/// per value, with the key of its field; no other pair is sent; and every pair is written into the
/// query string as `key=value`.
pub proof fn lemma_ticker_query_sends_limit(q: TickerQuery)
    ensures
        q.query_pairs().contains(("limit"@, q.limit.query_text())),
        q.query_pairs().len() == 1,
        forall|i: int|
            0 <= i < q.query_pairs().len() ==> occurs_in(
                pair_text(#[trigger] q.query_pairs()[i]),
                render_query(q.query_pairs()),
            ),
{
    broadcast use group_query_pairs;

    assert(seq![("limit"@, q.limit.query_text())][0] == ("limit"@, q.limit.query_text()));
    assert forall|i: int| 0 <= i < q.query_pairs().len() implies occurs_in(
        pair_text(#[trigger] q.query_pairs()[i]),
        render_query(q.query_pairs()),
    ) by {
        lemma_render_contains(q.query_pairs(), i);
    }
}

} // verus!
