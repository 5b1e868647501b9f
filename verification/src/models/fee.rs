//! # Coinbase Advanced Fee API
//!
//! The parameters of the Transaction Summary endpoint.

use vstd::prelude::*;

use crate::errors::{bad_query, CbErrorView, CbResult};
use crate::traits::Query;
use crate::utils::{
    count_set, group_query_pairs, lemma_optional_pair, lemma_render_contains, occurs_in,
    optional_pairs, pair_text, render_query, QueryBuilder, QueryPair, QueryValue,
};

use super::product::ProductType;

verus! {

/// Represents parameters that are optional for transaction summary API request.
#[derive(Debug)]
pub struct FeeTransactionSummaryQuery {
    /// Type of products to return. Valid options: SPOT or FUTURE
    pub product_type: Option<ProductType>,
}

impl Query for FeeTransactionSummaryQuery {
    open spec fn query_pairs(&self) -> Seq<QueryPair> {
        optional_pairs("product_type"@, self.product_type)
    }

    open spec fn query_failure(&self) -> Option<CbErrorView> {
        if self.product_type == Some(ProductType::Unknown) {
            Some(CbErrorView::BadQuery("product_type cannot be unknown"@))
        } else {
            None
        }
    }

    fn check(&self) -> (r: CbResult<()>) {
        if let Some(product_type) = self.product_type {
            if product_type == ProductType::Unknown {
                return Err(bad_query("product_type cannot be unknown"));
            }
        }
        Ok(())
    }

    fn to_query(&self) -> (s: String) {
        QueryBuilder::new().push_optional("product_type", &self.product_type).build()
    }
}

impl FeeTransactionSummaryQuery {
    /// Creates a new instance of the query, for every product type.
    pub fn new() -> (q: Self)
        ensures
            q.product_type is None,
    {
        FeeTransactionSummaryQuery { product_type: None }
    }

    /// Sets the product type for the query.
    pub fn product_type(self, product_type: ProductType) -> (q: Self)
        ensures
            q.product_type == Some(product_type),
    {
        FeeTransactionSummaryQuery { product_type: Some(product_type) }
    }
}

/// Every parameter set on a fee summary query is sent: each value set is a pair of the query, one
/// pair per value, with the key of its field; no other pair is sent; and every pair is written into
/// the query string as `key=value`.
pub proof fn lemma_fee_summary_query_sends_filters(q: FeeTransactionSummaryQuery)
    ensures
        q.product_type is Some ==> q.query_pairs().contains(
            ("product_type"@, q.product_type->0.query_text()),
        ),
        q.query_pairs().len() == count_set(q.product_type),
        forall|i: int|
            0 <= i < q.query_pairs().len() ==> occurs_in(
                pair_text(#[trigger] q.query_pairs()[i]),
                render_query(q.query_pairs()),
            ),
{
    broadcast use group_query_pairs;

    if q.product_type is Some {
        lemma_optional_pair("product_type"@, q.product_type);
    }
    assert forall|i: int| 0 <= i < q.query_pairs().len() implies occurs_in(
        pair_text(#[trigger] q.query_pairs()[i]),
        render_query(q.query_pairs()),
    ) by {
        lemma_render_contains(q.query_pairs(), i);
    }
}

} // verus!
