//! # Coinbase Advanced Account API
//!
//! The kinds of accounts and the parameters of the endpoint that lists them.

use vstd::prelude::*;

use crate::constants::LIST_ACCOUNT_MAXIMUM;
use crate::errors::{bad_query, CbErrorView, CbResult};
use crate::traits::Query;
use crate::utils::{
    count_set, group_query_pairs, lemma_optional_pair, lemma_render_contains, occurs_in,
    optional_pairs, pair_text, render_query, QueryBuilder, QueryPair, QueryValue,
};

verus! {

/// Platform that the account is associated with.
#[derive(Debug, Clone, Copy, PartialEq, Eq, Structural)]
pub enum Platform {
    /// Spot account.
    Consumer,
    /// US Derivatives account.
    CfmConsumer,
    /// International Exchange account.
    Intx,
}

/// Possible values for the account type.
#[derive(Debug, Clone, Copy, PartialEq, Eq, Structural)]
pub enum AccountType {
    Unspecified,
    Crypto,
    Fiat,
    Vault,
    PerpFutures,
}

/// Represents parameters that are optional for List Account API request.
#[derive(Debug, Clone)]
pub struct AccountListQuery {
    /// Amount to obtain, default 49 maximum is 250.
    pub limit: u32,
    /// Returns accounts after the cursor provided.
    pub cursor: Option<String>,
}

impl Query for AccountListQuery {
    open spec fn query_pairs(&self) -> Seq<QueryPair> {
        seq![("limit"@, self.limit.query_text())] + optional_pairs("cursor"@, self.cursor)
    }

    open spec fn query_failure(&self) -> Option<CbErrorView> {
        if self.limit == 0 || self.limit > LIST_ACCOUNT_MAXIMUM {
            Some(CbErrorView::BadQuery("Limit must be greater than 0 with a maximum of 250"@))
        } else {
            None
        }
    }

    fn check(&self) -> (r: CbResult<()>) {
        if self.limit == 0 || self.limit > LIST_ACCOUNT_MAXIMUM {
            return Err(bad_query("Limit must be greater than 0 with a maximum of 250"));
        }
        Ok(())
    }

    fn to_query(&self) -> (s: String) {
        let b = QueryBuilder::new().push("limit", &self.limit).push_optional("cursor", &self.cursor);
        proof {
            assert(b@ =~= self.query_pairs());
        }
        b.build()
    }
}

impl Default for AccountListQuery {
    fn default() -> (q: Self)
        ensures
            q == (AccountListQuery { limit: 49, cursor: None }),
    {
        AccountListQuery { limit: 49, cursor: None }
    }
}

impl AccountListQuery {
    /// Creates a new `AccountListQuery` with default values: 49 accounts, no cursor.
    pub fn new() -> (q: Self)
        ensures
            q == (AccountListQuery { limit: 49, cursor: None }),
    {
        AccountListQuery { limit: 49, cursor: None }
    }

    /// Sets the limit for the query. Default is 49 and maximum is 250.
    pub fn limit(self, limit: u32) -> (q: Self)
        ensures
            q == (AccountListQuery { limit, ..self }),
    {
        AccountListQuery { limit, ..self }
    }

    /// Sets the cursor for the query.
    pub fn cursor(self, cursor: String) -> (q: Self)
        ensures
            q == (AccountListQuery { cursor: Some(cursor), ..self }),
    {
        AccountListQuery { cursor: Some(cursor), ..self }
    }
}

/// Every parameter set on an account list query is sent: each value set is a pair of the query, one
/// pair per value, with the key of its field; no other pair is sent; and every pair is written into
/// the query string as `key=value`.
pub proof fn lemma_account_list_query_sends_filters(q: AccountListQuery)
    ensures
        q.query_pairs().contains(("limit"@, q.limit.query_text())),
        q.cursor is Some ==> q.query_pairs().contains(("cursor"@, q.cursor->0.query_text())),
        q.query_pairs().len() == 1 + count_set(q.cursor),
        forall|i: int|
            0 <= i < q.query_pairs().len() ==> occurs_in(
                pair_text(#[trigger] q.query_pairs()[i]),
                render_query(q.query_pairs()),
            ),
{
    broadcast use group_query_pairs;

    assert(seq![("limit"@, q.limit.query_text())][0] == ("limit"@, q.limit.query_text()));
    if q.cursor is Some {
        lemma_optional_pair("cursor"@, q.cursor);
    }
    assert forall|i: int| 0 <= i < q.query_pairs().len() implies occurs_in(
        pair_text(#[trigger] q.query_pairs()[i]),
        render_query(q.query_pairs()),
    ) by {
        lemma_render_contains(q.query_pairs(), i);
    }
}

/// An account list query is accepted exactly when its limit is between 1 and 250.
pub proof fn lemma_account_list_query_accepted(q: AccountListQuery)
    ensures
        q.query_failure() is None <==> (1 <= q.limit <= 250),
{
}

} // verus!
