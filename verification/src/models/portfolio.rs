//! # Coinbase Advanced Portfolio API
//!
//! Portfolios: their kinds, the requests that create or rename one and the parameters of the
//! endpoints that list them or break one down.

use vstd::prelude::*;

use crate::errors::{bad_query, bad_request, CbErrorView, CbResult};
use crate::traits::{Query, Request};
use crate::utils::{
    count_set, group_query_pairs, lemma_optional_pair, lemma_render_contains, occurs_in,
    optional_pairs, pair_text, render_query, QueryBuilder, QueryPair, QueryValue,
};

verus! {

/// Portfolio type for a user's portfolio.
#[derive(Debug, Clone, Copy, PartialEq, Eq, Structural)]
pub enum PortfolioType {
    /// Portfolio type for a user's default portfolio.
    Default,
    /// Portfolios created by the user.
    Consumer,
    /// International Exchange portfolios.
    Intx,
    /// Fallback for undefined or unrecognized values.
    Undefined,
}

impl PortfolioType {
    /// The name by which the API knows the value.
    pub open spec fn api_name(self) -> Seq<char> {
        match self {
            PortfolioType::Default => "DEFAULT"@,
            PortfolioType::Consumer => "CONSUMER"@,
            PortfolioType::Intx => "INTX"@,
            PortfolioType::Undefined => "UNDEFINED"@,
        }
    }

    /// The name by which the API knows the value.
    pub fn as_ref(&self) -> (s: &'static str)
        ensures
            s@ == self.api_name(),
    {
        match self {
            PortfolioType::Default => "DEFAULT",
            PortfolioType::Consumer => "CONSUMER",
            PortfolioType::Intx => "INTX",
            PortfolioType::Undefined => "UNDEFINED",
        }
    }

    /// The text that the value is displayed as: its API name.
    pub fn to_string(&self) -> (s: String)
        ensures
            s@ == self.api_name(),
    {
        String::from_str(self.as_ref())
    }
}

impl QueryValue for PortfolioType {
    open spec fn query_text(&self) -> Seq<char> {
        self.api_name()
    }

    fn to_query_text(&self) -> (s: String) {
        self.to_string()
    }
}

/// The side of a futures position.
#[derive(Debug, Clone, Copy, PartialEq, Eq, Structural)]
pub enum PositionSide {
    Unspecified,
    Long,
    Short,
}

/// The margin type of a position.
#[derive(Debug, Clone, Copy, PartialEq, Eq, Structural)]
pub enum MarginType {
    Unspecified,
    Cross,
    Isolated,
}

/// Portfolio information.
#[derive(Debug, Clone)]
pub struct Portfolio {
    /// Name of the portfolio.
    pub name: String,
    /// UUID of the portfolio.
    pub uuid: String,
    /// Type of the portfolio.
    pub portfolio_type: PortfolioType,
    /// Indicates if the portfolio is deleted.
    pub deleted: bool,
}

/// Create or Edit an existing portfolio.
#[derive(Debug)]
pub struct PortfolioModifyRequest {
    /// New name of the portfolio.
    pub name: String,
}

impl Request for PortfolioModifyRequest {
    open spec fn request_failure(&self) -> Option<CbErrorView> {
        if self.name@.len() == 0 {
            Some(CbErrorView::BadRequest("portfolio name cannot be empty"@))
        } else {
            None
        }
    }

    fn check(&self) -> (r: CbResult<()>) {
        if self.name.as_str().is_empty() {
            return Err(bad_request("portfolio name cannot be empty"));
        }
        Ok(())
    }
}

impl PortfolioModifyRequest {
    /// Creates a request that gives a portfolio this name.
    pub fn new(name: &str) -> (r: Self)
        ensures
            r.name@ == name@,
    {
        PortfolioModifyRequest { name: String::from_str(name) }
    }
}

/// Query parameters for listing portfolios.
#[derive(Debug)]
pub struct PortfolioListQuery {
    /// Type of portfolios to list.
    pub portfolio_type: Option<PortfolioType>,
}

impl Query for PortfolioListQuery {
    open spec fn query_pairs(&self) -> Seq<QueryPair> {
        optional_pairs("portfolio_type"@, self.portfolio_type)
    }

    open spec fn query_failure(&self) -> Option<CbErrorView> {
        if self.portfolio_type == Some(PortfolioType::Undefined) {
            Some(CbErrorView::BadQuery("portfolio type cannot be undefined"@))
        } else {
            None
        }
    }

    fn check(&self) -> (r: CbResult<()>) {
        if let Some(portfolio_type) = self.portfolio_type {
            if portfolio_type == PortfolioType::Undefined {
                return Err(bad_query("portfolio type cannot be undefined"));
            }
        }
        Ok(())
    }

    fn to_query(&self) -> (s: String) {
        QueryBuilder::new().push_optional("portfolio_type", &self.portfolio_type).build()
    }
}

impl PortfolioListQuery {
    /// Creates a query for portfolios of every type.
    pub fn new() -> (q: Self)
        ensures
            q.portfolio_type is None,
    {
        PortfolioListQuery { portfolio_type: None }
    }

    /// Sets the type of portfolios to list.
    pub fn portfolio_type(self, portfolio_type: PortfolioType) -> (q: Self)
        ensures
            q.portfolio_type == Some(portfolio_type),
    {
        PortfolioListQuery { portfolio_type: Some(portfolio_type) }
    }
}

/// Query parameters for a portfolio breakdown.
#[derive(Debug)]
pub struct PortfolioBreakdownQuery {
    /// Currency to use for the breakdown.
    pub currency: Option<String>,
}

impl Query for PortfolioBreakdownQuery {
    open spec fn query_pairs(&self) -> Seq<QueryPair> {
        optional_pairs("currency"@, self.currency)
    }

    open spec fn query_failure(&self) -> Option<CbErrorView> {
        None
    }

    fn check(&self) -> (r: CbResult<()>) {
        Ok(())
    }

    fn to_query(&self) -> (s: String) {
        QueryBuilder::new().push_optional("currency", &self.currency).build()
    }
}

impl PortfolioBreakdownQuery {
    /// Creates a query with no currency.
    pub fn new() -> (q: Self)
        ensures
            q.currency is None,
    {
        PortfolioBreakdownQuery { currency: None }
    }

    /// Sets the currency to use for the breakdown.
    pub fn currency(self, currency: &str) -> (q: Self)
        ensures
            q.currency is Some,
            q.currency->0@ == currency@,
    {
        PortfolioBreakdownQuery { currency: Some(String::from_str(currency)) }
    }
}

/// Every parameter set on a portfolio list query is sent: each value set is a pair of the query,
/// one pair per value, with the key of its field; no other pair is sent; and every pair is written
/// into the query string as `key=value`.
pub proof fn lemma_portfolio_list_query_sends_filters(q: PortfolioListQuery)
    ensures
        q.portfolio_type is Some ==> q.query_pairs().contains(
            ("portfolio_type"@, q.portfolio_type->0.query_text()),
        ),
        q.query_pairs().len() == count_set(q.portfolio_type),
        forall|i: int|
            0 <= i < q.query_pairs().len() ==> occurs_in(
                pair_text(#[trigger] q.query_pairs()[i]),
                render_query(q.query_pairs()),
            ),
{
    broadcast use group_query_pairs;

    if q.portfolio_type is Some {
        lemma_optional_pair("portfolio_type"@, q.portfolio_type);
    }
    assert forall|i: int| 0 <= i < q.query_pairs().len() implies occurs_in(
        pair_text(#[trigger] q.query_pairs()[i]),
        render_query(q.query_pairs()),
    ) by {
        lemma_render_contains(q.query_pairs(), i);
    }
}

/// Every parameter set on a portfolio breakdown query is sent: each value set is a pair of the
/// query, one pair per value, with the key of its field; no other pair is sent; and every pair is
/// written into the query string as `key=value`.
pub proof fn lemma_portfolio_breakdown_query_sends_filters(q: PortfolioBreakdownQuery)
    ensures
        q.currency is Some ==> q.query_pairs().contains(("currency"@, q.currency->0.query_text())),
        q.query_pairs().len() == count_set(q.currency),
        forall|i: int|
            0 <= i < q.query_pairs().len() ==> occurs_in(
                pair_text(#[trigger] q.query_pairs()[i]),
                render_query(q.query_pairs()),
            ),
{
    broadcast use group_query_pairs;

    if q.currency is Some {
        lemma_optional_pair("currency"@, q.currency);
    }
    assert forall|i: int| 0 <= i < q.query_pairs().len() implies occurs_in(
        pair_text(#[trigger] q.query_pairs()[i]),
        render_query(q.query_pairs()),
    ) by {
        lemma_render_contains(q.query_pairs(), i);
    }
}

/// Distinct portfolio types have distinct API names, so the text sent names exactly one of them.
pub proof fn lemma_portfolio_type_api_names_distinct(a: PortfolioType, b: PortfolioType)
    ensures
        a.api_name() == b.api_name() ==> a == b,
{
    reveal_strlit("DEFAULT");
    reveal_strlit("CONSUMER");
    reveal_strlit("INTX");
    reveal_strlit("UNDEFINED");
    assert("DEFAULT"@.len() == 7);
    assert("CONSUMER"@.len() == 8);
    assert("INTX"@.len() == 4);
    assert("UNDEFINED"@.len() == 9);
}

} // verus!
