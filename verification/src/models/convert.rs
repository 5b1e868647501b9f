//! # Coinbase Advanced Convert API
//!
//! Conversions between two currencies: the records that describe a trade and the parameters
//! that ask for one.

use vstd::prelude::*;

use crate::errors::{bad_query, bad_request, CbErrorView, CbResult};
use crate::traits::{Query, Request};
use crate::utils::{
    lemma_render_contains, occurs_in, pair_text, render_query, QueryBuilder, QueryPair,
};

verus! {

/// Possible values for the trade status.
#[derive(Debug, Clone, Copy, PartialEq, Eq, Structural)]
pub enum TradeStatus {
    /// Unspecified trade status.
    Unspecified,
    /// Trade has been created.
    Created,
    /// Trade has started.
    Started,
    /// Trade has been completed.
    Completed,
    /// Trade has been canceled.
    Canceled,
}

/// A link shown with a disclosure or a warning.
#[derive(Debug, Clone)]
pub struct Link {
    pub text: String,
    pub url: String,
}

/// A disclosure attached to a fee.
#[derive(Debug, Clone)]
pub struct Disclosure {
    pub title: String,
    pub description: String,
    pub link: Link,
}

/// The owner of a ledger account.
#[derive(Debug, Clone)]
pub struct Owner {
    pub id: String,
    pub uuid: String,
    pub user_uuid: String,
    pub kind: String,
}

/// A ledger account taking part in a trade.
#[derive(Debug, Clone)]
pub struct LedgerAccount {
    pub account_id: String,
    pub currency: String,
    pub owner: Owner,
}

/// The source or the target of a trade.
#[derive(Debug, Clone)]
pub struct AccountDetail {
    pub kind: String,
    pub network: String,
    pub ledger_account: LedgerAccount,
}

/// The context of a warning shown to the user.
#[derive(Debug, Clone)]
pub struct WarningContext {
    pub details: Vec<String>,
    pub title: String,
    pub link_text: String,
}

/// A warning shown to the user about a trade.
#[derive(Debug, Clone)]
pub struct UserWarning {
    pub id: String,
    pub link: Link,
    pub context: WarningContext,
    pub code: String,
    pub message: String,
}

/// The reason a trade was cancelled.
#[derive(Debug, Clone)]
pub struct CancellationReason {
    pub message: String,
    pub code: String,
    pub error_code: String,
    pub error_cta: String,
}

/// Trade incentive to waive trade fees.
#[derive(Debug, Clone)]
pub struct TradeIncentiveMetadata {
    /// The user incentive id.
    pub user_incentive_id: Option<String>,
    /// A promo code for waiving fees.
    pub code_val: Option<String>,
}

/// Represents parameters to obtain a currency conversion.
///
/// # Required Parameters
///
/// * `from_account` - The currency of the account to convert from, e.g. USD
/// * `to_account` - The currency of the account to convert to, e.g. USDC
#[derive(Debug)]
pub struct ConvertQuery {
    /// Originating account.
    pub from_account: String,
    /// Sending account.
    pub to_account: String,
}

impl Request for ConvertQuery {
    open spec fn request_failure(&self) -> Option<CbErrorView> {
        if self.from_account@.len() == 0 {
            Some(CbErrorView::BadRequest("from_account is required"@))
        } else if self.to_account@.len() == 0 {
            Some(CbErrorView::BadRequest("to_account is required"@))
        } else {
            None
        }
    }

    fn check(&self) -> (r: CbResult<()>) {
        if self.from_account.as_str().is_empty() {
            return Err(bad_request("from_account is required"));
        } else if self.to_account.as_str().is_empty() {
            return Err(bad_request("to_account is required"));
        }
        Ok(())
    }
}

impl Query for ConvertQuery {
    open spec fn query_pairs(&self) -> Seq<QueryPair> {
        seq![("from_account"@, self.from_account@), ("to_account"@, self.to_account@)]
    }

    open spec fn query_failure(&self) -> Option<CbErrorView> {
        if self.from_account@.len() == 0 {
            Some(CbErrorView::BadQuery("from_account is required"@))
        } else if self.to_account@.len() == 0 {
            Some(CbErrorView::BadQuery("to_account is required"@))
        } else {
            None
        }
    }

    fn check(&self) -> (r: CbResult<()>) {
        if self.from_account.as_str().is_empty() {
            return Err(bad_query("from_account is required"));
        } else if self.to_account.as_str().is_empty() {
            return Err(bad_query("to_account is required"));
        }
        Ok(())
    }

    fn to_query(&self) -> (s: String) {
        let b = QueryBuilder::new().push("from_account", &self.from_account).push(
            "to_account",
            &self.to_account,
        );
        proof {
            assert(b@ =~= self.query_pairs());
        }
        b.build()
    }
}

impl ConvertQuery {
    /// Creates a new instance of the `ConvertQuery` for the two accounts' currencies.
    pub fn new(from_account: &str, to_account: &str) -> (q: Self)
        ensures
            q.from_account@ == from_account@,
            q.to_account@ == to_account@,
    {
        ConvertQuery {
            from_account: String::from_str(from_account),
            to_account: String::from_str(to_account),
        }
    }

    /// Sets the originating account. Note: This is a required field.
    pub fn from_account(self, from_account: &str) -> (q: Self)
        ensures
            q.from_account@ == from_account@,
            q.to_account == self.to_account,
    {
        ConvertQuery { from_account: String::from_str(from_account), ..self }
    }

    /// Sets the sending account. Note: This is a required field.
    pub fn to_account(self, to_account: &str) -> (q: Self)
        ensures
            q.to_account@ == to_account@,
            q.from_account == self.from_account,
    {
        ConvertQuery { to_account: String::from_str(to_account), ..self }
    }
}

/// A convert query sends exactly two pairs: first `from_account` with the account converted from,
/// then `to_account` with the account converted to; each is written into the query string as
/// `key=value`.
pub proof fn lemma_convert_query_sends_accounts(q: ConvertQuery)
    ensures
        q.query_pairs().len() == 2,
        q.query_pairs()[0] == ("from_account"@, q.from_account@),
        q.query_pairs()[1] == ("to_account"@, q.to_account@),
        forall|i: int|
            0 <= i < q.query_pairs().len() ==> occurs_in(
                pair_text(#[trigger] q.query_pairs()[i]),
                render_query(q.query_pairs()),
            ),
{
    assert forall|i: int| 0 <= i < q.query_pairs().len() implies occurs_in(
        pair_text(#[trigger] q.query_pairs()[i]),
        render_query(q.query_pairs()),
    ) by {
        lemma_render_contains(q.query_pairs(), i);
    }
}

/// A convert query is accepted exactly when both accounts are given.
pub proof fn lemma_convert_query_accepted(q: ConvertQuery)
    ensures
        q.query_failure() is None <==> (q.from_account@.len() > 0 && q.to_account@.len() > 0),
{
}

} // verus!
