//! The two kinds of parameters sent to the API: URL queries and request bodies.

use vstd::prelude::*;

use crate::errors::{failure, CbErrorView, CbResult};
use crate::utils::{render_query, QueryPair};

verus! {

/// Parameters passed in the query part of a URL.
pub trait Query {
    /// The pairs written into the query string, in order.
    spec fn query_pairs(&self) -> Seq<QueryPair>;

    /// The error that the parameters are refused with, or `None` when they are acceptable.
    spec fn query_failure(&self) -> Option<CbErrorView>;

    /// Checks that the parameters are acceptable to the API.
    fn check(&self) -> (r: CbResult<()>)
        ensures
            failure(&r) == self.query_failure(),
    ;

    /// Converts the parameters into the query part of a URL.
    fn to_query(&self) -> (s: String)
        ensures
            s@ == render_query(self.query_pairs()),
    ;
}

/// A body sent to the API.
pub trait Request {
    /// The error that the body is refused with, or `None` when it is acceptable.
    spec fn request_failure(&self) -> Option<CbErrorView>;

    /// Checks that the body is acceptable to the API.
    fn check(&self) -> (r: CbResult<()>)
        ensures
            failure(&r) == self.request_failure(),
    ;
}

/// Represents an empty query.
pub struct NoQuery;

impl Query for NoQuery {
    open spec fn query_pairs(&self) -> Seq<QueryPair> {
        seq![]
    }

    open spec fn query_failure(&self) -> Option<CbErrorView> {
        None
    }

    fn check(&self) -> (r: CbResult<()>) {
        Ok(())
    }

    fn to_query(&self) -> (s: String) {
        String::new()
    }
}

} // verus!
