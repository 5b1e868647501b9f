//! # Requests to the REST API
//!
//! The address that a request goes to and what an answer's status makes of it.

use vstd::prelude::*;

use crate::errors::{CbError, CbErrorView, CbResult};
use crate::text::{decimal, u64_text};

verus! {

/// The address of a request: `https://`, the root of the API, the resource and the query text,
/// which is empty when the request has no parameters.
pub open spec fn request_url_text(root_uri: Seq<char>, resource: Seq<char>, query: Seq<char>) -> Seq<
    char,
> {
    "https://"@ + root_uri + resource + query
}

/// The address of a request to a resource of the API with the given query text.
pub fn request_url(root_uri: &str, resource: &str, query: &str) -> (url: String)
    ensures
        url@ == request_url_text(root_uri@, resource@, query@),
{
    let mut url = String::from_str("https://");
    url.append(root_uri);
    url.append(resource);
    if !query.is_empty() {
        url.append(query);
    } else {
        proof {
            assert(query@ =~= Seq::<char>::empty());
        }
    }
    proof {
        assert(url@ =~= request_url_text(root_uri@, resource@, query@));
    }
    url
}

/// The message of an answer whose status is not OK: the status code, then the text of the
/// answer, or a note that it could not be read.
pub open spec fn status_failure_text(status: u16, body: Option<Seq<char>>) -> Seq<char> {
    "Status Code: "@ + decimal(status as nat) + ", "@ + match body {
        Some(text) => text,
        None => "could not parse error message"@,
    }
}

/// What an answer's status makes of a request: success for `200 OK`, otherwise an error that
/// gives the status code and the text of the answer (`None` when it could not be read).
pub fn status_outcome(status: u16, body: Option<&str>) -> (r: CbResult<()>)
    ensures
        status == 200 ==> r is Ok,
        status != 200 ==> (r matches Err(e) && e@ == CbErrorView::BadStatus(
            status_failure_text(status, match body {
                Some(t) => Some(t@),
                None => None,
            }),
        )),
{
    if status == 200 {
        return Ok(());
    }
    let mut m = String::from_str("Status Code: ");
    let code = u64_text(status as u64);
    m.append(code.as_str());
    m.append(", ");
    match body {
        Some(text) => m.append(text),
        None => m.append("could not parse error message"),
    }
    Err(CbError::BadStatus(m))
}

} // verus!
