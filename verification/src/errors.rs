//! Errors returned by the library.

use vstd::prelude::*;

verus! {

/// Errors that the library reports to its users.
#[derive(Debug)]
pub enum CbError {
    /// A query holds a parameter that the API refuses.
    BadQuery(String),
    /// A request body holds a field that the API refuses.
    BadRequest(String),
    /// A value could not be parsed or assembled.
    BadParse(String),
    /// A connection could not be made or was lost.
    BadConnection(String),
    /// The credentials are missing or unusable.
    BadPrivateKey(String),
    /// A value could not be serialized.
    BadSerialization(String),
    /// The API answered with an unexpected status.
    BadStatus(String),
    /// There was nothing to do for the request.
    NothingToDo(String),
    /// Any other failure.
    Unknown(String),
}

/// The mathematical value of an error: its kind and the text of its message.
pub enum CbErrorView {
    BadQuery(Seq<char>),
    BadRequest(Seq<char>),
    BadParse(Seq<char>),
    BadConnection(Seq<char>),
    BadPrivateKey(Seq<char>),
    BadSerialization(Seq<char>),
    BadStatus(Seq<char>),
    NothingToDo(Seq<char>),
    Unknown(Seq<char>),
}

impl View for CbError {
    type V = CbErrorView;

    open spec fn view(&self) -> CbErrorView {
        match self {
            CbError::BadQuery(m) => CbErrorView::BadQuery(m@),
            CbError::BadRequest(m) => CbErrorView::BadRequest(m@),
            CbError::BadParse(m) => CbErrorView::BadParse(m@),
            CbError::BadConnection(m) => CbErrorView::BadConnection(m@),
            CbError::BadPrivateKey(m) => CbErrorView::BadPrivateKey(m@),
            CbError::BadSerialization(m) => CbErrorView::BadSerialization(m@),
            CbError::BadStatus(m) => CbErrorView::BadStatus(m@),
            CbError::NothingToDo(m) => CbErrorView::NothingToDo(m@),
            CbError::Unknown(m) => CbErrorView::Unknown(m@),
        }
    }
}

/// Used to return objects from the API to the end-user.
pub type CbResult<T> = Result<T, CbError>;

/// The error of a result, if any, by its value.
pub open spec fn failure<T>(r: &CbResult<T>) -> Option<CbErrorView> {
    match r {
        Ok(_) => None,
        Err(e) => Some(e@),
    }
}

/// A query error with the given message.
pub fn bad_query(message: &str) -> (e: CbError)
    ensures
        e@ == CbErrorView::BadQuery(message@),
{
    CbError::BadQuery(String::from_str(message))
}

/// A request error with the given message.
pub fn bad_request(message: &str) -> (e: CbError)
    ensures
        e@ == CbErrorView::BadRequest(message@),
{
    CbError::BadRequest(String::from_str(message))
}

/// A parse error with the given message.
pub fn bad_parse(message: &str) -> (e: CbError)
    ensures
        e@ == CbErrorView::BadParse(message@),
{
    CbError::BadParse(String::from_str(message))
}

/// A connection error with the given message.
pub fn bad_connection(message: &str) -> (e: CbError)
    ensures
        e@ == CbErrorView::BadConnection(message@),
{
    CbError::BadConnection(String::from_str(message))
}

/// A credentials error with the given message.
pub fn bad_private_key(message: &str) -> (e: CbError)
    ensures
        e@ == CbErrorView::BadPrivateKey(message@),
{
    CbError::BadPrivateKey(String::from_str(message))
}

} // verus!
