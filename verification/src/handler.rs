//! The request handler's decisions: which URL strings are accepted,
//! how a fetch outcome becomes the served result, and which status and
//! body answer each result. The surrounding I/O layer only parses the
//! query, performs the one GET, and sends what these functions decide.

use vstd::prelude::*;

use crate::html_query::view_opt;
use crate::json::json_of;
use crate::website_fetcher::{extract_spec, extract_website_data, WebsiteData};

verus! {

/// What the I/O layer reports for one attempted fetch: the body text it
/// read, or the step that failed.
pub enum FetchOutcome {
    Body(String),
    SendFailed,
    ReadFailed,
}

/// Why a request was refused.
#[derive(Debug, Clone, Copy, PartialEq, Eq, Structural)]
pub enum ServiceError {
    InvalidUrl,
    FetchFailed,
    ReadFailed,
}

/// The HTTP status answering an error: 400 for a refused URL, 500 for a
/// failed fetch or an unreadable body.
pub open spec fn status_of(e: ServiceError) -> u16 {
    match e {
        ServiceError::InvalidUrl => 400,
        ServiceError::FetchFailed => 500,
        ServiceError::ReadFailed => 500,
    }
}

impl ServiceError {
    /// The HTTP status answering this error.
    pub fn status_code(&self) -> (r: u16)
        ensures
            r == status_of(*self),
    {
        match self {
            ServiceError::InvalidUrl => 400,
            ServiceError::FetchFailed => 500,
            ServiceError::ReadFailed => 500,
        }
    }
}

/// The serialization of the URL that `s` parses as; `None` exactly when
/// `s` is not a well-formed absolute URL.
pub uninterp spec fn parsed_url(s: Seq<char>) -> Option<Seq<char>>;

/// Relies on url's `Url::parse`, which returns `Ok` exactly on
/// well-formed absolute URLs — the parser demands a scheme, so a parsed
/// URL always has a non-empty one — and on `Url::as_str`, the parsed
/// URL's serialization.
#[verifier::external_body]
fn parse_absolute_url(s: &str) -> (r: Option<String>)
    ensures
        view_opt(r) == parsed_url(s@),
{
    match url::Url::parse(s) {
        Ok(u) => Some(u.as_str().to_owned()),
        Err(_) => None,
    }
}

/// Accepts `s` exactly when it parses as an absolute URL, returning the
/// parsed URL's serialization; every other string is refused as
/// `InvalidUrl`, which is answered with status 400.
pub fn validate_url(s: &str) -> (r: Result<String, ServiceError>)
    ensures
        r matches Ok(u) ==> parsed_url(s@) == Some(u@),
        r is Err ==> parsed_url(s@) is None,
        r matches Err(e) ==> e == ServiceError::InvalidUrl && status_of(e) == 400,
{
    match parse_absolute_url(s) {
        Option::Some(u) => Ok(u),
        Option::None => Err(ServiceError::InvalidUrl),
    }
}

/// Turns the fetch outcome into the served result: a fetched body is
/// parsed and its four fields extracted; a failed send or an unreadable
/// body is reported as the matching error, answered with status 500.
pub fn process_response(outcome: FetchOutcome) -> (r: Result<WebsiteData, ServiceError>)
    ensures
        outcome matches FetchOutcome::Body(b) ==> r matches Ok(d) && d@ == extract_spec(b@),
        outcome is SendFailed ==> (r matches Err(e) && e == ServiceError::FetchFailed
            && status_of(e) == 500),
        outcome is ReadFailed ==> (r matches Err(e) && e == ServiceError::ReadFailed
            && status_of(e) == 500),
{
    match outcome {
        FetchOutcome::Body(b) => Ok(extract_website_data(b.as_str())),
        FetchOutcome::SendFailed => Err(ServiceError::FetchFailed),
        FetchOutcome::ReadFailed => Err(ServiceError::ReadFailed),
    }
}

/// Maps the served result to the HTTP answer: 200 with the JSON body on
/// success, the error's status and no body otherwise.
pub fn response_parts(r: &Result<WebsiteData, ServiceError>) -> (parts: (u16, Option<String>))
    ensures
        (*r) matches Ok(d) ==> parts.0 == 200 && (parts.1 matches Some(body) && body@ == json_of(
            d@,
        )),
        (*r) matches Err(e) ==> parts.0 == status_of(e) && parts.1 is None,
{
    match r {
        Ok(d) => (200, Some(d.to_json())),
        Err(e) => (e.status_code(), None),
    }
}

} // verus!
