//! Decisions of the replace-asset operation: which URL is fetched, and which
//! responses may overwrite the destination file. The transfer itself and the
//! write are done by the caller; the destination is written only after the
//! whole body was received, so a failed fetch leaves it untouched.
use vstd::prelude::*;

use crate::assets::opt_view;
use crate::error::LibraryError;

verus! {

/// A validated request: the destination file and the URL in the parser's
/// normalised form.
pub struct FetchRequest {
    pub path: String,
    pub url: String,
}

/// The serialisation of the URL that `url::Url::parse` makes of `s`, or
/// `None` where it rejects `s`.
pub uninterp spec fn parsed_url_of(s: Seq<char>) -> Option<Seq<char>>;

/// Relies on url::Url::parse (the URL type the request is made with) and
/// Url::as_str: whether the text is an absolute URL, and its normalised
/// serialisation; the outcome depends on the text alone.
#[verifier::external_body]
fn parse_url(s: &str) -> (r: Option<String>)
    ensures
        opt_view(r) == parsed_url_of(s@),
{
    match url::Url::parse(s) {
        Ok(u) => Some(u.as_str().to_owned()),
        Err(_) => None,
    }
}

/// Builds the request from the parser's outcome: a rejected URL fails.
pub fn fetch_request_from(path: String, parsed: Option<String>) -> (r: Result<FetchRequest, LibraryError>)
    ensures
        parsed is None <==> r is Err,
        r matches Err(e) ==> e is FetchFailed,
        parsed matches Some(u) ==> r matches Ok(req) && req.path@ == path@ && req.url@ == u@,
{
    match parsed {
        Some(u) => Ok(FetchRequest { path, url: u }),
        None => Err(LibraryError::FetchFailed("invalid URL".to_owned())),
    }
}

/// Validates the source URL of a replace-asset request.
pub fn prepare_fetch(path: String, url: &String) -> (r: Result<FetchRequest, LibraryError>)
    ensures
        parsed_url_of(url@) is None <==> r is Err,
        r matches Err(e) ==> e is FetchFailed,
        parsed_url_of(url@) matches Some(u) ==> r matches Ok(req) && req.path@ == path@ && req.url@ == u,
{
    let parsed = parse_url(url.as_str());
    fetch_request_from(path, parsed)
}

/// A success status (2xx).
pub open spec fn is_success(status: u16) -> bool {
    200 <= status <= 299
}

/// Whether a response with this HTTP status may be written to the
/// destination; any other status fails the operation.
pub fn accept_status(status: u16) -> (r: Result<(), LibraryError>)
    ensures
        r is Ok <==> is_success(status),
        r matches Err(e) ==> e is FetchFailed,
{
    if 200 <= status && status <= 299 {
        Ok(())
    } else {
        Err(LibraryError::FetchFailed("the server did not answer with success".to_owned()))
    }
}

} // verus!
