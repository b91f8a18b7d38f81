//! Request intake: the submitted form field, its validation, and the
//! decision between rejecting the input and starting a fetch.

use vstd::prelude::*;
use crate::errors::{InvalidReason, PipelineError};
use crate::text::{trim_spec, trimmed};

verus! {

/// The one inbound form: the URL the client wants fetched and archived.
pub struct FormData {
    pub url: String,
}

/// What parsing a string as an absolute URL yields: `None` when it is not a
/// well-formed absolute URL, otherwise `Some` of the URL's path component.
/// Parsing is a pure function of the text, so the result depends on the
/// string alone.
pub uninterp spec fn url_path_of(s: Seq<char>) -> Option<Seq<char>>;

/// Relies on `url::Url::parse` to decide whether the text is a well-formed
/// absolute URL, and on `url::Url::path` to extract the path component of a
/// parsed URL. An empty string has no scheme, so its source rejects it
/// (`RelativeUrlWithoutBase`).
#[verifier::external_body]
fn parse_url_path(s: &str) -> (r: Option<String>)
    ensures
        r is Some <==> url_path_of(s@) is Some,
        r matches Some(p) ==> url_path_of(s@) matches Some(q) && p@ == q,
        s@.len() == 0 ==> r is None,
{
    match url::Url::parse(s) {
        Ok(u) => Some(u.path().to_string()),
        Err(_) => None,
    }
}

/// What the pipeline decides to do with one submitted URL field.
pub enum RequestPlan {
    /// The input was rejected; nothing was or will be written, and the
    /// error is rendered back to the client.
    Reject(PipelineError),
    /// The input is a well-formed absolute URL: fetch it. The payload is
    /// the trimmed URL text to request.
    Fetch(String),
}

/// Decides what to do with the submitted URL field: reject an empty or
/// malformed input — performing no filesystem or network work — or hand
/// back the trimmed URL to fetch.
pub fn plan_request(raw_url: &str) -> (r: RequestPlan)
    ensures
        trim_spec(raw_url@).len() == 0 ==> (r matches RequestPlan::Reject(e) && e
            == PipelineError::InvalidInput(InvalidReason::EmptyUrl)),
        trim_spec(raw_url@).len() != 0 && url_path_of(trim_spec(raw_url@)) is None ==> (r matches
            RequestPlan::Reject(e) && e == PipelineError::InvalidInput(InvalidReason::MalformedUrl)),
        trim_spec(raw_url@).len() != 0 && url_path_of(trim_spec(raw_url@)) is Some ==> (r matches
            RequestPlan::Fetch(u) && u@ == trim_spec(raw_url@)),
        r matches RequestPlan::Reject(e) ==> e.is_invalid_input(),
    {
    let url = trimmed(raw_url);
    if url.as_str().is_empty() {
        RequestPlan::Reject(PipelineError::InvalidInput(InvalidReason::EmptyUrl))
    } else {
        match parse_url_path(url.as_str()) {
            Option::Some(_) => RequestPlan::Fetch(url),
            Option::None => RequestPlan::Reject(
                PipelineError::InvalidInput(InvalidReason::MalformedUrl),
            ),
        }
    }
}

} // verus!
