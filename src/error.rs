use vstd::prelude::*;

verus! {

#[verifier::external_type_specification]
#[verifier::external_body]
pub struct ExJsonError(serde_json::Error);

#[verifier::external_type_specification]
#[verifier::external_body]
pub struct ExRequestError(reqwest::Error);

/// Why a report could not be produced.
#[derive(Debug)]
pub enum TrendsError {
    /// A body did not decode into the expected shape.
    JsonError(serde_json::Error),
    /// The HTTP transport failed.
    RequestError(reqwest::Error),
    /// The service answered with a status that no policy recovers from;
    /// carries the body text.
    UnexpectedResponse(String),
    /// The explore call succeeded but offered no widget of the requested kind.
    WidgetUnavailable,
    /// A body was shorter than the guard prefix that precedes its JSON.
    TruncatedBody,
    /// A time-series entry's time was not a whole number of seconds; carries
    /// the text.
    BadTimestamp(String),
}

impl From<serde_json::Error> for TrendsError {
    fn from(err: serde_json::Error) -> (r: TrendsError)
        ensures
            r == TrendsError::JsonError(err),
    {
        TrendsError::JsonError(err)
    }
}

impl vstd::std_specs::convert::FromSpecImpl<serde_json::Error> for TrendsError {
    open spec fn obeys_from_spec() -> bool {
        true
    }

    open spec fn from_spec(err: serde_json::Error) -> TrendsError {
        TrendsError::JsonError(err)
    }
}

impl From<reqwest::Error> for TrendsError {
    fn from(err: reqwest::Error) -> (r: TrendsError)
        ensures
            r == TrendsError::RequestError(err),
    {
        TrendsError::RequestError(err)
    }
}

impl vstd::std_specs::convert::FromSpecImpl<reqwest::Error> for TrendsError {
    open spec fn obeys_from_spec() -> bool {
        true
    }

    open spec fn from_spec(err: reqwest::Error) -> TrendsError {
        TrendsError::RequestError(err)
    }
}

} // verus!
