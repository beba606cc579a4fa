//! The error body of the REST schema.

use vstd::prelude::*;
use vstd::string::StringExecFns;
use crate::governance::native::TransportError;

verus! {

/// The HTTP status of every failure that this crate reports.
pub const INTERNAL_SERVER_ERROR: u16 = 500;

/// One entry of an error's details.
#[derive(Debug)]
pub struct ErrDetails {
    pub type_url: String,
    pub value: String,
}

/// What an [`ErrDetails`] holds, as mathematical values.
pub struct ErrDetailsView {
    pub type_url: Seq<char>,
    pub value: Seq<char>,
}

impl DeepView for ErrDetails {
    type V = ErrDetailsView;

    open spec fn deep_view(&self) -> ErrDetailsView {
        ErrDetailsView { type_url: self.type_url@, value: self.value@ }
    }
}

/// The answer to a request that failed. `code` is the HTTP status.
#[derive(Debug)]
pub struct ApiError {
    pub error: String,
    pub code: u16,
    pub message: Option<String>,
    pub details: Vec<ErrDetails>,
}

/// What an [`ApiError`] holds, as mathematical values.
pub struct ApiErrorView {
    pub error: Seq<char>,
    pub code: u16,
    pub message: Option<Seq<char>>,
    pub details: Seq<ErrDetailsView>,
}

impl DeepView for ApiError {
    type V = ApiErrorView;

    open spec fn deep_view(&self) -> ApiErrorView {
        ApiErrorView {
            error: self.error@,
            code: self.code,
            message: self.message.deep_view(),
            details: self.details.deep_view(),
        }
    }
}

/// The single blank entry that a failed query carries as its details.
pub open spec fn blank_details() -> Seq<ErrDetailsView> {
    seq![ErrDetailsView { type_url: Seq::empty(), value: Seq::empty() }]
}

/// The error that answers a query which the chain or the transport refused
/// with the words `cause`.
pub open spec fn query_failure(cause: Seq<char>) -> ApiErrorView {
    ApiErrorView {
        error: cause,
        code: INTERNAL_SERVER_ERROR,
        message: Some("An error occurred"@),
        details: blank_details(),
    }
}

/// The error that answers a failure of unknown cause.
pub open spec fn unknown_failure() -> ApiErrorView {
    ApiErrorView {
        error: "api error"@,
        code: INTERNAL_SERVER_ERROR,
        message: Some("An unknown error occurred"@),
        details: blank_details(),
    }
}

/// The error that answers a tally query for a proposal without a tally.
pub open spec fn result_not_found() -> ApiErrorView {
    ApiErrorView {
        error: "proposal result not found"@,
        code: INTERNAL_SERVER_ERROR,
        message: None,
        details: Seq::empty(),
    }
}

/// A details list of one blank entry.
fn blank_details_vec() -> (details: Vec<ErrDetails>)
    ensures
        details.deep_view() == blank_details(),
{
    let mut details: Vec<ErrDetails> = Vec::new();
    details.push(ErrDetails { type_url: String::new(), value: String::new() });
    assert(details.deep_view() =~= blank_details());
    details
}

impl ApiError {
    /// The error for a query that failed with the words `cause`.
    pub fn from_cause(cause: String) -> (e: ApiError)
        ensures
            e.deep_view() == query_failure(cause@),
    {
        ApiError {
            error: cause,
            code: INTERNAL_SERVER_ERROR,
            message: Some(String::from_str("An error occurred")),
            details: blank_details_vec(),
        }
    }

    /// The error for a request that failed because a query to the chain did.
    pub fn from_transport(failure: TransportError) -> (e: ApiError)
        ensures
            e.deep_view() == query_failure(failure.message@),
    {
        ApiError::from_cause(failure.message)
    }

    /// The error for a tally query that found no tally.
    pub fn proposal_result_not_found() -> (e: ApiError)
        ensures
            e.deep_view() == result_not_found(),
    {
        let e = ApiError {
            error: String::from_str("proposal result not found"),
            code: INTERNAL_SERVER_ERROR,
            message: None,
            details: Vec::new(),
        };
        assert(e.details.deep_view() =~= Seq::empty());
        e
    }
}

impl Default for ApiError {
    /// The error for a failure of unknown cause.
    fn default() -> (e: ApiError)
        ensures
            e.deep_view() == unknown_failure(),
    {
        ApiError {
            error: String::from_str("api error"),
            code: INTERNAL_SERVER_ERROR,
            message: Some(String::from_str("An unknown error occurred")),
            details: blank_details_vec(),
        }
    }
}

} // verus!
