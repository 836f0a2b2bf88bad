//! The OAuth2 error response that the authorization server hands back.

use vstd::prelude::*;

verus! {

/// The `error` code of an OAuth2 error response.
#[derive(Clone, Copy, Debug, PartialEq, Eq, Structural)]
pub enum ErrorCode {
    InvalidRequest,
    InvalidClient,
    InvalidGrant,
    UnauthorizedClient,
    UnsupportedGrantType,
    UnsupportedResponseType,
    InvalidResponseType,
    InvalidScope,
    AccessDenied,
    ServerError,
    TemporarilyUnavailable,
}

/// An OAuth2 error response: a code and an optional human-readable description.
#[derive(Clone, Debug)]
pub struct ErrorResponse {
    pub error: ErrorCode,
    pub error_description: Option<String>,
}

/// What an error response says: its code and the text of its description.
pub struct ErrorResponseView {
    pub error: ErrorCode,
    pub description: Option<Seq<char>>,
}

impl View for ErrorResponse {
    type V = ErrorResponseView;

    open spec fn view(&self) -> ErrorResponseView {
        ErrorResponseView {
            error: self.error,
            description: match self.error_description {
                Some(d) => Some(d@),
                None => None,
            },
        }
    }
}

/// The result type of every OAuth2 check.
pub type ErrorResponseResult<T> = Result<T, ErrorResponse>;

/// An error response with the given code and the given description.
pub open spec fn error_with(code: ErrorCode, description: Seq<char>) -> ErrorResponseView {
    ErrorResponseView { error: code, description: Some(description) }
}

/// An error response with the given code and no description.
pub open spec fn error_bare(code: ErrorCode) -> ErrorResponseView {
    ErrorResponseView { error: code, description: None }
}

/// The view of a unit result of an OAuth2 check: `None` on success, the error otherwise.
pub open spec fn unit_result_view(r: ErrorResponseResult<()>) -> Option<ErrorResponseView> {
    match r {
        Ok(()) => None,
        Err(e) => Some(e@),
    }
}

impl ErrorResponse {
    pub fn new(error: ErrorCode) -> (r: Self)
        ensures
            r@ == error_bare(error),
    {
        ErrorResponse { error, error_description: None }
    }

    pub fn with_description(self, description: String) -> (r: Self)
        ensures
            r@ == error_with(self.error, description@),
    {
        ErrorResponse { error: self.error, error_description: Some(description) }
    }
}

} // verus!
