//! Body API types.
use vstd::prelude::*;
use crate::client::{describe_error, error_text, FromMessage};

verus! {

/// Errors of the body API.
#[derive(Debug)]
pub enum BodyError {
    /// The request could not be sent.
    RequestFailed(String),
    /// The API answered with an error, or with a response that could not be used.
    ApiError(String),
}

impl BodyError {
    /// The error as a sentence.
    pub fn describe(&self) -> (r: String)
        ensures
            r@ == error_text(self is RequestFailed, self.message()),
    {
        match self {
            BodyError::RequestFailed(m) => describe_error(true, m.as_str()),
            BodyError::ApiError(m) => describe_error(false, m.as_str()),
        }
    }
}

impl FromMessage for BodyError {
    open spec fn message(&self) -> Seq<char> {
        match self {
            BodyError::RequestFailed(m) => m@,
            BodyError::ApiError(m) => m@,
        }
    }

    open spec fn reports(&self, message: Seq<char>) -> bool {
        self matches BodyError::ApiError(m) && m@ == message
    }

    fn from_message(message: String) -> (e: Self) {
        BodyError::ApiError(message)
    }
}

impl From<String> for BodyError {
    fn from(error: String) -> (e: Self) {
        BodyError::ApiError(error)
    }
}

impl vstd::std_specs::convert::FromSpecImpl<String> for BodyError {
    open spec fn obeys_from_spec() -> bool {
        true
    }

    open spec fn from_spec(v: String) -> Self {
        BodyError::ApiError(v)
    }
}

} // verus!
