//! Nutrition API types.
use vstd::prelude::*;
use crate::client::{describe_error, error_text, FromMessage};

verus! {

/// Errors of the nutrition API.
#[derive(Debug)]
pub enum NutritionError {
    /// The request could not be sent.
    RequestFailed(String),
    /// The API answered with an error, or with a response that could not be used.
    ApiError(String),
}

impl NutritionError {
    /// The error as a sentence.
    pub fn describe(&self) -> (r: String)
        ensures
            r@ == error_text(self is RequestFailed, self.message()),
    {
        match self {
            NutritionError::RequestFailed(m) => describe_error(true, m.as_str()),
            NutritionError::ApiError(m) => describe_error(false, m.as_str()),
        }
    }
}

impl FromMessage for NutritionError {
    open spec fn message(&self) -> Seq<char> {
        match self {
            NutritionError::RequestFailed(m) => m@,
            NutritionError::ApiError(m) => m@,
        }
    }

    open spec fn reports(&self, message: Seq<char>) -> bool {
        self matches NutritionError::ApiError(m) && m@ == message
    }

    fn from_message(message: String) -> (e: Self) {
        NutritionError::ApiError(message)
    }
}

impl From<String> for NutritionError {
    fn from(error: String) -> (e: Self) {
        NutritionError::ApiError(error)
    }
}

impl vstd::std_specs::convert::FromSpecImpl<String> for NutritionError {
    open spec fn obeys_from_spec() -> bool {
        true
    }

    open spec fn from_spec(v: String) -> Self {
        NutritionError::ApiError(v)
    }
}

} // verus!
