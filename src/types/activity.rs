//! Activity API types.
use vstd::prelude::*;
use crate::client::{describe_error, error_text, FromMessage};

verus! {

/// Errors of the activity API.
#[derive(Debug)]
pub enum ActivityError {
    /// The request could not be sent.
    RequestFailed(String),
    /// The API answered with an error, or with a response that could not be used.
    ApiError(String),
}

impl ActivityError {
    /// The error as a sentence.
    pub fn describe(&self) -> (r: String)
        ensures
            r@ == error_text(self is RequestFailed, self.message()),
    {
        match self {
            ActivityError::RequestFailed(m) => describe_error(true, m.as_str()),
            ActivityError::ApiError(m) => describe_error(false, m.as_str()),
        }
    }
}

impl FromMessage for ActivityError {
    open spec fn message(&self) -> Seq<char> {
        match self {
            ActivityError::RequestFailed(m) => m@,
            ActivityError::ApiError(m) => m@,
        }
    }

    open spec fn reports(&self, message: Seq<char>) -> bool {
        self matches ActivityError::ApiError(m) && m@ == message
    }

    fn from_message(message: String) -> (e: Self) {
        ActivityError::ApiError(message)
    }
}

impl From<String> for ActivityError {
    fn from(error: String) -> (e: Self) {
        ActivityError::ApiError(error)
    }
}

impl vstd::std_specs::convert::FromSpecImpl<String> for ActivityError {
    open spec fn obeys_from_spec() -> bool {
        true
    }

    open spec fn from_spec(v: String) -> Self {
        ActivityError::ApiError(v)
    }
}

/// The activity resources a time series can be requested for.
#[derive(Debug, Clone, Copy, PartialEq, Eq, Structural)]
pub enum Resource {
    Steps,
    Calories,
    Distance,
    Floors,
    Minutes,
    ActiveMinutes,
    SedentaryMinutes,
    LightlyActiveMinutes,
    FairlyActiveMinutes,
    VeryActiveMinutes,
}

/// The path segment (and key suffix) under which the API names a resource.
pub open spec fn resource_name(r: Resource) -> Seq<char> {
    match r {
        Resource::Steps => "steps"@,
        Resource::Calories => "calories"@,
        Resource::Distance => "distance"@,
        Resource::Floors => "floors"@,
        Resource::Minutes => "minutes"@,
        Resource::ActiveMinutes => "minutesAsleep"@,
        Resource::SedentaryMinutes => "minutesSedentary"@,
        Resource::LightlyActiveMinutes => "minutesLightlyActive"@,
        Resource::FairlyActiveMinutes => "minutesFairlyActive"@,
        Resource::VeryActiveMinutes => "minutesVeryActive"@,
    }
}

/// One point of an activity time series.
#[derive(Debug)]
pub struct ActivityTimeSeries {
    /// The day of the point.
    pub datetime: String,
    /// The value, as the API writes it.
    pub value: String,
}

impl Resource {
    /// The name of the resource in endpoint paths.
    pub fn as_str(&self) -> (r: &'static str)
        ensures
            r@ == resource_name(*self),
    {
        match self {
            Resource::Steps => "steps",
            Resource::Calories => "calories",
            Resource::Distance => "distance",
            Resource::Floors => "floors",
            Resource::Minutes => "minutes",
            Resource::ActiveMinutes => "minutesAsleep",
            Resource::SedentaryMinutes => "minutesSedentary",
            Resource::LightlyActiveMinutes => "minutesLightlyActive",
            Resource::FairlyActiveMinutes => "minutesFairlyActive",
            Resource::VeryActiveMinutes => "minutesVeryActive",
        }
    }
}

} // verus!
