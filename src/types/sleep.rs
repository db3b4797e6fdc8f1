//! Sleep API types.
use vstd::prelude::*;
use crate::client::{describe_error, error_text, FromMessage};

verus! {

/// Errors of the sleep API.
#[derive(Debug)]
pub enum SleepError {
    /// The request could not be sent.
    RequestFailed(String),
    /// The API answered with an error, or with a response that could not be used.
    ApiError(String),
}

impl SleepError {
    /// The error as a sentence.
    pub fn describe(&self) -> (r: String)
        ensures
            r@ == error_text(self is RequestFailed, self.message()),
    {
        match self {
            SleepError::RequestFailed(m) => describe_error(true, m.as_str()),
            SleepError::ApiError(m) => describe_error(false, m.as_str()),
        }
    }
}

impl FromMessage for SleepError {
    open spec fn message(&self) -> Seq<char> {
        match self {
            SleepError::RequestFailed(m) => m@,
            SleepError::ApiError(m) => m@,
        }
    }

    open spec fn reports(&self, message: Seq<char>) -> bool {
        self matches SleepError::ApiError(m) && m@ == message
    }

    fn from_message(message: String) -> (e: Self) {
        SleepError::ApiError(message)
    }
}

impl From<String> for SleepError {
    fn from(error: String) -> (e: Self) {
        SleepError::ApiError(error)
    }
}

impl vstd::std_specs::convert::FromSpecImpl<String> for SleepError {
    open spec fn obeys_from_spec() -> bool {
        true
    }

    open spec fn from_spec(v: String) -> Self {
        SleepError::ApiError(v)
    }
}

/// The sleep log of a day.
#[derive(Debug)]
pub struct SleepLog {
    pub summary: SleepSummary,
    pub sleep: Vec<SleepEntry>,
}

/// Totals over the sleep records of a day.
#[derive(Debug)]
pub struct SleepSummary {
    pub total_sleep_records: i32,
    pub total_time_in_bed: i32,
    pub total_minutes_asleep: i32,
}

/// One sleep record.
#[derive(Debug)]
pub struct SleepEntry {
    pub log_id: i64,
    pub start_time: String,
    pub end_time: String,
    /// Duration in milliseconds.
    pub duration: i64,
    pub minutes_to_fall_asleep: i32,
    pub time_in_bed: i32,
    pub minutes_asleep: i32,
    pub efficiency: i32,
    /// The kind of record ("stages" or "classic").
    pub type_: String,
    pub is_main_sleep: bool,
    pub levels: Option<SleepLevels>,
}

/// The sleep stages of a record.
#[derive(Debug)]
pub struct SleepLevels {
    pub summary: SleepLevelsSummary,
    pub data: Vec<SleepLevelData>,
}

/// Totals per sleep stage.
#[derive(Debug)]
pub struct SleepLevelsSummary {
    pub rem: Option<SleepLevelSummary>,
    pub deep: Option<SleepLevelSummary>,
    pub light: Option<SleepLevelSummary>,
    pub wake: Option<SleepLevelSummary>,
}

/// Time and count of one sleep stage.
#[derive(Debug)]
pub struct SleepLevelSummary {
    pub minutes: i32,
    pub count: i32,
}

/// One span of a sleep stage.
#[derive(Debug)]
pub struct SleepLevelData {
    pub datetime: String,
    pub level: String,
    pub seconds: i32,
}

/// The sleep goal of a user.
#[derive(Debug)]
pub struct SleepGoal {
    /// Minutes of sleep per night.
    pub goal: i32,
}

/// The response of the sleep log endpoint: the log at the top level.
#[derive(Debug)]
pub struct SleepLogResponse {
    pub sleep_log: SleepLog,
}

/// The response of the sleep goal endpoint.
#[derive(Debug)]
pub struct SleepGoalResponse {
    pub goal: SleepGoal,
}

} // verus!
