//! Activity API: endpoint paths and the time-series lookup.
use vstd::prelude::*;
use crate::path::{dated_path, user_dated_path, user_path, user_resource_path};
use crate::json::{json_elements, json_member, member};
use crate::types::activity::{resource_name, ActivityError, Resource};

verus! {

/// The path of the activity summary of a day.
pub fn activity_summary_path(user_id: &str, date: &str) -> (r: String)
    ensures
        r@ == dated_path(user_id@, "/activities/date/"@, date@),
{
    user_dated_path(user_id, "/activities/date/", date)
}

/// The rest of a time-series path after the user:
/// `/activities/<resource>/date/<date>/<period>.json`.
pub open spec fn time_series_rest(resource: Resource, date: Seq<char>, period: Seq<char>) -> Seq<
    char,
> {
    "/activities/"@ + resource_name(resource) + "/date/"@ + date + "/"@ + period + ".json"@
}

/// The path of the time series of `resource` over `period`, ending on `date`.
pub fn activity_time_series_path(user_id: &str, resource: Resource, date: &str, period: &str) -> (r:
    String)
    ensures
        r@ == user_path(user_id@, time_series_rest(resource, date@, period@)),
{
    let rest = String::from_str("/activities/").concat(resource.as_str()).concat("/date/").concat(
        date,
    ).concat("/").concat(period).concat(".json");
    user_resource_path(user_id, rest.as_str())
}

/// The path of the lifetime statistics.
pub fn lifetime_stats_path(user_id: &str) -> (r: String)
    ensures
        r@ == user_path(user_id@, "/activities.json"@),
{
    user_resource_path(user_id, "/activities.json")
}

/// The top-level key under which a time-series response holds its rows.
pub open spec fn time_series_key_text(resource: Resource) -> Seq<char> {
    "activities-"@ + resource_name(resource)
}

/// Builds `time_series_key_text(resource)`.
pub fn time_series_key(resource: Resource) -> (r: String)
    ensures
        r@ == time_series_key_text(resource),
{
    String::from_str("activities-").concat(resource.as_str())
}

/// The message when a time-series response lacks its key.
pub open spec fn missing_key_text(key: Seq<char>) -> Seq<char> {
    "Missing key '"@ + key + "' in response"@
}

/// The message when a time-series key does not hold an array.
pub open spec fn not_array_text() -> Seq<char> {
    "Expected array for time series data"@
}

/// The rows of a time-series response: the array under the key of
/// `resource`. A missing key, or a key that holds no array, is an error.
pub fn locate_time_series<'a>(response: &'a serde_json::Value, resource: Resource) -> (r: Result<
    &'a Vec<serde_json::Value>,
    ActivityError,
>)
    ensures
        match json_member(*response, time_series_key_text(resource)) {
            None => r matches Err(ActivityError::ApiError(m)) && m@ == missing_key_text(
                time_series_key_text(resource),
            ),
            Some(found) => match json_elements(found) {
                None => r matches Err(ActivityError::ApiError(m)) && m@ == not_array_text(),
                Some(rows) => r matches Ok(a) && a@ == rows,
            },
        },
{
    let key = time_series_key(resource);
    match member(response, key.as_str()) {
        None => {
            let m = String::from_str("Missing key '").concat(key.as_str()).concat("' in response");
            Err(ActivityError::ApiError(m))
        },
        Some(found) => match found.as_array() {
            None => Err(ActivityError::ApiError(String::from_str("Expected array for time series data"))),
            Some(rows) => Ok(rows),
        },
    }
}

} // verus!
