use fitbit_sdk::activity::{locate_time_series, time_series_key};
use fitbit_sdk::types::activity::{ActivityError, Resource};

fn parse(text: &str) -> serde_json::Value {
    serde_json::from_str(text).unwrap()
}

#[test]
fn resource_names() {
    assert_eq!(Resource::Steps.as_str(), "steps");
    assert_eq!(Resource::Calories.as_str(), "calories");
    assert_eq!(Resource::Distance.as_str(), "distance");
    assert_eq!(Resource::Floors.as_str(), "floors");
    assert_eq!(Resource::Minutes.as_str(), "minutes");
    assert_eq!(Resource::ActiveMinutes.as_str(), "minutesAsleep");
    assert_eq!(Resource::SedentaryMinutes.as_str(), "minutesSedentary");
    assert_eq!(Resource::LightlyActiveMinutes.as_str(), "minutesLightlyActive");
    assert_eq!(Resource::FairlyActiveMinutes.as_str(), "minutesFairlyActive");
    assert_eq!(Resource::VeryActiveMinutes.as_str(), "minutesVeryActive");
}

#[test]
fn steps_key() {
    assert_eq!(time_series_key(Resource::Steps), "activities-steps");
    assert_eq!(time_series_key(Resource::Floors), "activities-floors");
}

#[test]
fn rows_under_the_resource_key() {
    let v = parse(
        r#"{"activities-steps":[{"dateTime":"2024-01-01","value":"100"},{"dateTime":"2024-01-02","value":"250"}]}"#,
    );
    let rows = locate_time_series(&v, Resource::Steps).unwrap();
    assert_eq!(rows.len(), 2);
    assert_eq!(rows[1]["value"], serde_json::Value::String("250".to_string()));
}

#[test]
fn empty_rows() {
    let v = parse(r#"{"activities-calories":[]}"#);
    let rows = locate_time_series(&v, Resource::Calories).unwrap();
    assert!(rows.is_empty());
}

#[test]
fn missing_key_is_an_error() {
    let v = parse(r#"{"activities-calories":[]}"#);
    match locate_time_series(&v, Resource::Steps) {
        Err(ActivityError::ApiError(m)) => {
            assert_eq!(m, "Missing key 'activities-steps' in response")
        }
        other => panic!("unexpected {:?}", other),
    }
}

#[test]
fn key_of_a_non_object_is_missing() {
    let v = parse("[1, 2]");
    match locate_time_series(&v, Resource::Steps) {
        Err(ActivityError::ApiError(m)) => {
            assert_eq!(m, "Missing key 'activities-steps' in response")
        }
        other => panic!("unexpected {:?}", other),
    }
}

#[test]
fn key_without_array_is_an_error() {
    let v = parse(r#"{"activities-steps":{"value":"1"}}"#);
    match locate_time_series(&v, Resource::Steps) {
        Err(ActivityError::ApiError(m)) => assert_eq!(m, "Expected array for time series data"),
        other => panic!("unexpected {:?}", other),
    }
}
