use fitbit_sdk::client::{describe_error, FromMessage};
use fitbit_sdk::types::activity::ActivityError;
use fitbit_sdk::types::body::BodyError;
use fitbit_sdk::types::nutrition::NutritionError;
use fitbit_sdk::types::sleep::SleepError;
use fitbit_sdk::types::user::UserError;

#[test]
fn from_message_is_an_api_error() {
    assert!(matches!(ActivityError::from_message("m".to_string()), ActivityError::ApiError(m) if m == "m"));
    assert!(matches!(BodyError::from_message("m".to_string()), BodyError::ApiError(m) if m == "m"));
    assert!(matches!(NutritionError::from_message("m".to_string()), NutritionError::ApiError(m) if m == "m"));
    assert!(matches!(SleepError::from_message("m".to_string()), SleepError::ApiError(m) if m == "m"));
    assert!(matches!(UserError::from_message("m".to_string()), UserError::ApiError(m) if m == "m"));
}

#[test]
fn from_string_is_an_api_error() {
    assert!(matches!(ActivityError::from("x".to_string()), ActivityError::ApiError(m) if m == "x"));
    assert!(matches!(UserError::from("x".to_string()), UserError::ApiError(m) if m == "x"));
}

#[test]
fn descriptions() {
    assert_eq!(ActivityError::ApiError("bad".to_string()).describe(), "API error: bad");
    assert_eq!(ActivityError::RequestFailed("down".to_string()).describe(), "API request failed: down");
    assert_eq!(BodyError::RequestFailed("x".to_string()).describe(), "API request failed: x");
    assert_eq!(NutritionError::ApiError("y".to_string()).describe(), "API error: y");
    assert_eq!(SleepError::ApiError("".to_string()).describe(), "API error: ");
    assert_eq!(UserError::RequestFailed("z".to_string()).describe(), "API request failed: z");
    assert_eq!(describe_error(false, "q"), "API error: q");
}
