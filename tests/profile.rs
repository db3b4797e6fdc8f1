use fitbit_sdk::types::user::{Gender, HeightUnit, UpdateProfileParams, WeightUnit};

#[test]
fn display_name_alone() {
    let p = UpdateProfileParams::new().with_display_name("Runner");
    assert_eq!(p.to_json(), r#"{"displayName":"Runner"}"#);
}

#[test]
fn nothing_set_is_an_empty_object() {
    assert_eq!(UpdateProfileParams::new().to_json(), "{}");
    assert_eq!(UpdateProfileParams::default().to_json(), "{}");
}

#[test]
fn every_field_in_order() {
    let p = UpdateProfileParams::new()
        .with_height("180")
        .with_weight_unit(WeightUnit::Us)
        .with_height_unit(HeightUnit::Metric)
        .with_gender(Gender::Female)
        .with_date_of_birth("1990-05-01")
        .with_display_name("J")
        .with_full_name("Jane Doe");
    assert_eq!(
        p.to_json(),
        r#"{"fullName":"Jane Doe","displayName":"J","dateOfBirth":"1990-05-01","gender":"FEMALE","heightUnit":"METRIC","weightUnit":"US","height":"180"}"#
    );
}

#[test]
fn enum_values() {
    assert_eq!(UpdateProfileParams::new().with_gender(Gender::Male).to_json(), r#"{"gender":"MALE"}"#);
    assert_eq!(UpdateProfileParams::new().with_gender(Gender::Na).to_json(), r#"{"gender":"NA"}"#);
    assert_eq!(
        UpdateProfileParams::new().with_height_unit(HeightUnit::Us).to_json(),
        r#"{"heightUnit":"US"}"#
    );
    assert_eq!(
        UpdateProfileParams::new().with_weight_unit(WeightUnit::Metric).to_json(),
        r#"{"weightUnit":"METRIC"}"#
    );
}

#[test]
fn strings_are_escaped() {
    let p = UpdateProfileParams::new().with_full_name("Al \"Ace\" \\ B\n");
    assert_eq!(p.to_json(), r#"{"fullName":"Al \"Ace\" \\ B\n"}"#);
}

#[test]
fn encoding_matches_serde_json() {
    let p = UpdateProfileParams::new().with_display_name("x").with_height("1");
    let v: serde_json::Value = serde_json::from_str(&p.to_json()).unwrap();
    let obj = v.as_object().unwrap();
    assert_eq!(obj.len(), 2);
    assert_eq!(obj["displayName"], serde_json::Value::String("x".to_string()));
    assert_eq!(obj["height"], serde_json::Value::String("1".to_string()));
}

#[test]
fn builders_set_one_field() {
    let p = UpdateProfileParams::new().with_full_name("A").with_full_name("B");
    assert_eq!(p.full_name.as_deref(), Some("B"));
    assert!(p.display_name.is_none());
    assert!(p.date_of_birth.is_none());
    assert!(p.gender.is_none());
    assert!(p.height_unit.is_none());
    assert!(p.weight_unit.is_none());
    assert!(p.height.is_none());
}

#[test]
fn control_characters_are_escaped() {
    let p = UpdateProfileParams::new().with_height("a\u{1}\u{8}\t\r\u{c}\u{1f}é");
    assert_eq!(p.to_json(), "{\"height\":\"a\\u0001\\b\\t\\r\\f\\u001fé\"}");
}
