use hatchet_sdk::duration::Duration;
use hatchet_sdk::name_map::NameMap;
use hatchet_sdk::text::{decimal_text, part_before, starts_with};
use hatchet_sdk::utils::{
    add_grpc_auth_header, duration_to_expr, proto_timestamp, Timestamp,
};
use hatchet_sdk::{EmptyModel, HatchetError};
use serde_json::Value;

#[test]
fn test_empty_input_serialization() {
    let empty_model = EmptyModel;
    let serialized = empty_model.to_json();
    assert_eq!(serialized, Value::Object(serde_json::Map::new()));
}

#[test]
fn test_empty_input_deserialization() {
    let json = Value::Object(serde_json::Map::new());
    let empty_model: EmptyModel = EmptyModel::from_json(&json).unwrap();
    assert_eq!(format!("{:?}", empty_model), "EmptyModel");
}

#[test]
fn empty_model_is_written_as_an_empty_object() {
    assert_eq!(EmptyModel.to_json().to_string(), "{}");
    assert!(EmptyModel::from_json(&EmptyModel.to_json()).is_ok());
}

#[test]
fn anything_else_is_no_empty_model() {
    let filled: Value = serde_json::from_str("{\"a\":1}").unwrap();
    assert_eq!(EmptyModel::from_json(&filled).unwrap_err(), "expected empty object");
    for (text, found) in [
        ("null", "null"),
        ("true", "boolean `true`"),
        ("3", "integer `3`"),
        ("-3", "integer `-3`"),
        ("18446744073709551615", "integer `18446744073709551615`"),
        ("1.5", "floating point `1.5`"),
        ("1e300", "floating point `1e+300`"),
        ("\"\"", "string \"\""),
        ("\"a \\\" at line 3 column 4\"", "string \"a \\\" at line 3 column 4\""),
        ("[]", "sequence"),
    ] {
        let value: Value = serde_json::from_str(text).unwrap();
        let error = EmptyModel::from_json(&value).unwrap_err();
        assert_eq!(error, format!("invalid type: {found}, expected an empty object"));
    }
}

/// Reads nothing but expects an empty object, as any deserializer is told.
#[derive(Debug)]
struct Nothing;

impl<'de> serde::de::Visitor<'de> for Nothing {
    type Value = Nothing;

    fn expecting(&self, formatter: &mut std::fmt::Formatter) -> std::fmt::Result {
        formatter.write_str("an empty object")
    }
}

#[test]
fn values_of_another_type_are_refused_as_a_deserializer_refuses_them() {
    for text in ["null", "false", "0", "-1", "1e300", "-0.0", "\"a\\nb\"", "[1,2]"] {
        let value: Value = serde_json::from_str(text).unwrap();
        let refused = serde::Deserializer::deserialize_map(&value, Nothing).unwrap_err();
        assert_eq!(EmptyModel::from_json(&value).unwrap_err(), refused.to_string());
    }
}

#[test]
fn test_duration_to_expr_hours() {
    assert_eq!(duration_to_expr(Duration::from_secs(3600)), "1h");
    assert_eq!(duration_to_expr(Duration::from_secs(7200)), "2h");
    assert_eq!(duration_to_expr(Duration::from_secs(18000)), "5h");
}

#[test]
fn test_duration_to_expr_minutes() {
    assert_eq!(duration_to_expr(Duration::from_secs(60)), "1m");
    assert_eq!(duration_to_expr(Duration::from_secs(120)), "2m");
    assert_eq!(duration_to_expr(Duration::from_secs(300)), "5m");
    assert_eq!(duration_to_expr(Duration::from_secs(3540)), "59m");
}

#[test]
fn test_duration_to_expr_seconds() {
    assert_eq!(duration_to_expr(Duration::from_secs(1)), "1s");
    assert_eq!(duration_to_expr(Duration::from_secs(30)), "30s");
    assert_eq!(duration_to_expr(Duration::from_secs(45)), "45s");
    assert_eq!(duration_to_expr(Duration::from_secs(59)), "59s");
    assert_eq!(duration_to_expr(Duration::from_secs(3661)), "3661s");
}

#[test]
fn test_duration_to_expr_zero() {
    assert_eq!(duration_to_expr(Duration::from_secs(0)), "0s");
}

#[test]
fn expressions_leave_out_fractions_of_a_second() {
    assert_eq!(duration_to_expr(Duration::from_millis(999)), "0s");
    assert_eq!(duration_to_expr(Duration::from_millis(61_500)), "61s");
    assert_eq!(duration_to_expr(Duration::from_secs(u64::MAX)), "18446744073709551615s");
}

#[test]
fn expressions_tell_seconds_apart() {
    let mut seen: Vec<String> = Vec::new();
    for seconds in 0..8000u64 {
        seen.push(duration_to_expr(Duration::from_secs(seconds)));
    }
    seen.sort();
    seen.dedup();
    assert_eq!(seen.len(), 8000);
}

#[test]
fn time_stamps() {
    assert_eq!(
        proto_timestamp(Some(Duration::from_millis(1_700_000_000_250))),
        Ok(Timestamp { seconds: 1_700_000_000, nanos: 250_000_000 })
    );
    assert_eq!(
        proto_timestamp(Some(Duration::from_secs(u64::MAX))),
        Ok(Timestamp { seconds: -1, nanos: 0 })
    );
    assert_eq!(proto_timestamp(None), Err(HatchetError::SystemTimeError));
}

#[test]
fn the_token_goes_into_the_authorization_header() {
    let mut metadata = tonic::metadata::MetadataMap::new();
    assert_eq!(add_grpc_auth_header(&mut metadata, "abc"), Ok(()));
    assert_eq!(metadata.get("authorization").unwrap().to_str().unwrap(), "Bearer abc");
    assert_eq!(add_grpc_auth_header(&mut metadata, "def"), Ok(()));
    assert_eq!(metadata.get_all("authorization").iter().count(), 1);
    assert_eq!(metadata.get("authorization").unwrap().to_str().unwrap(), "Bearer def");
}

#[test]
fn a_token_that_no_header_can_carry_is_refused() {
    for token in ["a\nb", "\u{7f}", "\0"] {
        let mut metadata = tonic::metadata::MetadataMap::new();
        metadata.insert("authorization", "Bearer old".parse().unwrap());
        assert_eq!(
            add_grpc_auth_header(&mut metadata, token),
            Err(HatchetError::InvalidAuthHeader(String::from("failed to parse metadata value")))
        );
        assert_eq!(metadata.get("authorization").unwrap().to_str().unwrap(), "Bearer old");
    }
    let mut metadata = tonic::metadata::MetadataMap::new();
    assert_eq!(add_grpc_auth_header(&mut metadata, "tab\tand \u{e9}"), Ok(()));
    assert_eq!(metadata.len(), 1);
}

#[test]
fn durations() {
    let long = Duration::from_secs(u64::MAX).saturating_mul(2);
    assert_eq!((long.as_secs(), long.subsec_nanos()), (u64::MAX, 999_999_999));
    let tripled = Duration::from_parts(1, 700_000_000).saturating_mul(3);
    assert_eq!((tripled.as_secs(), tripled.subsec_nanos()), (5, 100_000_000));
    assert_eq!(Duration::from_millis(1500).min(Duration::from_secs(1)), Duration::from_secs(1));
    assert_eq!(Duration::from_secs(1).min(Duration::from_millis(1500)), Duration::from_secs(1));
}

#[test]
fn texts() {
    assert_eq!(decimal_text(0), "0");
    assert_eq!(decimal_text(u64::MAX), "18446744073709551615");
    assert!(starts_with("hyper_util", "hyper"));
    assert!(!starts_with("hyp", "hyper"));
    assert!(starts_with("", ""));
    assert_eq!(part_before("host:443", ':'), "host");
    assert_eq!(part_before("host", ':'), "host");
    assert_eq!(part_before(":443", ':'), "");
    assert_eq!(part_before("\u{fc}\u{fc}:1:2", ':'), "\u{fc}\u{fc}");
}

#[test]
fn name_maps() {
    let mut map: NameMap<u32> = NameMap::new();
    assert_eq!(map.insert(String::from("a"), 1), None);
    assert_eq!(map.insert(String::from("b"), 2), None);
    assert_eq!(map.insert(String::from("a"), 3), Some(1));
    assert_eq!(map.get("a"), Some(&3));
    assert_eq!(map.get("c"), None);
    assert_eq!(map.entries().len(), 2);
    assert_eq!(map.remove("a"), Some(3));
    assert_eq!(map.remove("a"), None);
    assert_eq!(map.entries(), &vec![(String::from("b"), 2)]);
}
