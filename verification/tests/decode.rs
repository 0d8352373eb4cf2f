//! Tests of the envelope decoder: the success flag, the payload lookup,
//! and the typed shapes, each failure a distinct error.

use api_layer_client::{
    decode_number, decode_number_map, decode_string_map, ClientError, EnvelopeIssue, Json, Shape,
};

fn obj(entries: Vec<(&str, Json)>) -> Json {
    Json::Obj(entries.into_iter().map(|(k, v)| (k.to_string(), v)).collect())
}

fn num(v: f64) -> Json {
    Json::Num(serde_json::Number::from_f64(v).expect("finite value"))
}

#[test]
fn test_from_json_float() {
    let val: f64 = 1.333;

    let json = obj(vec![("success", Json::Bool(true)), ("expected", num(val))]);

    let expected = decode_number(json, "expected");
    assert!(expected.is_ok(), "json not parsed");

    assert_eq!(expected.unwrap().as_f64().unwrap(), val, "vals not equal")
}

#[test]
fn test_from_json_hash_map() {
    let key = "EUR";
    let val = "Euro";

    let json = obj(vec![
        ("success", Json::Bool(true)),
        ("symbols", obj(vec![(key, Json::Str(val.to_string()))])),
    ]);

    let hash_map = decode_string_map(json, "symbols");
    assert!(hash_map.is_ok(), "json not parsed");

    let hash_map = hash_map.unwrap();
    let expected = hash_map.iter().find(|(k, _)| k == key).map(|(_, v)| v);
    assert!(expected.is_some(), "key not found");

    assert_eq!(expected.unwrap(), val, "vals not equal")
}

#[test]
fn decode_returns_payload_exactly_in_order() {
    let json = obj(vec![
        ("success", Json::Bool(true)),
        (
            "currencies",
            obj(vec![
                ("EUR", Json::Str("Euro".to_string())),
                ("USD", Json::Str("US Dollar".to_string())),
            ]),
        ),
    ]);

    let pairs = decode_string_map(json, "currencies").unwrap();
    assert_eq!(pairs.len(), 2);
    assert_eq!(pairs[0].0, "EUR");
    assert_eq!(pairs[0].1, "Euro");
    assert_eq!(pairs[1].0, "USD");
    assert_eq!(pairs[1].1, "US Dollar");
}

#[test]
fn failed_envelope_is_api_error_with_payload_present() {
    let json = obj(vec![
        ("success", Json::Bool(false)),
        ("quotes", obj(vec![("EURUSD", num(1.1))])),
    ]);

    let r = decode_number_map(json, "quotes");
    match r {
        Err(ClientError::ApiError(env)) => {
            // the error carries the envelope whole, success flag included
            assert!(matches!(env.get("success"), Some(Json::Bool(false))));
            assert!(env.get("quotes").is_some());
        }
        other => panic!("expected ApiError, got {:?}", other),
    }
}

#[test]
fn failed_envelope_is_api_error_without_payload() {
    let json = obj(vec![("success", Json::Bool(false))]);

    let r = decode_string_map(json, "currencies");
    assert!(matches!(r, Err(ClientError::ApiError(_))));
}

#[test]
fn missing_success_is_envelope_error() {
    let json = obj(vec![("currencies", obj(vec![]))]);

    let r = decode_string_map(json, "currencies");
    assert!(matches!(
        r,
        Err(ClientError::EnvelopeError(EnvelopeIssue::MissingSuccess))
    ));
}

#[test]
fn success_of_wrong_type_is_envelope_error() {
    let json = obj(vec![("success", Json::Str("true".to_string()))]);

    let r = decode_string_map(json, "currencies");
    assert!(matches!(
        r,
        Err(ClientError::EnvelopeError(EnvelopeIssue::SuccessNotBool))
    ));
}

#[test]
fn non_object_envelope_is_envelope_error() {
    let r = decode_string_map(Json::Str("no envelope".to_string()), "currencies");
    assert!(matches!(
        r,
        Err(ClientError::EnvelopeError(EnvelopeIssue::MissingSuccess))
    ));
}

#[test]
fn missing_payload_key_is_envelope_error_naming_the_key() {
    let json = obj(vec![("success", Json::Bool(true))]);

    let r = decode_number_map(json, "quotes");
    match r {
        Err(ClientError::EnvelopeError(EnvelopeIssue::MissingPayload(key))) => {
            assert_eq!(key, "quotes");
        }
        other => panic!("expected EnvelopeError, got {:?}", other),
    }
}

#[test]
fn string_payload_where_map_expected_is_decode_error() {
    let json = obj(vec![
        ("success", Json::Bool(true)),
        ("currencies", Json::Str("not a mapping".to_string())),
    ]);

    let r = decode_string_map(json, "currencies");
    match r {
        Err(ClientError::DecodeError { key, expected }) => {
            assert_eq!(key, "currencies");
            assert_eq!(expected, Shape::StringMap);
        }
        other => panic!("expected DecodeError, got {:?}", other),
    }
}

#[test]
fn number_values_where_strings_expected_is_decode_error() {
    let json = obj(vec![
        ("success", Json::Bool(true)),
        ("currencies", obj(vec![("EUR", num(1.0))])),
    ]);

    let r = decode_string_map(json, "currencies");
    assert!(matches!(
        r,
        Err(ClientError::DecodeError { expected: Shape::StringMap, .. })
    ));
}

#[test]
fn string_values_where_numbers_expected_is_decode_error() {
    let json = obj(vec![
        ("success", Json::Bool(true)),
        ("quotes", obj(vec![("EURUSD", Json::Str("1.1".to_string()))])),
    ]);

    let r = decode_number_map(json, "quotes");
    assert!(matches!(
        r,
        Err(ClientError::DecodeError { expected: Shape::NumberMap, .. })
    ));
}

#[test]
fn map_payload_where_number_expected_is_decode_error() {
    let json = obj(vec![("success", Json::Bool(true)), ("expected", obj(vec![]))]);

    let r = decode_number(json, "expected");
    assert!(matches!(
        r,
        Err(ClientError::DecodeError { expected: Shape::Number, .. })
    ));
}

#[test]
fn number_map_values_come_through_untouched() {
    let json = obj(vec![
        ("success", Json::Bool(true)),
        (
            "quotes",
            obj(vec![("EURUSD", num(1.0625)), ("EURRON", num(4.9))]),
        ),
    ]);

    let pairs = decode_number_map(json, "quotes").unwrap();
    assert_eq!(pairs.len(), 2);
    assert_eq!(pairs[0].0, "EURUSD");
    assert_eq!(pairs[0].1.as_f64().unwrap(), 1.0625);
    assert_eq!(pairs[1].0, "EURRON");
    assert_eq!(pairs[1].1.as_f64().unwrap(), 4.9);
}
