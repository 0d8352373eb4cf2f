//! Tests of request construction and of the endpoint operations on a
//! decoded envelope: URLs, query parameters, form encoding, status
//! classification, credential validation, and prefix stripping.

use api_layer_client::{
    check_status, encode_query_value, join_codes, list_from_envelope, list_url, live_from_envelope,
    live_params, live_url, strip_prefix, validate_api_key, ClientError, Json,
};

fn obj(entries: Vec<(&str, Json)>) -> Json {
    Json::Obj(entries.into_iter().map(|(k, v)| (k.to_string(), v)).collect())
}

fn num(v: f64) -> Json {
    Json::Num(serde_json::Number::from_f64(v).expect("finite value"))
}

#[test]
fn live_strips_source_prefix_from_every_key() {
    let json = obj(vec![
        ("success", Json::Bool(true)),
        ("quotes", obj(vec![("EURUSD", num(1.1)), ("EURRON", num(4.9))])),
    ]);

    let rates = live_from_envelope(json, "EUR").unwrap();
    assert_eq!(rates.len(), 2);
    assert_eq!(rates[0].0, "USD");
    assert_eq!(rates[0].1.as_f64().unwrap(), 1.1);
    assert_eq!(rates[1].0, "RON");
    assert_eq!(rates[1].1.as_f64().unwrap(), 4.9);
}

#[test]
fn live_keeps_a_key_without_the_prefix_unchanged() {
    let json = obj(vec![
        ("success", Json::Bool(true)),
        ("quotes", obj(vec![("USDJPY", num(150.0))])),
    ]);

    let rates = live_from_envelope(json, "EUR").unwrap();
    assert_eq!(rates.len(), 1);
    assert_eq!(rates[0].0, "USDJPY");
}

#[test]
fn live_query_contains_comma_joined_currencies() {
    let currencies = vec!["USD".to_string(), "RON".to_string()];
    let params = live_params("EUR", Some(&currencies));

    assert_eq!(params.len(), 2);
    assert_eq!(params[0].0, "source");
    assert_eq!(params[0].1, "EUR");
    assert_eq!(params[1].0, "currencies");
    assert_eq!(params[1].1, "USD,RON");
}

#[test]
fn live_url_encodes_the_joined_currencies() {
    let currencies = vec!["USD".to_string(), "RON".to_string()];
    let url = live_url("EUR", Some(&currencies));
    assert_eq!(
        url,
        "https://api.apilayer.com/currency_data/live?source=EUR&currencies=USD%2CRON"
    );
}

#[test]
fn live_url_without_currencies_has_only_the_source() {
    assert_eq!(
        live_url("EUR", None),
        "https://api.apilayer.com/currency_data/live?source=EUR"
    );
}

#[test]
fn empty_currency_restriction_adds_no_parameter() {
    let none: Vec<String> = Vec::new();
    let params = live_params("EUR", Some(&none));
    assert_eq!(params.len(), 1);
    assert_eq!(
        live_url("EUR", Some(&none)),
        "https://api.apilayer.com/currency_data/live?source=EUR"
    );
}

#[test]
fn list_url_is_the_fixed_endpoint() {
    assert_eq!(list_url(), "https://api.apilayer.com/currency_data/list");
}

#[test]
fn list_round_trips_the_payload() {
    let json = obj(vec![
        ("success", Json::Bool(true)),
        ("currencies", obj(vec![("EUR", Json::Str("Euro".to_string()))])),
    ]);

    let list = list_from_envelope(json).unwrap();
    assert_eq!(list, vec![("EUR".to_string(), "Euro".to_string())]);
}

#[test]
fn non_success_status_keeps_status_and_body_verbatim() {
    let body = "{\"success\": true}".to_string();
    let r = check_status(401, body.clone());
    match r {
        Err(ClientError::HttpError { status, body: kept }) => {
            assert_eq!(status, 401);
            assert_eq!(kept, body);
        }
        other => panic!("expected HttpError, got {:?}", other),
    }
}

#[test]
fn success_statuses_pass_and_others_fail() {
    assert!(check_status(200, String::new()).is_ok());
    assert!(check_status(204, String::new()).is_ok());
    assert!(check_status(299, String::new()).is_ok());
    assert!(check_status(199, String::new()).is_err());
    assert!(check_status(300, String::new()).is_err());
    assert!(check_status(500, String::new()).is_err());
}

#[test]
fn form_encoding_follows_the_serializer_rules() {
    assert_eq!(encode_query_value("USD,RON"), "USD%2CRON");
    assert_eq!(encode_query_value("a b"), "a+b");
    assert_eq!(encode_query_value("a*-._z"), "a*-._z");
    assert_eq!(encode_query_value("~/?&="), "%7E%2F%3F%26%3D");
    assert_eq!(encode_query_value(""), "");
}

#[test]
fn form_encoding_uses_utf8_bytes() {
    // the two bytes of a Cyrillic letter, each percent-encoded
    assert_eq!(encode_query_value("\u{0434}"), "%D0%B4");
}

#[test]
fn join_codes_places_one_comma_between_neighbours() {
    assert_eq!(join_codes(&Vec::new()), "");
    assert_eq!(join_codes(&vec!["USD".to_string()]), "USD");
    assert_eq!(
        join_codes(&vec!["USD".to_string(), "RON".to_string(), "JPY".to_string()]),
        "USD,RON,JPY"
    );
}

#[test]
fn strip_prefix_is_a_best_effort_string_operation() {
    assert_eq!(strip_prefix("EURUSD", "EUR"), "USD");
    assert_eq!(strip_prefix("USD", "EUR"), "USD");
    assert_eq!(strip_prefix("EUR", "EURUSD"), "EUR");
    assert_eq!(strip_prefix("EUR", "EUR"), "");
    assert_eq!(strip_prefix("", ""), "");
}

#[test]
fn api_key_with_header_safe_bytes_is_accepted() {
    assert!(validate_api_key("a1B2c3D4e5").is_ok());
    assert!(validate_api_key("key with spaces\tand tab").is_ok());
}

#[test]
fn api_key_with_a_control_byte_is_invalid_credential() {
    assert!(matches!(
        validate_api_key("bad\nkey"),
        Err(ClientError::InvalidCredential)
    ));
    assert!(matches!(
        validate_api_key("bad\u{7f}key"),
        Err(ClientError::InvalidCredential)
    ));
}
