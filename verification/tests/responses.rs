use mcp_parser::decode::{decode_response, parse_request_impl, parse_response_impl};
use mcp_parser::error::ParseError;
use mcp_parser::message::RequestId;
use serde_json::Value;

#[test]
fn test_parse_response() {
    let input = r#"{"jsonrpc":"2.0","id":1,"result":{"tools":[]}}"#;
    let resp = parse_response_impl(input).unwrap();

    assert_eq!(resp.jsonrpc, "2.0");
    assert_eq!(resp.id, RequestId::Number(1));
    assert!(resp.result.is_object());
}

#[test]
fn response_end_to_end_keeps_the_result() {
    let input = r#"{"jsonrpc":"2.0","id":1,"result":{"tools":[]}}"#;
    let resp = parse_response_impl(input).unwrap();
    let mut expected = serde_json::Map::new();
    expected.insert("tools".to_string(), Value::Array(Vec::new()));
    assert_eq!(resp.jsonrpc, "2.0");
    assert_eq!(resp.id, RequestId::Number(1));
    assert_eq!(resp.result, Value::Object(expected));
}

#[test]
fn missing_id_is_null_in_a_response_and_an_error_in_a_request() {
    let resp = parse_response_impl(r#"{"jsonrpc":"2.0","result":5}"#).unwrap();
    assert_eq!(resp.id, RequestId::Null);
    assert_eq!(resp.result, Value::from(5i64));

    let err = parse_request_impl(r#"{"jsonrpc":"2.0","method":"m"}"#).unwrap_err();
    assert!(matches!(err, ParseError::MissingField("id")));
}

#[test]
fn result_of_any_type_is_kept() {
    for (text, expected) in [
        ("null", Value::Null),
        ("true", Value::Bool(true)),
        ("\"done\"", Value::String("done".to_string())),
        ("[]", Value::Array(Vec::new())),
        ("-3", Value::from(-3i64)),
    ] {
        let input = format!(r#"{{"jsonrpc":"2.0","id":"r","result":{}}}"#, text);
        let resp = parse_response_impl(&input).unwrap();
        assert_eq!(resp.id, RequestId::String("r".to_string()));
        assert_eq!(resp.result, expected);
    }
}

#[test]
fn response_without_result_is_refused() {
    let err = parse_response_impl(r#"{"jsonrpc":"2.0","id":1}"#).unwrap_err();
    assert!(matches!(err, ParseError::MissingField("result")));
    let err = parse_response_impl(r#"{"jsonrpc":"2.0","id":1,"method":"m","params":3}"#)
        .unwrap_err();
    assert!(matches!(err, ParseError::MissingField("result")));
}

#[test]
fn response_envelope_and_identifier_failures() {
    assert!(matches!(parse_response_impl("{"), Err(ParseError::InvalidJson(_))));
    match parse_response_impl("[]").unwrap_err() {
        ParseError::InvalidJson(text) => assert_eq!(text, "expected object"),
        other => panic!("unexpected error: {:?}", other),
    }
    assert!(matches!(
        parse_response_impl(r#"{"id":1,"result":1}"#),
        Err(ParseError::MissingField("jsonrpc"))
    ));
    match parse_response_impl(r#"{"jsonrpc":"1.1","id":1,"result":1}"#).unwrap_err() {
        ParseError::InvalidVersion(found) => assert_eq!(found, "1.1"),
        other => panic!("unexpected error: {:?}", other),
    }
    assert!(matches!(
        parse_response_impl(r#"{"jsonrpc":"2.0","id":1.5,"result":1}"#),
        Err(ParseError::InvalidId)
    ));
    assert!(matches!(
        parse_response_impl(r#"{"jsonrpc":"2.0","id":{"a":1}}"#),
        Err(ParseError::InvalidId)
    ));
}

#[test]
fn decode_response_on_a_built_value() {
    let mut object = serde_json::Map::new();
    object.insert("jsonrpc".to_string(), Value::String("2.0".to_string()));
    object.insert("id".to_string(), Value::String("k".to_string()));
    object.insert("result".to_string(), Value::Bool(false));
    let resp = decode_response(&Value::Object(object)).unwrap();
    assert_eq!(resp.id, RequestId::String("k".to_string()));
    assert_eq!(resp.result, Value::Bool(false));
    assert!(matches!(decode_response(&Value::Bool(true)), Err(ParseError::InvalidJson(_))));
}
