use mcp_parser::decode::{decode_request, decode_response, parse_request_impl, parse_response_impl};
use mcp_parser::message::{JsonRpcRequest, JsonRpcResponse, Params, RequestId};
use serde_json::Value;

fn same_request(a: &JsonRpcRequest, b: &JsonRpcRequest) -> bool {
    let params_match = match (&a.params, &b.params) {
        (None, None) => true,
        (Some(x), Some(y)) => {
            x.len() == y.len()
                && x.entries.iter().all(|(k, v)| y.get(k.as_str()) == Some(v))
        }
        _ => false,
    };
    a.jsonrpc == b.jsonrpc && a.id == b.id && a.method == b.method && params_match
}

#[test]
fn identifier_values() {
    assert_eq!(RequestId::String("abc".to_string()).to_value(), Value::String("abc".to_string()));
    assert_eq!(RequestId::Number(-7).to_value(), Value::from(-7i64));
    assert_eq!(RequestId::Null.to_value(), Value::Null);
}

#[test]
fn params_value_is_the_object_of_the_entries() {
    let params = Params {
        entries: vec![
            ("b".to_string(), Value::from(2i64)),
            ("a".to_string(), Value::String("x".to_string())),
        ],
    };
    let mut expected = serde_json::Map::new();
    expected.insert("a".to_string(), Value::String("x".to_string()));
    expected.insert("b".to_string(), Value::from(2i64));
    assert_eq!(params.to_value(), Value::Object(expected));
    assert_eq!(Params { entries: Vec::new() }.to_value(), Value::Object(serde_json::Map::new()));
}

#[test]
fn request_value_has_the_four_fields() {
    let req = parse_request_impl(
        r#"{"jsonrpc":"2.0","id":"abc","method":"tools/call","params":{"name":"get_posts"}}"#,
    )
    .unwrap();
    let expected: Value = serde_json::from_str(
        r#"{"jsonrpc":"2.0","id":"abc","method":"tools/call","params":{"name":"get_posts"}}"#,
    )
    .unwrap();
    assert_eq!(req.to_value(), expected);

    let req = parse_request_impl(r#"{"jsonrpc":"2.0","id":1,"method":"tools/list"}"#).unwrap();
    let expected: Value =
        serde_json::from_str(r#"{"jsonrpc":"2.0","id":1,"method":"tools/list","params":null}"#)
            .unwrap();
    assert_eq!(req.to_value(), expected);
}

#[test]
fn request_text_is_compact_json() {
    let req = parse_request_impl(r#"{ "method": "m", "id": 3, "jsonrpc": "2.0" }"#).unwrap();
    assert_eq!(req.to_json(), r#"{"id":3,"jsonrpc":"2.0","method":"m","params":null}"#);
}

#[test]
fn response_text_is_compact_json() {
    let resp = parse_response_impl(r#"{"jsonrpc":"2.0","id":1,"result":{"tools":[]}}"#).unwrap();
    assert_eq!(resp.to_json(), r#"{"id":1,"jsonrpc":"2.0","result":{"tools":[]}}"#);
    let resp = parse_response_impl(r#"{"jsonrpc":"2.0","result":null}"#).unwrap();
    assert_eq!(resp.to_json(), r#"{"id":null,"jsonrpc":"2.0","result":null}"#);
}

#[test]
fn request_round_trip_through_text() {
    for input in [
        r#"{"jsonrpc":"2.0","id":1,"method":"tools/list"}"#,
        r#"{"jsonrpc":"2.0","id":"abc","method":"tools/call","params":{"name":"get_posts"}}"#,
        r#"{"jsonrpc":"2.0","id":null,"method":"notify","params":null}"#,
        r#"{"jsonrpc":"2.0","id":-5,"method":"","params":{"a":[1,{"b":false}],"c":"d","e":{}}}"#,
    ] {
        let first = parse_request_impl(input).unwrap();
        let again = parse_request_impl(&first.to_json()).unwrap();
        assert!(same_request(&first, &again));
        assert!(same_request(&again, &first));
        let third = decode_request(&first.to_value()).unwrap();
        assert!(same_request(&first, &third));
    }
}

fn same_response(a: &JsonRpcResponse, b: &JsonRpcResponse) -> bool {
    a.jsonrpc == b.jsonrpc && a.id == b.id && a.result == b.result
}

#[test]
fn response_round_trip_through_text() {
    for input in [
        r#"{"jsonrpc":"2.0","id":1,"result":{"tools":[]}}"#,
        r#"{"jsonrpc":"2.0","result":"ok"}"#,
        r#"{"jsonrpc":"2.0","id":"r-1","result":[1,2,3]}"#,
    ] {
        let first = parse_response_impl(input).unwrap();
        let again = parse_response_impl(&first.to_json()).unwrap();
        assert!(same_response(&first, &again));
        let third = decode_response(&first.to_value()).unwrap();
        assert!(same_response(&first, &third));
    }
}

#[test]
fn distinct_keys_are_recognised() {
    let good = Params {
        entries: vec![("a".to_string(), Value::Null), ("b".to_string(), Value::Null)],
    };
    assert!(good.has_distinct_keys());
    let bad = Params {
        entries: vec![
            ("a".to_string(), Value::Null),
            ("b".to_string(), Value::Null),
            ("a".to_string(), Value::Bool(true)),
        ],
    };
    assert!(!bad.has_distinct_keys());
    assert!(Params { entries: Vec::new() }.has_distinct_keys());

    let req = parse_request_impl(r#"{"jsonrpc":"2.0","id":1,"method":"m","params":{"x":1,"y":2}}"#)
        .unwrap();
    assert!(req.is_well_formed());
    let odd = JsonRpcRequest {
        jsonrpc: "2.0".to_string(),
        id: RequestId::Null,
        method: "m".to_string(),
        params: Some(bad),
    };
    assert!(!odd.is_well_formed());
    let bare = JsonRpcRequest {
        jsonrpc: "2.0".to_string(),
        id: RequestId::Null,
        method: "m".to_string(),
        params: None,
    };
    assert!(bare.is_well_formed());
}
