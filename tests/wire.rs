use mcp_client_rs::decimal::{decimal_text, parse_integer};
use mcp_client_rs::{
    ClientError, Json, JsonRpcRequest, JsonRpcResponse, RequestType, ResponseContent,
};

const ALL_METHODS: [(RequestType, &str); 14] = [
    (RequestType::Initialize, "initialize"),
    (RequestType::CallTool, "tools/call"),
    (RequestType::ResourcesUnsubscribe, "resources/unsubscribe"),
    (RequestType::ResourcesSubscribe, "resources/subscribe"),
    (RequestType::ResourcesRead, "resources/read"),
    (RequestType::ResourcesList, "resources/list"),
    (RequestType::LoggingSetLevel, "logging/setLevel"),
    (RequestType::PromptsGet, "prompts/get"),
    (RequestType::PromptsList, "prompts/list"),
    (RequestType::CompletionComplete, "completion/complete"),
    (RequestType::Ping, "ping"),
    (RequestType::ListTools, "tools/list"),
    (RequestType::ListResourceTemplates, "resources/templates/list"),
    (RequestType::ListRoots, "roots/list"),
];

#[test]
fn method_names_on_the_wire() {
    for (m, name) in ALL_METHODS {
        assert_eq!(m.as_str(), name);
        assert_eq!(RequestType::from_name(name), Some(m));
    }
    assert_eq!(RequestType::from_name("tools/lists"), None);
    assert_eq!(RequestType::from_name(""), None);
}

#[test]
fn request_round_trip_through_text() {
    for (m, _) in ALL_METHODS {
        let params = Json::parse(r#"{"a":{"s":"x\ny"},"b":[1,-2,true,null]}"#).unwrap();
        let request = JsonRpcRequest::new(18446744073709551615, m, params);
        let line = request.encode();
        let read = JsonRpcRequest::from_json(&Json::parse(&line).unwrap()).unwrap();
        assert_eq!(read.id, 18446744073709551615);
        assert_eq!(read.method, m);
        assert_eq!(read.params.to_text(), r#"{"a":{"s":"x\ny"},"b":[1,-2,true,null]}"#);
    }
}

#[test]
fn request_peer_refuses_bad_envelopes() {
    let bad = [
        r#"{"jsonrpc":"1.0","id":1,"method":"ping","params":{}}"#,
        r#"{"jsonrpc":"2.0","id":-1,"method":"ping","params":{}}"#,
        r#"{"jsonrpc":"2.0","id":1,"method":"pong","params":{}}"#,
        r#"{"jsonrpc":"2.0","id":1,"method":"ping"}"#,
        r#"[1,2]"#,
    ];
    for text in bad {
        assert!(JsonRpcRequest::from_json(&Json::parse(text).unwrap()).is_none(), "{}", text);
    }
}

#[test]
fn response_with_both_or_neither_shape_is_refused() {
    let both = r#"{"jsonrpc":"2.0","id":1,"result":{},"error":{"code":1,"message":"m"}}"#;
    let neither = r#"{"jsonrpc":"2.0","id":1}"#;
    assert!(matches!(JsonRpcResponse::decode(both), Err(ClientError::ProtocolError(_))));
    assert!(matches!(JsonRpcResponse::decode(neither), Err(ClientError::ProtocolError(_))));
}

#[test]
fn response_shapes_are_read() {
    let ok = JsonRpcResponse::decode(r#"{"jsonrpc":"2.0","id":7,"result":null}"#).unwrap();
    assert_eq!(ok.id, 7);
    assert_eq!(ok.jsonrpc, "2.0");
    assert!(matches!(ok.response, ResponseContent::Success { result: Json::Null }));
    let err = JsonRpcResponse::decode(
        r#"{"jsonrpc":"2.0","id":8,"error":{"code":-32601,"message":"method not found","data":{"d":1}}}"#,
    )
    .unwrap();
    match err.response {
        ResponseContent::Error { error } => {
            assert_eq!(error.code, -32601);
            assert_eq!(error.message, "method not found");
            assert_eq!(error.data.unwrap().to_text(), r#"{"d":1}"#);
        }
        other => panic!("unexpected {:?}", other),
    }
}

#[test]
fn response_with_bad_fields_is_refused() {
    let bad = [
        r#"{"id":1,"result":1}"#,
        r#"{"jsonrpc":"2.0","id":"1","result":1}"#,
        r#"{"jsonrpc":"2.0","id":1.5,"result":1}"#,
        r#"{"jsonrpc":"2.0","id":1,"error":{"code":2147483648,"message":"m"}}"#,
        r#"{"jsonrpc":"2.0","id":1,"error":{"code":1}}"#,
        r#""just a string""#,
    ];
    for text in bad {
        assert!(matches!(JsonRpcResponse::decode(text), Err(ClientError::ProtocolError(_))), "{}", text);
    }
}

#[test]
fn error_code_bounds() {
    let low = JsonRpcResponse::decode(
        r#"{"jsonrpc":"2.0","id":1,"error":{"code":-2147483648,"message":"m"}}"#,
    )
    .unwrap();
    match low.response {
        ResponseContent::Error { error } => assert_eq!(error.code, i32::MIN),
        other => panic!("unexpected {:?}", other),
    }
}

#[test]
fn strings_are_escaped() {
    let s = Json::Str("a\"b\\c\nd\u{1}".to_string());
    assert_eq!(s.to_text(), "\"a\\\"b\\\\c\\nd\\u0001\"");
    let nested = Json::Object(vec![
        ("k\"".to_string(), Json::Array(vec![Json::Bool(false), Json::Number("12".to_string())])),
        ("e".to_string(), Json::Object(vec![])),
    ]);
    assert_eq!(nested.to_text(), r#"{"k\"":[false,12],"e":{}}"#);
    assert_eq!(Json::Array(vec![]).to_text(), "[]");
}

#[test]
fn parse_keeps_numbers_as_text() {
    let v = Json::parse("[0, -7, 1.5, 12345678901234567890]").unwrap();
    assert_eq!(v.to_text(), "[0,-7,1.5,12345678901234567890]");
    match v {
        Json::Array(items) => {
            assert_eq!(items[0].as_u64(), Some(0));
            assert_eq!(items[1].as_u64(), None);
            assert_eq!(items[1].as_i32(), Some(-7));
            assert_eq!(items[2].as_u32(), None);
            assert_eq!(items[3].as_u64(), Some(12345678901234567890));
            assert_eq!(items[3].as_i32(), None);
        }
        other => panic!("unexpected {:?}", other),
    }
    assert!(Json::parse("[1,").is_err());
    assert!(Json::parse("1 2").is_err());
}

#[test]
fn deep_nesting_is_refused() {
    let deep = format!("{}{}", "[".repeat(300), "]".repeat(300));
    assert!(Json::parse(&deep).is_err());
}

#[test]
fn members_are_looked_up() {
    let v = Json::parse(r#"{"a":"x","b":true,"c":null}"#).unwrap();
    assert_eq!(v.get_str("a"), Some("x".to_string()));
    assert_eq!(v.get_str("b"), None);
    assert_eq!(v.get_bool("b"), Some(true));
    assert!(v.lacks("c"));
    assert!(v.lacks("d"));
    assert!(!v.lacks("a"));
    assert!(v.get("d").is_none());
    assert_eq!(v.get_opt_str("c"), Some(None));
    assert_eq!(v.get_opt_str("b"), None);
}

#[test]
fn decimal_text_and_back() {
    assert_eq!(decimal_text(0), "0");
    assert_eq!(decimal_text(1234567890), "1234567890");
    assert_eq!(decimal_text(u64::MAX), "18446744073709551615");
    assert_eq!(parse_integer("18446744073709551615"), Some((false, u64::MAX)));
    assert_eq!(parse_integer("18446744073709551616"), None);
    assert_eq!(parse_integer("-42"), Some((true, 42)));
    assert_eq!(parse_integer("-"), None);
    assert_eq!(parse_integer("4x"), None);
    assert_eq!(parse_integer(""), None);
}

#[test]
fn from_serde_value() {
    let value: serde_json::Value = serde_json::from_str(r#"{"q":[1,"two",{"t":false}]}"#).unwrap();
    let j = Json::from_value(value);
    assert_eq!(j.to_text(), r#"{"q":[1,"two",{"t":false}]}"#);
}
