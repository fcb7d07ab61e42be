use mcp_client_rs::{
    ClientError, EngineState, Json, JsonRpcResponse, Protocol, ServerCapability,
    ToolResponseContent,
};

const HANDSHAKE_REPLY: &str = r#"{"jsonrpc":"2.0","id":0,"result":{"protocolVersion":"0","capabilities":{"tools":{"supportsStreaming":false}},"serverInfo":{"name":"x","version":"1"}}}"#;

fn ready_engine(reply: &str) -> Protocol {
    let mut engine = Protocol::new();
    let request = engine.initialize("0");
    assert_eq!(request.id, 0);
    engine.receive_initialize(reply).expect("handshake");
    engine
}

fn response(line: &str) -> JsonRpcResponse {
    JsonRpcResponse::decode(line).expect("response envelope")
}

#[test]
fn handshake_request_line() {
    let mut engine = Protocol::new();
    assert_eq!(engine.state(), EngineState::Uninitialized);
    let request = engine.initialize("0");
    assert_eq!(engine.state(), EngineState::Initializing);
    assert_eq!(
        request.encode(),
        r#"{"jsonrpc":"2.0","id":0,"method":"initialize","params":{"protocolVersion":"0","capabilities":{},"clientInfo":{"name":"test","version":"0.1.0"}}}"#
    );
}

#[test]
fn handshake_scenario() {
    let engine = ready_engine(HANDSHAKE_REPLY);
    assert_eq!(engine.state(), EngineState::Ready);
    assert!(engine.capable(ServerCapability::Tools));
    assert!(!engine.capable(ServerCapability::Prompts));
    assert!(!engine.capable(ServerCapability::Resources));
    let caps = engine.get_capabilities().unwrap();
    assert!(!caps.tools.as_ref().unwrap().supports_streaming);
    let info = engine.server_info().unwrap();
    assert_eq!(info.name, "x");
    assert_eq!(info.version, "1");
}

#[test]
fn nothing_is_capable_before_the_handshake() {
    let mut engine = Protocol::new();
    for c in [
        ServerCapability::Experimental,
        ServerCapability::Logging,
        ServerCapability::Prompts,
        ServerCapability::Resources,
        ServerCapability::Tools,
        ServerCapability::Sampling,
    ] {
        assert!(!engine.capable(c));
    }
    assert!(engine.get_capabilities().is_none());
    assert!(matches!(engine.list_tools(), Err(ClientError::CapabilityError(_))));
    assert_eq!(engine.next_id(), 0);
}

#[test]
fn tool_call_scenario() {
    let mut engine = ready_engine(HANDSHAKE_REPLY);
    let arguments = Json::parse(r#"{"query":"rust"}"#).unwrap();
    let request = engine.call_tool("search_repositories", arguments).unwrap();
    assert_eq!(request.id, 1);
    assert_eq!(
        request.encode(),
        r#"{"jsonrpc":"2.0","id":1,"method":"tools/call","params":{"name":"search_repositories","arguments":{"query":"rust"}}}"#
    );
    let reply = response(
        r#"{"jsonrpc":"2.0","id":1,"result":{"content":[{"type":"text","text":"rust-lang/rust \u00e9 \"quoted\""}]}}"#,
    );
    let result = Protocol::call_tool_result(&reply).unwrap();
    assert_eq!(result.content.len(), 1);
    match &result.content[0] {
        ToolResponseContent::Text { text } => assert_eq!(text, "rust-lang/rust \u{e9} \"quoted\""),
        other => panic!("unexpected content {:?}", other),
    }
    assert_eq!(result.is_error, None);
}

#[test]
fn error_scenario_per_family() {
    let line = r#"{"jsonrpc":"2.0","id":1,"error":{"code":-32601,"message":"method not found"}}"#;
    let reply = response(line);
    match Protocol::call_tool_result(&reply) {
        Err(ClientError::ToolError(m)) => assert!(m.contains("method not found")),
        other => panic!("unexpected {:?}", other),
    }
    match Protocol::list_tools_result(&reply) {
        Err(ClientError::ToolError(m)) => assert_eq!(m, "tools/list: method not found"),
        other => panic!("unexpected {:?}", other),
    }
    match Protocol::list_resources_result(&reply) {
        Err(ClientError::ResourceError(m)) => assert!(m.contains("method not found")),
        other => panic!("unexpected {:?}", other),
    }
    match Protocol::read_resources_result(&reply) {
        Err(ClientError::ResourceError(m)) => assert!(m.contains("method not found")),
        other => panic!("unexpected {:?}", other),
    }
    match Protocol::list_prompts_result(&reply) {
        Err(ClientError::PromptError(m)) => assert!(m.contains("method not found")),
        other => panic!("unexpected {:?}", other),
    }
}

#[test]
fn malformed_line_scenario() {
    match JsonRpcResponse::decode("this is not json") {
        Err(ClientError::ProtocolError(m)) => assert!(m.starts_with("Failed to parse response")),
        other => panic!("unexpected {:?}", other),
    }
    assert!(matches!(JsonRpcResponse::decode(""), Err(ClientError::ProtocolError(_))));
    assert!(matches!(
        JsonRpcResponse::decode(r#"{"jsonrpc":"2.0","id":1,"result":"#),
        Err(ClientError::ProtocolError(_))
    ));
}

#[test]
fn missing_capability_issues_nothing() {
    let mut engine = ready_engine(HANDSHAKE_REPLY);
    match engine.list_resources() {
        Err(ClientError::CapabilityError(m)) => {
            assert_eq!(m, "Server does not support Resources capability")
        }
        other => panic!("unexpected {:?}", other),
    }
    assert!(matches!(
        engine.read_resources(vec!["file:///a".to_string()]),
        Err(ClientError::CapabilityError(_))
    ));
    match engine.list_prompts() {
        Err(ClientError::CapabilityError(m)) => {
            assert_eq!(m, "Server does not support Prompts capability")
        }
        other => panic!("unexpected {:?}", other),
    }
    // No id was spent on the refused calls.
    assert_eq!(engine.list_tools().unwrap().id, 1);
}

#[test]
fn ids_increase_across_failures() {
    let mut engine = ready_engine(HANDSHAKE_REPLY);
    let mut ids = Vec::new();
    for round in 0..5 {
        let _ = engine.list_prompts();
        if round % 2 == 0 {
            ids.push(engine.list_tools().unwrap().id);
        } else {
            ids.push(engine.call_tool("t", Json::Null).unwrap().id);
        }
    }
    assert_eq!(ids, vec![1, 2, 3, 4, 5]);
    assert_eq!(engine.next_id(), 6);
}

#[test]
fn failed_handshake_on_error_envelope() {
    let mut engine = Protocol::new();
    engine.initialize("0");
    let r = engine.receive_initialize(
        r#"{"jsonrpc":"2.0","id":0,"error":{"code":-32600,"message":"bad version"}}"#,
    );
    match r {
        Err(ClientError::InitializationFailed(m)) => assert_eq!(m, "initialize: bad version"),
        other => panic!("unexpected {:?}", other),
    }
    assert_eq!(engine.state(), EngineState::Failed);
    assert!(!engine.capable(ServerCapability::Tools));
}

#[test]
fn failed_handshake_on_malformed_line() {
    let mut engine = Protocol::new();
    engine.initialize("0");
    assert!(matches!(
        engine.receive_initialize("{not json"),
        Err(ClientError::InitializationFailed(_))
    ));
    assert_eq!(engine.state(), EngineState::Failed);
}

#[test]
fn failed_handshake_on_bad_result_shape() {
    let mut engine = Protocol::new();
    engine.initialize("0");
    let r = engine.receive_initialize(
        r#"{"jsonrpc":"2.0","id":0,"result":{"protocolVersion":"0","capabilities":{"prompts":{}},"serverInfo":{"name":"x","version":"1"}}}"#,
    );
    match r {
        Err(ClientError::InitializationFailed(m)) => {
            assert_eq!(m, "initialize: unexpected result")
        }
        other => panic!("unexpected {:?}", other),
    }
    assert_eq!(engine.state(), EngineState::Failed);
}

#[test]
fn full_capabilities_are_read() {
    let engine = ready_engine(
        r#"{"jsonrpc":"2.0","id":0,"result":{"protocolVersion":"2024-11-05","capabilities":{"experimental":{"x":1},"logging":{"levels":["info","debug"]},"prompts":{"supportsCustom":true},"resources":{"supportsSubscribe":true,"supportsDelta":false},"tools":{},"sampling":{"maxTokens":512,"supportedMethods":["createMessage"]}},"serverInfo":{"name":"s","version":"2"},"_meta":{"k":"v"}}}"#,
    );
    for c in [
        ServerCapability::Experimental,
        ServerCapability::Logging,
        ServerCapability::Prompts,
        ServerCapability::Resources,
        ServerCapability::Tools,
        ServerCapability::Sampling,
    ] {
        assert!(engine.capable(c));
    }
    let caps = engine.get_capabilities().unwrap();
    assert_eq!(caps.logging.as_ref().unwrap().levels, vec!["info", "debug"]);
    assert!(caps.prompts.as_ref().unwrap().supports_custom);
    assert!(caps.resources.as_ref().unwrap().supports_subscribe);
    assert!(!caps.resources.as_ref().unwrap().supports_delta);
    assert!(!caps.tools.as_ref().unwrap().supports_streaming);
    let sampling = caps.sampling.as_ref().unwrap();
    assert_eq!(sampling.max_tokens, Some(512));
    assert_eq!(sampling.supported_methods, vec!["createMessage"]);
}

#[test]
fn null_capability_is_not_offered() {
    let engine = ready_engine(
        r#"{"jsonrpc":"2.0","id":0,"result":{"protocolVersion":"0","capabilities":{"tools":null,"prompts":{"supportsCustom":false}},"serverInfo":{"name":"x","version":"1"}}}"#,
    );
    assert!(!engine.capable(ServerCapability::Tools));
    assert!(engine.capable(ServerCapability::Prompts));
}

#[test]
fn list_tools_reads_the_catalog() {
    let mut engine = ready_engine(HANDSHAKE_REPLY);
    let request = engine.list_tools().unwrap();
    assert_eq!(
        request.encode(),
        r#"{"jsonrpc":"2.0","id":1,"method":"tools/list","params":{}}"#
    );
    let reply = response(
        r#"{"jsonrpc":"2.0","id":1,"result":{"tools":[{"name":"a","description":"first","inputSchema":{"type":"object"}},{"name":"b","description":"second","inputSchema":null}]}}"#,
    );
    let list = Protocol::list_tools_result(&reply).unwrap();
    assert_eq!(list.tools.len(), 2);
    assert_eq!(list.tools[0].name, "a");
    assert_eq!(list.tools[1].description, "second");
    assert_eq!(list.tools[0].input_schema.to_text(), r#"{"type":"object"}"#);
    assert_eq!(list.tools[1].input_schema.to_text(), "null");
}

#[test]
fn list_tools_rejects_a_bad_catalog() {
    let reply = response(r#"{"jsonrpc":"2.0","id":1,"result":{"tools":[{"name":"a"}]}}"#);
    match Protocol::list_tools_result(&reply) {
        Err(ClientError::ToolError(m)) => assert_eq!(m, "tools/list: unexpected result"),
        other => panic!("unexpected {:?}", other),
    }
}

#[test]
fn resources_and_prompts() {
    let mut engine = ready_engine(
        r#"{"jsonrpc":"2.0","id":0,"result":{"protocolVersion":"0","capabilities":{"resources":{"supportsSubscribe":false,"supportsDelta":false},"prompts":{"supportsCustom":false}},"serverInfo":{"name":"x","version":"1"}}}"#,
    );
    let list = engine.list_resources().unwrap();
    assert_eq!(
        list.encode(),
        r#"{"jsonrpc":"2.0","id":1,"method":"resources/list","params":{}}"#
    );
    let read = engine
        .read_resources(vec!["file:///a".to_string(), "file:///b".to_string()])
        .unwrap();
    assert_eq!(
        read.encode(),
        r#"{"jsonrpc":"2.0","id":2,"method":"resources/read","params":{"uris":["file:///a","file:///b"]}}"#
    );
    let prompts = engine.list_prompts().unwrap();
    assert_eq!(
        prompts.encode(),
        r#"{"jsonrpc":"2.0","id":3,"method":"prompts/list","params":{}}"#
    );
    let listed = Protocol::list_resources_result(&response(
        r#"{"jsonrpc":"2.0","id":1,"result":{"resources":[{"uri":"file:///a","type":"text"}],"nextCursor":"c2"}}"#,
    ))
    .unwrap();
    assert_eq!(listed.resources[0].uri, "file:///a");
    assert_eq!(listed.resources[0].resource_type, "text");
    assert_eq!(listed.next_cursor.as_deref(), Some("c2"));
    let contents = Protocol::read_resources_result(&response(
        r#"{"jsonrpc":"2.0","id":2,"result":{"contents":[{"uri":"file:///a","content":"hello"}]}}"#,
    ))
    .unwrap();
    assert_eq!(contents.contents[0].content, "hello");
    let found = Protocol::list_prompts_result(&response(
        r#"{"jsonrpc":"2.0","id":3,"result":[{"id":"p","description":"a prompt"}]}"#,
    ))
    .unwrap();
    assert_eq!(found.len(), 1);
    assert_eq!(found[0].id, "p");
    assert!(matches!(
        Protocol::list_prompts_result(&response(r#"{"jsonrpc":"2.0","id":3,"result":{}}"#)),
        Err(ClientError::PromptError(_))
    ));
}

#[test]
fn image_and_resource_content() {
    let reply = response(
        r#"{"jsonrpc":"2.0","id":1,"result":{"content":[{"type":"image","data":"AAAA","mimeType":"image/png"},{"type":"resource","resource":{"uri":"file:///r"}}],"isError":true}}"#,
    );
    let result = Protocol::call_tool_result(&reply).unwrap();
    assert_eq!(result.is_error, Some(true));
    match &result.content[0] {
        ToolResponseContent::Image { data, mime_type } => {
            assert_eq!(data, "AAAA");
            assert_eq!(mime_type, "image/png");
        }
        other => panic!("unexpected {:?}", other),
    }
    match &result.content[1] {
        ToolResponseContent::Resource { resource } => {
            assert_eq!(resource.uri, "file:///r");
            assert_eq!(resource.mime_type, None);
        }
        other => panic!("unexpected {:?}", other),
    }
    let unknown = response(r#"{"jsonrpc":"2.0","id":1,"result":{"content":[{"type":"audio"}]}}"#);
    assert!(matches!(Protocol::call_tool_result(&unknown), Err(ClientError::ToolError(_))));
}

#[test]
fn handshake_result_is_kept() {
    let engine = ready_engine(
        r#"{"jsonrpc":"2.0","id":0,"result":{"protocolVersion":"2024-11-05","capabilities":{},"serverInfo":{"name":"srv","version":"9"},"_meta":{"trace":"t"}}}"#,
    );
    let h = engine.handshake().unwrap();
    assert_eq!(h.protocol_version, "2024-11-05");
    assert_eq!(h.server_info.name, "srv");
    assert_eq!(h.meta.as_ref().unwrap().to_text(), r#"{"trace":"t"}"#);
    assert!(!engine.capable(ServerCapability::Tools));
}
