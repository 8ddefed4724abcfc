use mcp_dispatch::handler::{classify, CallClassification};
use mcp_dispatch::server::{ExecutionPath, Outcome, Server, route_accepts};
use mcp_dispatch::codec::encode_response;

fn answered_bytes(o: Outcome) -> Vec<u8> {
    match o {
        Outcome::Answered(r) => encode_response(r),
        other => panic!("expected an answered outcome, got {}", outcome_name(&other)),
    }
}

fn rejected_bytes(o: Outcome) -> Vec<u8> {
    match o {
        Outcome::Rejected(r) => encode_response(r),
        other => panic!("expected a rejected outcome, got {}", outcome_name(&other)),
    }
}

fn outcome_name(o: &Outcome) -> &'static str {
    match o {
        Outcome::Answered(_) => "Answered",
        Outcome::Upgrade => "Upgrade",
        Outcome::Ack => "Ack",
        Outcome::Rejected(_) => "Rejected",
    }
}

#[test]
fn classification_table() {
    assert!(classify("tools/call") == CallClassification::RequiresUpgrade);
    assert!(classify("initialize") == CallClassification::Direct);
    assert!(classify("tools/list") == CallClassification::Direct);
    assert!(classify("foo") == CallClassification::Unknown);
    assert!(classify("") == CallClassification::Unknown);
    assert!(classify("tools/Call") == CallClassification::Unknown);
}

#[test]
fn valid_call_on_authoritative_path() {
    let body =
        br#"{"jsonrpc":"2.0","id":1,"method":"tools/call","params":{"name":"add","arguments":{"a":2,"b":3}}}"#;
    let out = Server {}.handle(ExecutionPath::Authoritative, body);
    let bytes = answered_bytes(out);
    assert_eq!(
        bytes,
        br#"{"jsonrpc":"2.0","id":1,"result":{"content":[{"type":"text","text":"The sum of 2 and 3 is 5"}],"isError":false}}"#.to_vec()
    );
}

#[test]
fn call_with_negative_numbers() {
    let body =
        br#"{"jsonrpc":"2.0","id":9,"method":"tools/call","params":{"name":"add","arguments":{"a":-5,"b":3}}}"#;
    let out = Server {}.handle(ExecutionPath::Authoritative, body);
    let bytes = answered_bytes(out);
    assert_eq!(
        bytes,
        br#"{"jsonrpc":"2.0","id":9,"result":{"content":[{"type":"text","text":"The sum of -5 and 3 is -2"}],"isError":false}}"#.to_vec()
    );
}

#[test]
fn missing_argument_is_invalid_params() {
    let body =
        br#"{"jsonrpc":"2.0","id":1,"method":"tools/call","params":{"name":"add","arguments":{"a":2}}}"#;
    let out = Server {}.handle(ExecutionPath::Authoritative, body);
    match out {
        Outcome::Answered(r) => {
            assert!(r.result.is_none());
            let e = r.error.expect("an error object");
            assert_eq!(e.code, -32602);
            assert_eq!(e.message, "Missing argument 'b'");
        },
        other => panic!("expected an answered outcome, got {}", outcome_name(&other)),
    }
}

#[test]
fn non_numeric_argument_is_invalid_params() {
    let body =
        br#"{"jsonrpc":"2.0","id":1,"method":"tools/call","params":{"name":"add","arguments":{"a":"2","b":3}}}"#;
    let out = Server {}.handle(ExecutionPath::Authoritative, body);
    let bytes = answered_bytes(out);
    assert_eq!(
        bytes,
        br#"{"jsonrpc":"2.0","id":1,"error":{"code":-32602,"message":"Argument 'a' must be a number"}}"#.to_vec()
    );
}

#[test]
fn unknown_tool_name_is_invalid_params() {
    let body =
        br#"{"jsonrpc":"2.0","id":4,"method":"tools/call","params":{"name":"concat","arguments":{"a":2,"b":3}}}"#;
    let out = Server {}.handle(ExecutionPath::Authoritative, body);
    let bytes = answered_bytes(out);
    assert_eq!(
        bytes,
        br#"{"jsonrpc":"2.0","id":4,"error":{"code":-32602,"message":"Unknown tool name: concat"}}"#.to_vec()
    );
}

#[test]
fn unknown_method_with_id_on_cheap_path() {
    let body = br#"{"jsonrpc":"2.0","id":"x","method":"foo"}"#;
    let out = Server {}.handle(ExecutionPath::Cheap, body);
    let bytes = answered_bytes(out);
    assert_eq!(
        bytes,
        br#"{"jsonrpc":"2.0","id":"x","error":{"code":-32601,"message":"Method not found: foo"}}"#.to_vec()
    );
}

#[test]
fn malformed_body_is_parse_error() {
    let out = Server {}.handle(ExecutionPath::Cheap, b"not json");
    let bytes = rejected_bytes(out);
    assert_eq!(
        bytes,
        br#"{"jsonrpc":"2.0","id":null,"error":{"code":-32700,"message":"Parse error"}}"#.to_vec()
    );
}

#[test]
fn notification_on_cheap_path_is_acknowledged() {
    let body = br#"{"jsonrpc":"2.0","method":"notifications/initialized"}"#;
    let out = Server {}.handle(ExecutionPath::Cheap, body);
    assert!(matches!(out, Outcome::Ack));
}

#[test]
fn unknown_notification_is_still_acknowledged() {
    let body = br#"{"jsonrpc":"2.0","method":"no/such/thing"}"#;
    let out = Server {}.handle(ExecutionPath::Cheap, body);
    assert!(matches!(out, Outcome::Ack));
}

#[test]
fn notification_on_authoritative_path_is_rejected() {
    let body = br#"{"jsonrpc":"2.0","method":"notifications/initialized"}"#;
    let out = Server {}.handle(ExecutionPath::Authoritative, body);
    let bytes = rejected_bytes(out);
    assert_eq!(
        bytes,
        br#"{"jsonrpc":"2.0","id":null,"error":{"code":-32600,"message":"Invalid Request"}}"#.to_vec()
    );
}

#[test]
fn mutating_method_on_cheap_path_only_upgrades() {
    let body =
        br#"{"jsonrpc":"2.0","id":1,"method":"tools/call","params":{"name":"add","arguments":{"a":2,"b":3}}}"#;
    let out = Server {}.handle(ExecutionPath::Cheap, body);
    assert!(matches!(out, Outcome::Upgrade));
}

#[test]
fn direct_method_on_authoritative_path_is_rejected() {
    let body = br#"{"jsonrpc":"2.0","id":2,"method":"tools/list"}"#;
    let out = Server {}.handle(ExecutionPath::Authoritative, body);
    let bytes = rejected_bytes(out);
    assert_eq!(
        bytes,
        br#"{"jsonrpc":"2.0","id":2,"error":{"code":-32600,"message":"Invalid method for this path"}}"#.to_vec()
    );
}

#[test]
fn unknown_method_on_authoritative_path_is_rejected() {
    let body = br#"{"jsonrpc":"2.0","id":2,"method":"foo"}"#;
    let out = Server {}.handle(ExecutionPath::Authoritative, body);
    let bytes = rejected_bytes(out);
    assert_eq!(
        bytes,
        br#"{"jsonrpc":"2.0","id":2,"error":{"code":-32600,"message":"Invalid method for this path"}}"#.to_vec()
    );
}

#[test]
fn tools_list_returns_the_static_catalog() {
    let body = br#"{"jsonrpc":"2.0","id":3,"method":"tools/list"}"#;
    let out = Server {}.handle(ExecutionPath::Cheap, body);
    let bytes = answered_bytes(out);
    assert_eq!(
        bytes,
        br#"{"jsonrpc":"2.0","id":3,"result":{"tools":[{"name":"add","description":"Adds two numbers (a and b)","inputSchema":{"type":"object","properties":{"a":{"type":"number","description":"The first number"},"b":{"type":"number","description":"The second number"}},"required":["a","b"]}}]}}"#.to_vec()
    );
}

#[test]
fn initialize_returns_the_static_identity() {
    let body =
        br#"{"jsonrpc":"2.0","id":5,"method":"initialize","params":{"protocolVersion":"2025-03-26","capabilities":{}}}"#;
    let out = Server {}.handle(ExecutionPath::Cheap, body);
    let bytes = answered_bytes(out);
    assert_eq!(
        bytes,
        br#"{"jsonrpc":"2.0","id":5,"result":{"protocolVersion":"2025-03-26","capabilities":{"tools":{}},"serverInfo":{"name":"MinimalRustMCPServer","version":"0.1.0"},"instructions":"Welcome to the minimal MCP server!"}}"#.to_vec()
    );
}

#[test]
fn initialize_without_params_is_invalid_params() {
    let body = br#"{"jsonrpc":"2.0","id":5,"method":"initialize"}"#;
    let out = Server {}.handle(ExecutionPath::Cheap, body);
    let bytes = answered_bytes(out);
    assert_eq!(
        bytes,
        br#"{"jsonrpc":"2.0","id":5,"error":{"code":-32602,"message":"Missing initialize params"}}"#.to_vec()
    );
}

#[test]
fn initialize_with_bad_params_is_invalid_params() {
    let body =
        br#"{"jsonrpc":"2.0","id":5,"method":"initialize","params":{"protocolVersion":7,"capabilities":{}}}"#;
    let out = Server {}.handle(ExecutionPath::Cheap, body);
    let bytes = answered_bytes(out);
    assert_eq!(
        bytes,
        br#"{"jsonrpc":"2.0","id":5,"error":{"code":-32602,"message":"Invalid initialize params"}}"#.to_vec()
    );
}

#[test]
fn null_id_is_still_a_request() {
    let body = br#"{"jsonrpc":"2.0","id":null,"method":"foo"}"#;
    let out = Server {}.handle(ExecutionPath::Cheap, body);
    let bytes = answered_bytes(out);
    assert_eq!(
        bytes,
        br#"{"jsonrpc":"2.0","id":null,"error":{"code":-32601,"message":"Method not found: foo"}}"#.to_vec()
    );
}

#[test]
fn wrong_protocol_tag_is_parse_error() {
    let body = br#"{"jsonrpc":"1.0","id":1,"method":"tools/list"}"#;
    let out = Server {}.handle(ExecutionPath::Cheap, body);
    let bytes = rejected_bytes(out);
    assert_eq!(
        bytes,
        br#"{"jsonrpc":"2.0","id":null,"error":{"code":-32700,"message":"Parse error"}}"#.to_vec()
    );
}

#[test]
fn composite_id_is_parse_error() {
    let body = br#"{"jsonrpc":"2.0","id":[1],"method":"tools/list"}"#;
    let out = Server {}.handle(ExecutionPath::Cheap, body);
    assert!(matches!(out, Outcome::Rejected(_)));
}

#[test]
fn id_type_is_preserved_between_string_and_number() {
    let as_number = br#"{"jsonrpc":"2.0","id":7,"method":"tools/list"}"#;
    let as_string = br#"{"jsonrpc":"2.0","id":"7","method":"tools/list"}"#;
    let n = answered_bytes(Server {}.handle(ExecutionPath::Cheap, as_number));
    let s = answered_bytes(Server {}.handle(ExecutionPath::Cheap, as_string));
    assert!(n.starts_with(br#"{"jsonrpc":"2.0","id":7,"#));
    assert!(s.starts_with(br#"{"jsonrpc":"2.0","id":"7","#));
}

#[test]
fn method_text_is_escaped_in_error_messages() {
    let body = "{\"jsonrpc\":\"2.0\",\"id\":1,\"method\":\"f\\\"o\"}".as_bytes();
    let out = Server {}.handle(ExecutionPath::Cheap, body);
    let bytes = answered_bytes(out);
    assert_eq!(
        bytes,
        br#"{"jsonrpc":"2.0","id":1,"error":{"code":-32601,"message":"Method not found: f\"o"}}"#.to_vec()
    );
}

#[test]
fn non_ascii_method_is_escaped() {
    let body = r#"{"jsonrpc":"2.0","id":1,"method":"fö"}"#.as_bytes();
    let out = Server {}.handle(ExecutionPath::Cheap, body);
    let bytes = answered_bytes(out);
    assert_eq!(
        bytes,
        br#"{"jsonrpc":"2.0","id":1,"error":{"code":-32601,"message":"Method not found: f\u00f6"}}"#.to_vec()
    );
}

#[test]
fn route_accepts_only_post_to_mcp() {
    assert!(route_accepts("POST", "/mcp"));
    assert!(!route_accepts("GET", "/mcp"));
    assert!(!route_accepts("POST", "/"));
    assert!(!route_accepts("post", "/mcp"));
}

#[test]
fn duplicate_argument_keys_collapse_to_the_last() {
    let body =
        br#"{"jsonrpc":"2.0","id":1,"method":"tools/call","params":{"name":"add","arguments":{"a":1,"a":4,"b":3}}}"#;
    let out = Server {}.handle(ExecutionPath::Authoritative, body);
    let bytes = answered_bytes(out);
    assert_eq!(
        bytes,
        br#"{"jsonrpc":"2.0","id":1,"result":{"content":[{"type":"text","text":"The sum of 4 and 3 is 7"}],"isError":false}}"#.to_vec()
    );
}

#[test]
fn initialize_accepts_full_client_info() {
    let body = br#"{"jsonrpc":"2.0","id":6,"method":"initialize","params":{"protocolVersion":"2025-03-26","capabilities":{},"clientInfo":{"name":"probe","version":"1.2"}}}"#;
    let out = Server {}.handle(ExecutionPath::Cheap, body);
    assert!(matches!(out, Outcome::Answered(_)));
}

#[test]
fn initialize_rejects_client_info_without_name() {
    let body = br#"{"jsonrpc":"2.0","id":6,"method":"initialize","params":{"protocolVersion":"2025-03-26","capabilities":{},"clientInfo":{"version":"1.2"}}}"#;
    let out = Server {}.handle(ExecutionPath::Cheap, body);
    let bytes = answered_bytes(out);
    assert_eq!(
        bytes,
        br#"{"jsonrpc":"2.0","id":6,"error":{"code":-32602,"message":"Invalid initialize params"}}"#.to_vec()
    );
}

#[test]
fn extra_envelope_members_are_ignored() {
    let body = br#"{"jsonrpc":"2.0","id":8,"method":"tools/list","extra":true}"#;
    let out = Server {}.handle(ExecutionPath::Cheap, body);
    assert!(matches!(out, Outcome::Answered(_)));
}
