use mcp_dispatch::json::{Json, Member};
use mcp_dispatch::ser::json_to_bytes;
use mcp_dispatch::codec::{encode_response, decode_response};
use mcp_dispatch::rpc_model::{create_success_response, create_error_response};
use mcp_dispatch::server::{ExecutionPath, Outcome, Server};

fn obj(pairs: Vec<(&str, Json)>) -> Json {
    let mut ms = Vec::new();
    for (k, v) in pairs {
        ms.push(Member { key: k.to_string(), value: v });
    }
    Json::Obj(ms)
}

#[test]
fn encode_success_then_decode_gives_back_id_and_result() {
    let id = Json::Int(1);
    let result = obj(vec![
        ("answer", Json::Int(42)),
        ("items", Json::Arr(vec![Json::Bool(true), Json::Null])),
        ("label", Json::Str("done".to_string())),
    ]);
    let id_bytes = json_to_bytes(&id);
    let result_bytes = json_to_bytes(&result);

    let response = create_success_response(id, result);
    let wire = encode_response(response);

    let decoded = decode_response(&wire).expect("the encoding must decode");
    assert_eq!(json_to_bytes(&decoded.id), id_bytes);
    let back = decoded.result.expect("a result member");
    assert_eq!(json_to_bytes(&back), result_bytes);
    assert!(decoded.error.is_none());
}

#[test]
fn encode_with_string_id_round_trips() {
    let id = Json::Str("abc-7".to_string());
    let result = Json::Arr(vec![Json::Int(-3), Json::Str("x\"y\\z".to_string())]);
    let id_bytes = json_to_bytes(&id);
    let result_bytes = json_to_bytes(&result);

    let wire = encode_response(create_success_response(id, result));
    let decoded = decode_response(&wire).expect("the encoding must decode");
    assert_eq!(json_to_bytes(&decoded.id), id_bytes);
    assert_eq!(json_to_bytes(&decoded.result.expect("a result member")), result_bytes);
}

#[test]
fn encode_error_then_decode_gives_back_id_and_error() {
    let wire = encode_response(create_error_response(
        Some(Json::Int(9)),
        -32601,
        "Method not found: nope".to_string(),
    ));
    assert_eq!(
        wire,
        br#"{"jsonrpc":"2.0","id":9,"error":{"code":-32601,"message":"Method not found: nope"}}"#.to_vec()
    );
    let decoded = decode_response(&wire).expect("the encoding must decode");
    assert_eq!(json_to_bytes(&decoded.id), b"9".to_vec());
    assert!(decoded.result.is_none());
    let err = decoded.error.expect("an error member");
    assert_eq!(
        json_to_bytes(&err),
        br#"{"code":-32601,"message":"Method not found: nope"}"#.to_vec()
    );
}

#[test]
fn decode_response_rejects_bytes_without_an_id() {
    assert!(decode_response(br#"{"jsonrpc":"2.0","result":1}"#).is_none());
    assert!(decode_response(b"not json").is_none());
    assert!(decode_response(b"[1,2]").is_none());
}

#[test]
fn serializer_renders_each_kind_exactly() {
    assert_eq!(json_to_bytes(&Json::Null), b"null".to_vec());
    assert_eq!(json_to_bytes(&Json::Bool(true)), b"true".to_vec());
    assert_eq!(json_to_bytes(&Json::Bool(false)), b"false".to_vec());
    assert_eq!(json_to_bytes(&Json::Int(0)), b"0".to_vec());
    assert_eq!(json_to_bytes(&Json::Int(-120450)), b"-120450".to_vec());
    assert_eq!(json_to_bytes(&Json::Int(i64::MIN)), b"-9223372036854775808".to_vec());
    assert_eq!(
        json_to_bytes(&Json::Str("a\"b\\c\nd\u{e9}".to_string())),
        br#""a\"b\\c\u000ad\u00e9""#.to_vec()
    );
    assert_eq!(
        json_to_bytes(&Json::Str("\u{1F600}".to_string())),
        br#""\ud83d\ude00""#.to_vec()
    );
    assert_eq!(
        json_to_bytes(&Json::Arr(vec![Json::Int(1), Json::Int(2)])),
        b"[1,2]".to_vec()
    );
    assert_eq!(json_to_bytes(&Json::Arr(vec![])), b"[]".to_vec());
    assert_eq!(json_to_bytes(&obj(vec![])), b"{}".to_vec());
    assert_eq!(
        json_to_bytes(&obj(vec![("a", Json::Int(1)), ("b", Json::Null)])),
        br#"{"a":1,"b":null}"#.to_vec()
    );
}

#[test]
fn parser_feeds_the_model_not_its_input() {
    // A float argument is a number the tool's integer domain rejects; if the
    // parse wrapper handed bytes through unchanged this would not be told
    // apart from the integer case.
    let body =
        br#"{"jsonrpc":"2.0","id":1,"method":"tools/call","params":{"name":"add","arguments":{"a":2.5,"b":3}}}"#;
    let out = Server {}.handle(ExecutionPath::Authoritative, body);
    match out {
        Outcome::Answered(r) => {
            let e = r.error.expect("an error object");
            assert_eq!(e.code, -32602);
        },
        _ => panic!("expected an answered outcome"),
    }
}
