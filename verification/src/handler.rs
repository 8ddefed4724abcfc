//! The method registry and the method handlers.
//!
//! Each method name carries a fixed classification — answerable on the
//! cheap path, or requiring the authoritative path — which the dispatcher
//! consults on both paths. The handlers are pure functions from parameters
//! to a result value or a protocol error.

use vstd::prelude::*;
use crate::json::{Json, JsonV, json_view, opt_json_view, spec_lookup, str_eq, str_json, obj2, obj3, arr2};
use crate::json::{Member, members_view, lookup_member, clone_json};
use crate::rpc_model::{JsonRpcRequest, JsonRpcError, ErrorV, METHOD_NOT_FOUND, INVALID_PARAMS,
    InitializeParams, ClientCapabilities, ClientInfo, InitializeResult, ServerCapabilities,
    ToolCapability, ServerInfo, Tool, ToolsListResult, CallParams, CallResult, ToolResultContent};
use crate::text::{int_chars, int_to_string};

verus! {

broadcast use vstd::std_specs::vec::group_vec_axioms, vstd::seq::group_seq_axioms;

/// The fixed classification of a method name.
#[derive(Clone, Copy, Debug, PartialEq, Eq, Structural)]
pub enum CallClassification {
    /// Answerable on the cheap path.
    Direct,
    /// Must run on the authoritative path.
    RequiresUpgrade,
    /// Not in the catalog.
    Unknown,
}

/// The classification table: `tools/call` mutates; `initialize` and
/// `tools/list` are read-only; everything else is unknown.
pub open spec fn spec_classify(m: Seq<char>) -> CallClassification {
    if m == "tools/call"@ {
        CallClassification::RequiresUpgrade
    } else if m == "initialize"@ || m == "tools/list"@ {
        CallClassification::Direct
    } else {
        CallClassification::Unknown
    }
}

/// Looks a method name up in the classification table.
pub fn classify(method: &str) -> (c: CallClassification)
    ensures
        c == spec_classify(method@),
{
    if str_eq(method, "tools/call") {
        CallClassification::RequiresUpgrade
    } else if str_eq(method, "initialize") {
        CallClassification::Direct
    } else if str_eq(method, "tools/list") {
        CallClassification::Direct
    } else {
        CallClassification::Unknown
    }
}

/// The views of a handler result.
pub open spec fn result_view(r: Result<Json, JsonRpcError>) -> Result<JsonV, ErrorV> {
    match r {
        Ok(j) => Ok(json_view(j)),
        Err(e) => Err(e@),
    }
}

/// An invalid-params error with the given message.
pub open spec fn invalid_params_v(msg: Seq<char>) -> ErrorV {
    ErrorV { code: INVALID_PARAMS as int, message: msg, data: None }
}

/// A method-not-found error naming the method.
pub open spec fn method_not_found_v(m: Seq<char>) -> ErrorV {
    ErrorV { code: METHOD_NOT_FOUND as int, message: "Method not found: "@ + m, data: None }
}

fn invalid_params(msg: &str) -> (e: JsonRpcError)
    ensures
        e@ == invalid_params_v(msg@),
{
    JsonRpcError { code: INVALID_PARAMS, message: String::from_str(msg), data: None }
}

// ---- initialize ----

/// Parameters of `initialize` have the declared shape: a protocol version
/// string, a capabilities object, and optionally client information with a
/// name string and an optional version string.
pub open spec fn init_params_ok(j: JsonV) -> bool {
    match j {
        JsonV::Obj(ps) => {
            &&& spec_lookup(ps, "protocolVersion"@) matches Some(JsonV::Str(_))
            &&& spec_lookup(ps, "capabilities"@) matches Some(JsonV::Obj(_))
            &&& match spec_lookup(ps, "clientInfo"@) {
                None => true,
                Some(JsonV::Null) => true,
                Some(JsonV::Obj(cps)) => {
                    &&& spec_lookup(cps, "name"@) matches Some(JsonV::Str(_))
                    &&& match spec_lookup(cps, "version"@) {
                        None => true,
                        Some(JsonV::Null) => true,
                        Some(JsonV::Str(_)) => true,
                        Some(_) => false,
                    }
                },
                Some(_) => false,
            }
        },
        _ => false,
    }
}

/// The `initialize` result: protocol version, capabilities advertising
/// tools, the server identity, and a greeting.
pub open spec fn spec_initialize_result() -> JsonV {
    JsonV::Obj(
        seq![
            ("protocolVersion"@, JsonV::Str("2025-03-26"@)),
            ("capabilities"@, JsonV::Obj(seq![("tools"@, JsonV::Obj(Seq::empty()))])),
            (
                "serverInfo"@,
                JsonV::Obj(
                    seq![
                        ("name"@, JsonV::Str("MinimalRustMCPServer"@)),
                        ("version"@, JsonV::Str("0.1.0"@)),
                    ],
                ),
            ),
            ("instructions"@, JsonV::Str("Welcome to the minimal MCP server!"@)),
        ],
    )
}

/// What `initialize` returns: its result for well-shaped parameters, and an
/// invalid-params error for missing or mis-shaped ones.
pub open spec fn spec_initialize(p: Option<JsonV>) -> Result<JsonV, ErrorV> {
    match p {
        None => Err(invalid_params_v("Missing initialize params"@)),
        Some(j) => if init_params_ok(j) {
            Ok(spec_initialize_result())
        } else {
            Err(invalid_params_v("Invalid initialize params"@))
        },
    }
}

fn init_result_json() -> (r: Json)
    ensures
        json_view(r) == spec_initialize_result(),
{
    let result = InitializeResult {
        protocol_version: String::from_str("2025-03-26"),
        capabilities: ServerCapabilities { tools: Some(ToolCapability {  }) },
        server_info: ServerInfo {
            name: String::from_str("MinimalRustMCPServer"),
            version: String::from_str("0.1.0"),
        },
        instructions: Some(String::from_str("Welcome to the minimal MCP server!")),
    };
    let r = result.to_json();
    proof {
        assert(json_view(r)->Obj_0 =~= spec_initialize_result()->Obj_0);
    }
    r
}

/// Reads `initialize` parameters into their declared form; `None` exactly
/// when the shape is not the declared one.
fn parse_init_params(j: &Json) -> (r: Option<InitializeParams>)
    ensures
        (r is Some) == init_params_ok(json_view(*j)),
        match r {
            Some(p) => {
                &&& Some(JsonV::Str(p.protocol_version@)) == j.spec_get("protocolVersion"@)
                &&& match p.client_info {
                    Some(ci) => {
                        &&& j.spec_get("clientInfo"@) matches Some(JsonV::Obj(cps))
                        &&& spec_lookup(cps, "name"@) == Some(JsonV::Str(ci.name@))
                        &&& match ci.version {
                            Some(v) => spec_lookup(cps, "version"@) == Some(JsonV::Str(v@)),
                            None => !(spec_lookup(cps, "version"@) matches Some(JsonV::Str(_))),
                        }
                    },
                    None => match j.spec_get("clientInfo"@) {
                        None => true,
                        Some(cv) => cv is Null,
                    },
                }
            },
            None => true,
        },
{
    let protocol_version: String = match j.get("protocolVersion") {
        Some(v) => match v {
            Json::Str(s) => s.clone(),
            _ => {
                return None;
            },
        },
        None => {
            return None;
        },
    };
    match j.get("capabilities") {
        Some(v) => match v {
            Json::Obj(_) => {},
            _ => {
                return None;
            },
        },
        None => {
            return None;
        },
    }
    let client_info: Option<ClientInfo> = match j.get("clientInfo") {
        None => None,
        Some(ci) => match ci {
            Json::Null => None,
            Json::Obj(_) => {
                let name: String = match ci.get("name") {
                    Some(v) => match v {
                        Json::Str(s) => s.clone(),
                        _ => {
                            return None;
                        },
                    },
                    None => {
                        return None;
                    },
                };
                let version: Option<String> = match ci.get("version") {
                    None => None,
                    Some(v) => match v {
                        Json::Null => None,
                        Json::Str(s) => Some(s.clone()),
                        _ => {
                            return None;
                        },
                    },
                };
                Some(ClientInfo { name, version })
            },
            _ => {
                return None;
            },
        },
    };
    Some(
        InitializeParams {
            protocol_version,
            capabilities: ClientCapabilities {  },
            client_info,
        },
    )
}

/// Answers `initialize`: checks the parameter shape and returns the static
/// initialization result.
pub fn handle_initialize(params: &Option<Json>) -> (r: Result<Json, JsonRpcError>)
    ensures
        result_view(r) == spec_initialize(opt_json_view(*params)),
{
    let j = match params {
        Some(j) => j,
        None => {
            return Err(invalid_params("Missing initialize params"));
        },
    };
    match parse_init_params(j) {
        Some(_) => Ok(init_result_json()),
        None => Err(invalid_params("Invalid initialize params")),
    }
}

// ---- tools/list ----

/// The input schema the `add` tool declares: an object of two numeric
/// arguments, both required.
pub open spec fn spec_add_tool_schema() -> JsonV {
    JsonV::Obj(
        seq![
            ("type"@, JsonV::Str("object"@)),
            (
                "properties"@,
                JsonV::Obj(
                    seq![
                        (
                            "a"@,
                            JsonV::Obj(
                                seq![
                                    ("type"@, JsonV::Str("number"@)),
                                    ("description"@, JsonV::Str("The first number"@)),
                                ],
                            ),
                        ),
                        (
                            "b"@,
                            JsonV::Obj(
                                seq![
                                    ("type"@, JsonV::Str("number"@)),
                                    ("description"@, JsonV::Str("The second number"@)),
                                ],
                            ),
                        ),
                    ],
                ),
            ),
            ("required"@, JsonV::Arr(seq![JsonV::Str("a"@), JsonV::Str("b"@)])),
        ],
    )
}

/// The descriptor of the one registered tool, `add`.
pub open spec fn spec_add_tool() -> JsonV {
    JsonV::Obj(
        seq![
            ("name"@, JsonV::Str("add"@)),
            ("description"@, JsonV::Str("Adds two numbers (a and b)"@)),
            ("inputSchema"@, spec_add_tool_schema()),
        ],
    )
}

/// The `tools/list` result: the statically registered tools, in declaration
/// order, with no pagination cursor.
pub open spec fn spec_tools_list_result() -> JsonV {
    JsonV::Obj(seq![("tools"@, JsonV::Arr(seq![spec_add_tool()]))])
}

/// The input schema of the `add` tool: two numeric arguments, both
/// required.
fn add_tool_schema() -> (r: Json)
    ensures
        json_view(r) == spec_add_tool_schema(),
{
    let prop_a = obj2("type", str_json("number"), "description", str_json("The first number"));
    let prop_b = obj2("type", str_json("number"), "description", str_json("The second number"));
    let props = obj2("a", prop_a, "b", prop_b);
    let required = arr2(str_json("a"), str_json("b"));
    obj3("type", str_json("object"), "properties", props, "required", required)
}

/// The catalog: the one registered tool, in declaration order.
fn tool_catalog() -> (ts: Vec<Tool>)
    ensures
        ts@.len() == 1,
        ts@[0].spec_json() == spec_add_tool(),
{
    let add_tool = Tool {
        name: String::from_str("add"),
        description: String::from_str("Adds two numbers (a and b)"),
        input_schema: add_tool_schema(),
        annotations: None,
    };
    proof {
        assert(add_tool.spec_json()->Obj_0 =~= spec_add_tool()->Obj_0);
    }
    let mut ts: Vec<Tool> = Vec::new();
    ts.push(add_tool);
    ts
}

/// Answers `tools/list` with the static tool catalog.
pub fn handle_tools_list() -> (r: Result<Json, JsonRpcError>)
    ensures
        result_view(r) == Ok::<JsonV, ErrorV>(spec_tools_list_result()),
{
    let listing = ToolsListResult { tools: tool_catalog(), next_cursor: None };
    let ghost tools0 = listing.tools@;
    let j = listing.to_json();
    proof {
        assert(Seq::new(tools0.len(), |i: int| tools0[i].spec_json()) =~= seq![spec_add_tool()]);
        assert(json_view(j)->Obj_0 =~= spec_tools_list_result()->Obj_0);
    }
    Ok(j)
}

// ---- tools/call ----

/// The message of a successful `add` call.
pub open spec fn sum_text(a: int, b: int) -> Seq<char> {
    "The sum of "@ + int_chars(a) + " and "@ + int_chars(b) + " is "@ + int_chars(a + b)
}

/// The result of a successful `add` call: one text content item, no error.
pub open spec fn spec_call_result(a: int, b: int) -> JsonV {
    JsonV::Obj(
        seq![
            (
                "content"@,
                JsonV::Arr(
                    seq![
                        JsonV::Obj(
                            seq![
                                ("type"@, JsonV::Str("text"@)),
                                ("text"@, JsonV::Str(sum_text(a, b))),
                            ],
                        ),
                    ],
                ),
            ),
            ("isError"@, JsonV::Bool(false)),
        ],
    )
}

/// The error that rejects a tool name outside the catalog.
pub open spec fn unknown_tool_v(name: Seq<char>) -> ErrorV {
    ErrorV {
        code: INVALID_PARAMS as int,
        message: "Unknown tool name: "@ + name,
        data: None,
    }
}

/// What `tools/call` returns, for every parameter value: the sum text for a
/// call of `add` with two integer arguments, and the exact invalid-params
/// error otherwise.
pub open spec fn spec_tools_call(p: Option<JsonV>) -> Result<JsonV, ErrorV> {
    match p {
        None => Err(invalid_params_v("Missing tools/call params"@)),
        Some(j) => match j {
            JsonV::Obj(ps) => match (spec_lookup(ps, "name"@), spec_lookup(ps, "arguments"@)) {
                (Some(JsonV::Str(name)), Some(JsonV::Obj(args))) => if name != "add"@ {
                    Err(unknown_tool_v(name))
                } else {
                    match spec_lookup(args, "a"@) {
                        None => Err(invalid_params_v("Missing argument 'a'"@)),
                        Some(JsonV::Int(a)) => match spec_lookup(args, "b"@) {
                            None => Err(invalid_params_v("Missing argument 'b'"@)),
                            Some(JsonV::Int(b)) => Ok(spec_call_result(a, b)),
                            Some(_) => Err(invalid_params_v("Argument 'b' must be a number"@)),
                        },
                        Some(_) => Err(invalid_params_v("Argument 'a' must be a number"@)),
                    }
                },
                _ => Err(invalid_params_v("Invalid tools/call params"@)),
            },
            _ => Err(invalid_params_v("Invalid tools/call params"@)),
        },
    }
}

fn sum_text_string(a: i64, b: i64) -> (s: String)
    ensures
        s@ == sum_text(a as int, b as int),
{
    let mut s = String::from_str("The sum of ");
    let sa = int_to_string(a as i128);
    s.append(sa.as_str());
    s.append(" and ");
    let sb = int_to_string(b as i128);
    s.append(sb.as_str());
    s.append(" is ");
    let sum: i128 = a as i128 + b as i128;
    let ss = int_to_string(sum);
    s.append(ss.as_str());
    proof {
        assert(s@ =~= sum_text(a as int, b as int));
    }
    s
}

/// Reads `tools/call` parameters into their declared form: a tool name
/// string and an arguments object. `None` exactly when that shape is
/// missing.
fn parse_call_params(j: &Json) -> (r: Option<CallParams>)
    ensures
        match r {
            Some(p) => {
                &&& j.spec_get("name"@) == Some(JsonV::Str(p.name@))
                &&& j.spec_get("arguments"@) == Some(JsonV::Obj(members_view(p.arguments@)))
            },
            None => !{
                &&& j.spec_get("name"@) matches Some(JsonV::Str(_))
                &&& j.spec_get("arguments"@) matches Some(JsonV::Obj(_))
            },
        },
{
    let name: String = match j.get("name") {
        Some(v) => match v {
            Json::Str(s) => s.clone(),
            _ => {
                return None;
            },
        },
        None => {
            return None;
        },
    };
    let args: &Json = match j.get("arguments") {
        Some(v) => match v {
            Json::Obj(_) => v,
            _ => {
                return None;
            },
        },
        None => {
            return None;
        },
    };
    let cloned = clone_json(args);
    let arguments: Vec<Member> = match cloned {
        Json::Obj(ms) => ms,
        _ => {
            proof {
                assert(false);
            }
            Vec::new()
        },
    };
    Some(CallParams { name, arguments })
}

/// Runs the `add` tool over its validated arguments and wraps the text as
/// one content item; a domain error would be flagged in the result, never
/// raised as a protocol error.
fn run_add_tool(a: i64, b: i64) -> (r: Json)
    ensures
        json_view(r) == spec_call_result(a as int, b as int),
{
    let text = sum_text_string(a, b);
    let mut content: Vec<ToolResultContent> = Vec::new();
    content.push(ToolResultContent::Text { text });
    let result = CallResult { content, is_error: false };
    let ghost content0 = result.content@;
    let r = result.to_json();
    proof {
        assert(Seq::new(content0.len(), |i: int| content0[i].spec_json()) =~= seq![
            content0[0].spec_json(),
        ]);
        assert(content0[0].spec_json()->Obj_0 =~= spec_call_result(
            a as int,
            b as int,
        )->Obj_0[0].1->Arr_0[0]->Obj_0);
        assert(json_view(r)->Obj_0 =~= spec_call_result(a as int, b as int)->Obj_0);
    }
    r
}

/// Answers `tools/call`: validates the tool name and arguments, runs the
/// tool, and wraps its text as one content item.
pub fn handle_tools_call(params: &Option<Json>) -> (r: Result<Json, JsonRpcError>)
    ensures
        result_view(r) == spec_tools_call(opt_json_view(*params)),
{
    let j = match params {
        Some(j) => j,
        None => {
            return Err(invalid_params("Missing tools/call params"));
        },
    };
    let cp: CallParams = match parse_call_params(j) {
        Some(p) => p,
        None => {
            return Err(invalid_params("Invalid tools/call params"));
        },
    };
    if !str_eq(cp.name.as_str(), "add") {
        let mut m = String::from_str("Unknown tool name: ");
        m.append(cp.name.as_str());
        return Err(JsonRpcError { code: INVALID_PARAMS, message: m, data: None });
    }
    let a: i64 = match lookup_member(&cp.arguments, "a") {
        Some(v) => match v {
            Json::Int(n) => *n,
            _ => {
                return Err(invalid_params("Argument 'a' must be a number"));
            },
        },
        None => {
            return Err(invalid_params("Missing argument 'a'"));
        },
    };
    let b: i64 = match lookup_member(&cp.arguments, "b") {
        Some(v) => match v {
            Json::Int(n) => *n,
            _ => {
                return Err(invalid_params("Argument 'b' must be a number"));
            },
        },
        None => {
            return Err(invalid_params("Missing argument 'b'"));
        },
    };
    Ok(run_add_tool(a, b))
}

// ---- dispatch over the catalog ----

/// What dispatching a request returns, for every method and parameter
/// value, routed by the classification table.
pub open spec fn spec_dispatch(m: Seq<char>, p: Option<JsonV>) -> Result<JsonV, ErrorV> {
    match spec_classify(m) {
        CallClassification::Direct => if m == "initialize"@ {
            spec_initialize(p)
        } else {
            Ok(spec_tools_list_result())
        },
        CallClassification::RequiresUpgrade => spec_tools_call(p),
        CallClassification::Unknown => Err(method_not_found_v(m)),
    }
}

/// Dispatches a request to the handler its method is bound to; a method
/// outside the catalog yields the method-not-found error.
pub fn handle_mcp_request(req: &JsonRpcRequest) -> (r: Result<Json, JsonRpcError>)
    ensures
        result_view(r) == spec_dispatch(req.method@, opt_json_view(req.params)),
{
    match classify(req.method.as_str()) {
        CallClassification::RequiresUpgrade => handle_tools_call(&req.params),
        CallClassification::Direct => {
            if str_eq(req.method.as_str(), "initialize") {
                handle_initialize(&req.params)
            } else {
                handle_tools_list()
            }
        },
        CallClassification::Unknown => {
            let mut m = String::from_str("Method not found: ");
            m.append(req.method.as_str());
            proof {
                assert(m@ =~= "Method not found: "@ + req.method@);
            }
            Err(JsonRpcError { code: METHOD_NOT_FOUND, message: m, data: None })
        },
    }
}

/// Acknowledges a notification. Every notification is accepted silently,
/// whatever its method; failures here would have nobody to answer to.
pub fn handle_mcp_notification(_req: &JsonRpcRequest) -> (r: Result<(), String>)
    ensures
        r is Ok,
{
    Ok(())
}

} // verus!
