//! The JSON-RPC envelope types and their wire form.
//!
//! A request with an `id` member expects a reply whose `id` is the very same
//! value; a request without one is a notification and never gets a reply.
//! A response carries exactly one of `result` and `error`.

use vstd::prelude::*;
use crate::json::{Json, JsonV, Member, json_view, seq_view, members_view, lemma_members_view,
    lemma_seq_view, str_json, obj0, obj1, obj2};

verus! {

broadcast use vstd::std_specs::vec::group_vec_axioms, vstd::seq::group_seq_axioms;

/// Code for a payload that is not a well-formed envelope.
pub const PARSE_ERROR: i32 = -32700;

/// Code for a well-formed delivery that violates path policy.
pub const INVALID_REQUEST: i32 = -32600;

/// Code for a method outside the catalog.
pub const METHOD_NOT_FOUND: i32 = -32601;

/// Code for missing or mis-typed parameters, tool names and tool arguments.
pub const INVALID_PARAMS: i32 = -32602;

/// A decoded request envelope. `id: Some(Json::Null)` records a literal
/// `"id": null` member, which still marks a request; only a missing `id`
/// member marks a notification.
pub struct JsonRpcRequest {
    pub id: Option<Json>,
    pub method: String,
    pub params: Option<Json>,
}

/// A protocol-level error object.
pub struct JsonRpcError {
    pub code: i32,
    pub message: String,
    pub data: Option<Json>,
}

/// A response envelope.
pub struct JsonRpcResponse {
    pub id: Json,
    pub result: Option<Json>,
    pub error: Option<JsonRpcError>,
}

/// Mathematical form of a request envelope.
pub struct RequestV {
    pub id: Option<JsonV>,
    pub method: Seq<char>,
    pub params: Option<JsonV>,
}

/// Mathematical form of an error object.
pub struct ErrorV {
    pub code: int,
    pub message: Seq<char>,
    pub data: Option<JsonV>,
}

/// Mathematical form of a response envelope.
pub struct ResponseV {
    pub id: JsonV,
    pub result: Option<JsonV>,
    pub error: Option<ErrorV>,
}

impl View for JsonRpcRequest {
    type V = RequestV;

    open spec fn view(&self) -> RequestV {
        RequestV {
            id: match self.id {
                Some(j) => Some(json_view(j)),
                None => None,
            },
            method: self.method@,
            params: match self.params {
                Some(j) => Some(json_view(j)),
                None => None,
            },
        }
    }
}

impl View for JsonRpcError {
    type V = ErrorV;

    open spec fn view(&self) -> ErrorV {
        ErrorV {
            code: self.code as int,
            message: self.message@,
            data: match self.data {
                Some(j) => Some(json_view(j)),
                None => None,
            },
        }
    }
}

impl View for JsonRpcResponse {
    type V = ResponseV;

    open spec fn view(&self) -> ResponseV {
        ResponseV {
            id: json_view(self.id),
            result: match self.result {
                Some(j) => Some(json_view(j)),
                None => None,
            },
            error: match self.error {
                Some(e) => Some(e@),
                None => None,
            },
        }
    }
}

impl ResponseV {
    /// A response carries exactly one of `result` and `error`.
    pub open spec fn wf(&self) -> bool {
        self.result is Some <==> self.error is None
    }
}

/// The error response value for the given id (a missing id falls to null).
pub open spec fn error_response_v(id: Option<JsonV>, code: int, message: Seq<char>) -> ResponseV {
    ResponseV {
        id: match id {
            Some(v) => v,
            None => JsonV::Null,
        },
        result: None,
        error: Some(ErrorV { code, message, data: None }),
    }
}

/// The success response value for the given id.
pub open spec fn success_response_v(id: JsonV, result: JsonV) -> ResponseV {
    ResponseV { id, result: Some(result), error: None }
}

/// Builds the error response for the given id; a missing id falls to null.
pub fn create_error_response(id: Option<Json>, code: i32, message: String) -> (r: JsonRpcResponse)
    ensures
        r@ == error_response_v(
            match id {
                Some(j) => Some(json_view(j)),
                None => None,
            },
            code as int,
            message@,
        ),
{
    JsonRpcResponse {
        id: match id {
            Some(j) => j,
            None => Json::Null,
        },
        result: None,
        error: Some(JsonRpcError { code, message, data: None }),
    }
}

/// Builds the success response for the given id.
pub fn create_success_response(id: Json, result: Json) -> (r: JsonRpcResponse)
    ensures
        r@ == success_response_v(json_view(id), json_view(result)),
{
    JsonRpcResponse { id, result: Some(result), error: None }
}

/// What a client may announce of itself in `initialize` parameters.
pub struct ClientCapabilities {}

/// The client identity announced in `initialize` parameters.
pub struct ClientInfo {
    pub name: String,
    pub version: Option<String>,
}

/// The parameters of `initialize`.
pub struct InitializeParams {
    pub protocol_version: String,
    pub capabilities: ClientCapabilities,
    pub client_info: Option<ClientInfo>,
}

/// The marker that the server offers tools.
pub struct ToolCapability {}

/// What the server announces of itself.
pub struct ServerCapabilities {
    pub tools: Option<ToolCapability>,
}

/// The server identity.
pub struct ServerInfo {
    pub name: String,
    pub version: String,
}

/// The result of `initialize`.
pub struct InitializeResult {
    pub protocol_version: String,
    pub capabilities: ServerCapabilities,
    pub server_info: ServerInfo,
    pub instructions: Option<String>,
}

/// One entry of the tool catalog.
pub struct Tool {
    pub name: String,
    pub description: String,
    pub input_schema: Json,
    pub annotations: Option<Json>,
}

/// The result of `tools/list`.
pub struct ToolsListResult {
    pub tools: Vec<Tool>,
    pub next_cursor: Option<String>,
}

/// The parameters of `tools/call`: a tool name and its arguments.
pub struct CallParams {
    pub name: String,
    pub arguments: Vec<Member>,
}

/// One content item of a tool result.
pub enum ToolResultContent {
    Text { text: String },
}

/// The result of `tools/call`.
pub struct CallResult {
    pub content: Vec<ToolResultContent>,
    pub is_error: bool,
}

impl ServerCapabilities {
    /// The wire object: a `tools` member exactly when tools are offered.
    pub open spec fn spec_json(&self) -> JsonV {
        JsonV::Obj(
            match self.tools {
                Some(_) => seq![("tools"@, JsonV::Obj(Seq::empty()))],
                None => Seq::empty(),
            },
        )
    }

    /// Renders the capabilities as their wire object.
    pub fn to_json(self) -> (r: Json)
        ensures
            json_view(r) == self.spec_json(),
    {
        match self.tools {
            Some(_) => obj1("tools", obj0()),
            None => obj0(),
        }
    }
}

impl ServerInfo {
    /// The wire object: the server's name and version.
    pub open spec fn spec_json(&self) -> JsonV {
        JsonV::Obj(seq![("name"@, JsonV::Str(self.name@)), ("version"@, JsonV::Str(self.version@))])
    }

    /// Renders the identity as its wire object.
    pub fn to_json(self) -> (r: Json)
        ensures
            json_view(r) == self.spec_json(),
    {
        obj2("name", Json::Str(self.name), "version", Json::Str(self.version))
    }
}

impl InitializeResult {
    /// The wire object, with `instructions` only when present.
    pub open spec fn spec_json(&self) -> JsonV {
        JsonV::Obj(
            seq![
                ("protocolVersion"@, JsonV::Str(self.protocol_version@)),
                ("capabilities"@, self.capabilities.spec_json()),
                ("serverInfo"@, self.server_info.spec_json()),
            ] + match self.instructions {
                Some(s) => seq![("instructions"@, JsonV::Str(s@))],
                None => Seq::empty(),
            },
        )
    }

    /// Renders the result as its wire object.
    pub fn to_json(self) -> (r: Json)
        ensures
            json_view(r) == self.spec_json(),
    {
        let mut ms: Vec<Member> = Vec::new();
        ms.push(
            Member {
                key: String::from_str("protocolVersion"),
                value: Json::Str(self.protocol_version),
            },
        );
        ms.push(Member { key: String::from_str("capabilities"), value: self.capabilities.to_json() });
        ms.push(Member { key: String::from_str("serverInfo"), value: self.server_info.to_json() });
        match self.instructions {
            Some(s) => {
                ms.push(Member { key: String::from_str("instructions"), value: Json::Str(s) });
            },
            None => {},
        }
        proof {
            lemma_members_view(ms@);
        }
        let r = Json::Obj(ms);
        proof {
            assert(members_view(ms@) =~= self.spec_json()->Obj_0);
        }
        r
    }
}

impl Tool {
    /// The wire object: name, description and input schema, and
    /// `annotations` only when present.
    pub open spec fn spec_json(&self) -> JsonV {
        JsonV::Obj(
            seq![
                ("name"@, JsonV::Str(self.name@)),
                ("description"@, JsonV::Str(self.description@)),
                ("inputSchema"@, json_view(self.input_schema)),
            ] + match self.annotations {
                Some(a) => seq![("annotations"@, json_view(a))],
                None => Seq::empty(),
            },
        )
    }

    /// Renders the descriptor as its wire object.
    pub fn to_json(self) -> (r: Json)
        ensures
            json_view(r) == self.spec_json(),
    {
        let mut ms: Vec<Member> = Vec::new();
        ms.push(Member { key: String::from_str("name"), value: Json::Str(self.name) });
        ms.push(Member { key: String::from_str("description"), value: Json::Str(self.description) });
        ms.push(Member { key: String::from_str("inputSchema"), value: self.input_schema });
        match self.annotations {
            Some(a) => {
                ms.push(Member { key: String::from_str("annotations"), value: a });
            },
            None => {},
        }
        proof {
            lemma_members_view(ms@);
        }
        let r = Json::Obj(ms);
        proof {
            assert(members_view(ms@) =~= self.spec_json()->Obj_0);
        }
        r
    }
}

impl ToolsListResult {
    /// The wire object: the tool descriptors in declaration order, and
    /// `nextCursor` only when present.
    pub open spec fn spec_json(&self) -> JsonV {
        JsonV::Obj(
            seq![
                ("tools"@, JsonV::Arr(Seq::new(self.tools@.len(), |i: int| self.tools@[i].spec_json()))),
            ] + match self.next_cursor {
                Some(c) => seq![("nextCursor"@, JsonV::Str(c@))],
                None => Seq::empty(),
            },
        )
    }

    /// Renders the listing as its wire object.
    pub fn to_json(self) -> (r: Json)
        ensures
            json_view(r) == self.spec_json(),
    {
        let ghost tools0 = self.tools@;
        let mut items: Vec<Json> = Vec::new();
        let mut tools = self.tools;
        while tools.len() > 0
            invariant
                items@.len() + tools@.len() == tools0.len(),
                tools@ =~= tools0.subrange(items@.len() as int, tools0.len() as int),
                forall|k: int| 0 <= k < items@.len() ==> json_view(items@[k]) == tools0[
                    k
                ].spec_json(),
            decreases tools@.len(),
        {
            let ghost done = items@.len() as int;
            let t = tools.remove(0);
            proof {
                assert(t == tools0[done]);
            }
            let j = t.to_json();
            items.push(j);
            proof {
                assert(tools@ =~= tools0.subrange(done + 1, tools0.len() as int));
            }
        }
        proof {
            lemma_seq_view(items@);
            assert(seq_view(items@) =~= Seq::new(tools0.len(), |i: int| tools0[i].spec_json()));
        }
        let mut ms: Vec<Member> = Vec::new();
        ms.push(Member { key: String::from_str("tools"), value: Json::Arr(items) });
        match self.next_cursor {
            Some(c) => {
                ms.push(Member { key: String::from_str("nextCursor"), value: Json::Str(c) });
            },
            None => {},
        }
        proof {
            lemma_members_view(ms@);
        }
        let r = Json::Obj(ms);
        proof {
            assert(members_view(ms@) =~= self.spec_json()->Obj_0);
        }
        r
    }
}

impl ToolResultContent {
    /// The wire object of one content item: its tag and its text.
    pub open spec fn spec_json(&self) -> JsonV {
        match self {
            ToolResultContent::Text { text } => JsonV::Obj(
                seq![("type"@, JsonV::Str("text"@)), ("text"@, JsonV::Str(text@))],
            ),
        }
    }

    /// Renders the content item as its wire object.
    pub fn to_json(self) -> (r: Json)
        ensures
            json_view(r) == self.spec_json(),
    {
        match self {
            ToolResultContent::Text { text } => obj2(
                "type",
                str_json("text"),
                "text",
                Json::Str(text),
            ),
        }
    }
}

impl CallResult {
    /// The wire object: the content items in order, and the domain-error
    /// flag.
    pub open spec fn spec_json(&self) -> JsonV {
        JsonV::Obj(
            seq![
                (
                    "content"@,
                    JsonV::Arr(
                        Seq::new(self.content@.len(), |i: int| self.content@[i].spec_json()),
                    ),
                ),
                ("isError"@, JsonV::Bool(self.is_error)),
            ],
        )
    }

    /// Renders the result as its wire object.
    pub fn to_json(self) -> (r: Json)
        ensures
            json_view(r) == self.spec_json(),
    {
        let ghost content0 = self.content@;
        let mut items: Vec<Json> = Vec::new();
        let mut content = self.content;
        while content.len() > 0
            invariant
                items@.len() + content@.len() == content0.len(),
                content@ =~= content0.subrange(items@.len() as int, content0.len() as int),
                forall|k: int| 0 <= k < items@.len() ==> json_view(items@[k]) == content0[
                    k
                ].spec_json(),
            decreases content@.len(),
        {
            let ghost done = items@.len() as int;
            let c = content.remove(0);
            proof {
                assert(c == content0[done]);
            }
            let j = c.to_json();
            items.push(j);
            proof {
                assert(content@ =~= content0.subrange(done + 1, content0.len() as int));
            }
        }
        proof {
            lemma_seq_view(items@);
            assert(seq_view(items@) =~= Seq::new(
                content0.len(),
                |i: int| content0[i].spec_json(),
            ));
        }
        let r = obj2("content", Json::Arr(items), "isError", Json::Bool(self.is_error));
        proof {
            assert(r@->Obj_0 =~= self.spec_json()->Obj_0);
        }
        r
    }
}

/// The wire object of an error: `code` and `message`, and `data` only when
/// present.
pub open spec fn error_jsonv(e: ErrorV) -> JsonV {
    JsonV::Obj(
        seq![("code"@, JsonV::Int(e.code)), ("message"@, JsonV::Str(e.message))] + match e.data {
            Some(d) => seq![("data"@, d)],
            None => Seq::empty(),
        },
    )
}

/// The wire object of a response: the protocol tag, the echoed id, and the
/// one of `result` and `error` that is present.
pub open spec fn response_jsonv(r: ResponseV) -> JsonV {
    JsonV::Obj(
        seq![("jsonrpc"@, JsonV::Str("2.0"@)), ("id"@, r.id)] + match r.result {
            Some(v) => seq![("result"@, v)],
            None => Seq::empty(),
        } + match r.error {
            Some(e) => seq![("error"@, error_jsonv(e))],
            None => Seq::empty(),
        },
    )
}

/// Rebuilds a response as a JSON value whose view is `response_jsonv`.
pub fn response_to_json(r: JsonRpcResponse) -> (j: Json)
    ensures
        json_view(j) == response_jsonv(r@),
{
    let mut ps: Vec<Member> = Vec::new();
    ps.push(Member { key: String::from_str("jsonrpc"), value: Json::Str(String::from_str("2.0")) });
    ps.push(Member { key: String::from_str("id"), value: r.id });
    match r.result {
        Some(v) => {
            ps.push(Member { key: String::from_str("result"), value: v });
        },
        None => {},
    }
    match r.error {
        Some(e) => {
            let mut eps: Vec<Member> = Vec::new();
            eps.push(Member { key: String::from_str("code"), value: Json::Int(e.code as i64) });
            eps.push(Member { key: String::from_str("message"), value: Json::Str(e.message) });
            match e.data {
                Some(d) => {
                    eps.push(Member { key: String::from_str("data"), value: d });
                },
                None => {},
            }
            proof {
                lemma_members_view(eps@);
            }
            let eo = Json::Obj(eps);
            proof {
                assert(members_view(eps@) =~= error_jsonv(e@)->Obj_0);
            }
            ps.push(Member { key: String::from_str("error"), value: eo });
        },
        None => {},
    }
    proof {
        lemma_members_view(ps@);
    }
    let out = Json::Obj(ps);
    proof {
        assert(members_view(ps@) =~= response_jsonv(r@)->Obj_0);
    }
    out
}

} // verus!
