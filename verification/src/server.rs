//! The dispatcher: one delivery in, one outcome out.
//!
//! A delivery arrives on one of two execution paths. The cheap path answers
//! read-only methods, acknowledges notifications, and turns a mutating
//! method into an upgrade signal without running its handler. The
//! authoritative path, reached only through that signal, runs mutating
//! methods and rejects everything else. Both paths decode and classify the
//! raw bytes from scratch; nothing is shared between them.

use vstd::prelude::*;
use crate::json::{Json, JsonV, json_view, str_eq};
use crate::rpc_model::{JsonRpcRequest, JsonRpcError, JsonRpcResponse, ResponseV, ErrorV,
    error_response_v, success_response_v, create_error_response, create_success_response,
    INVALID_REQUEST};
use crate::codec::{decode, spec_decode, parsed_json};
use crate::handler::{CallClassification, classify, spec_classify, spec_dispatch, spec_tools_call,
    handle_mcp_request, handle_tools_call, result_view};

verus! {

/// The execution path a delivery arrived on.
#[derive(Clone, Copy, Debug, PartialEq, Eq, Structural)]
pub enum ExecutionPath {
    /// Read-only; answers cheap methods and signals upgrades.
    Cheap,
    /// State-mutating; runs only upgraded methods.
    Authoritative,
}

/// What the transport must do with a delivery: answer with a body, signal
/// an upgrade, acknowledge without a body, or reject with an error body.
pub enum Outcome {
    Answered(JsonRpcResponse),
    Upgrade,
    Ack,
    Rejected(JsonRpcResponse),
}

/// Mathematical form of an outcome.
pub enum OutcomeV {
    Answered(ResponseV),
    Upgrade,
    Ack,
    Rejected(ResponseV),
}

impl View for Outcome {
    type V = OutcomeV;

    open spec fn view(&self) -> OutcomeV {
        match self {
            Outcome::Answered(r) => OutcomeV::Answered(r@),
            Outcome::Upgrade => OutcomeV::Upgrade,
            Outcome::Ack => OutcomeV::Ack,
            Outcome::Rejected(r) => OutcomeV::Rejected(r@),
        }
    }
}

/// The response that answers a request: the echoed id with the handler's
/// result or error.
pub open spec fn answer_v(id: JsonV, res: Result<JsonV, ErrorV>) -> ResponseV {
    match res {
        Ok(v) => success_response_v(id, v),
        Err(e) => ResponseV { id, result: None, error: Some(e) },
    }
}

/// The outcome of one delivery, for every path and every parsed document:
/// the dispatcher's whole state machine.
///
/// A payload that is not a well-formed envelope is rejected with the parse
/// error under a null id. A notification is acknowledged on the cheap path
/// and rejected as an invalid request on the authoritative path. A request
/// is routed by its method's classification: a mutating method on the cheap
/// path produces only the upgrade signal; on the authoritative path it is
/// the only thing that runs; a read-only or unknown method is answered on
/// the cheap path and rejected on the authoritative one.
pub open spec fn spec_handle(path: ExecutionPath, p: Option<JsonV>) -> OutcomeV {
    match spec_decode(p) {
        Err(e) => OutcomeV::Rejected(error_response_v(None, e.code, e.message)),
        Ok(req) => match req.id {
            None => match path {
                ExecutionPath::Cheap => OutcomeV::Ack,
                ExecutionPath::Authoritative => OutcomeV::Rejected(
                    error_response_v(None, INVALID_REQUEST as int, "Invalid Request"@),
                ),
            },
            Some(id) => match (spec_classify(req.method), path) {
                (CallClassification::RequiresUpgrade, ExecutionPath::Cheap) => OutcomeV::Upgrade,
                (CallClassification::RequiresUpgrade, ExecutionPath::Authoritative) => OutcomeV::Answered(
                    answer_v(id, spec_tools_call(req.params)),
                ),
                (_, ExecutionPath::Cheap) => OutcomeV::Answered(
                    answer_v(id, spec_dispatch(req.method, req.params)),
                ),
                (_, ExecutionPath::Authoritative) => OutcomeV::Rejected(
                    error_response_v(
                        Some(id),
                        INVALID_REQUEST as int,
                        "Invalid method for this path"@,
                    ),
                ),
            },
        },
    }
}

/// Wraps a handler result as the response to the given id.
fn respond(id: Json, res: Result<Json, JsonRpcError>) -> (r: JsonRpcResponse)
    ensures
        r@ == answer_v(json_view(id), result_view(res)),
{
    match res {
        Ok(v) => create_success_response(id, v),
        Err(e) => JsonRpcResponse { id, result: None, error: Some(e) },
    }
}

/// The dispatcher. It holds no state: every delivery is decided from its
/// bytes and its path alone.
pub struct Server {}

impl Server {
    /// Handles one delivery: decodes the bytes, applies the path policy,
    /// and produces the outcome that `spec_handle` fixes for them.
    pub fn handle(&self, path: ExecutionPath, body: &[u8]) -> (o: Outcome)
        ensures
            o@ == spec_handle(path, parsed_json(body@)),
    {
        let req: JsonRpcRequest = match decode(body) {
            Err(e) => {
                return Outcome::Rejected(create_error_response(None, e.code, e.message));
            },
            Ok(req) => req,
        };
        if req.id.is_none() {
            match path {
                ExecutionPath::Cheap => Outcome::Ack,
                ExecutionPath::Authoritative => Outcome::Rejected(
                    create_error_response(
                        None,
                        INVALID_REQUEST,
                        String::from_str("Invalid Request"),
                    ),
                ),
            }
        } else {
            match (classify(req.method.as_str()), path) {
                (CallClassification::RequiresUpgrade, ExecutionPath::Cheap) => Outcome::Upgrade,
                (CallClassification::RequiresUpgrade, ExecutionPath::Authoritative) => {
                    let res = handle_tools_call(&req.params);
                    let id = req.id.unwrap();
                    Outcome::Answered(respond(id, res))
                },
                (_, ExecutionPath::Cheap) => {
                    let res = handle_mcp_request(&req);
                    let id = req.id.unwrap();
                    Outcome::Answered(respond(id, res))
                },
                (_, ExecutionPath::Authoritative) => {
                    let id = req.id.unwrap();
                    Outcome::Rejected(
                        create_error_response(
                            Some(id),
                            INVALID_REQUEST,
                            String::from_str("Invalid method for this path"),
                        ),
                    )
                },
            }
        }
    }
}

/// Whether the transport should hand a delivery to the dispatcher at all:
/// the endpoint takes `POST` on `/mcp` and nothing else.
pub fn route_accepts(method: &str, url: &str) -> (r: bool)
    ensures
        r == (method@ == "POST"@ && url@ == "/mcp"@),
{
    str_eq(method, "POST") && str_eq(url, "/mcp")
}

} // verus!
