//! Decoding and encoding of envelopes at the wire boundary.
//!
//! Parsing of raw bytes is done by `serde_json`, behind a trusted wrapper
//! whose result is named by the uninterpreted function `parsed_json`; every
//! decision about the parsed document (envelope shape, id presence, method)
//! is made afterwards in verified code. Encoding is the library's own
//! verified serializer.

use vstd::prelude::*;
use crate::json::{Json, JsonV, json_view, opt_json_view, spec_lookup, str_eq, clone_json};
use crate::rpc_model::{JsonRpcRequest, JsonRpcError, JsonRpcResponse, RequestV, ErrorV,
    ResponseV, response_jsonv, error_jsonv, PARSE_ERROR};
use crate::ser::{ser_json, json_to_bytes};

verus! {

broadcast use vstd::std_specs::vec::group_vec_axioms, vstd::seq::group_seq_axioms;

/// `serde_json`'s value type, declared so that the conversion below can
/// mention it; the library never reads it directly.
#[verifier::external_type_specification]
#[verifier::external_body]
pub struct ExValue(serde_json::Value);

/// The JSON document that a byte string holds, if any: what `serde_json`
/// parses the bytes to, carried over into the library's model.
pub uninterp spec fn parsed_json(bytes: Seq<u8>) -> Option<JsonV>;

/// Object keys are pairwise distinct.
pub open spec fn keys_unique(ps: Seq<(Seq<char>, JsonV)>) -> bool {
    forall|a: int, b: int|
        0 <= a < b < ps.len() ==> #[trigger] ps[a].0 != #[trigger] ps[b].0
}

/// A value whose canonical rendering parses back to the value itself:
/// no number texts (whose rendering the parser may normalise), integers
/// within the 64-bit signed range, object keys distinct, and nesting below
/// the parser's recursion cap, counted down by `d`.
pub open spec fn encodable(v: JsonV, d: nat) -> bool
    decreases d, 0int,
{
    match v {
        JsonV::NumStr(_) => false,
        JsonV::Int(i) => i64::MIN <= i <= i64::MAX,
        JsonV::Arr(xs) => d > 0 && encodable_elems(xs, (d - 1) as nat, 0),
        JsonV::Obj(ps) => d > 0 && keys_unique(ps) && encodable_membs(ps, (d - 1) as nat, 0),
        _ => true,
    }
}

/// Every element of `xs` from index `i` on is encodable at depth `d`.
pub open spec fn encodable_elems(xs: Seq<JsonV>, d: nat, i: int) -> bool
    decreases d, xs.len() - i,
{
    if i < 0 || i >= xs.len() {
        true
    } else {
        encodable(xs[i], d) && encodable_elems(xs, d, i + 1)
    }
}

/// Every value of `ps` from index `i` on is encodable at depth `d`.
pub open spec fn encodable_membs(ps: Seq<(Seq<char>, JsonV)>, d: nat, i: int) -> bool
    decreases d, ps.len() - i,
{
    if i < 0 || i >= ps.len() {
        true
    } else {
        encodable(ps[i].1, d) && encodable_membs(ps, d, i + 1)
    }
}

/// Encodable within the wire's nesting headroom: the parser stops at 128
/// levels, and a value sent here is wrapped in one envelope object.
pub open spec fn wire_safe(v: JsonV) -> bool {
    encodable(v, 64)
}

/// Builds the library's value for a parsed document.
///
/// Relies on `serde_json::Value`: each variant is carried over one-for-one;
/// a number becomes `Int` exactly when `Number::as_i64` represents it, and
/// otherwise its decimal rendering.
#[verifier::external_body]
fn json_of_value(v: serde_json::Value) -> Json {
    match v {
        serde_json::Value::Null => Json::Null,
        serde_json::Value::Bool(b) => Json::Bool(b),
        serde_json::Value::Number(n) => match n.as_i64() {
            Some(i) => Json::Int(i),
            None => Json::NumStr(n.to_string()),
        },
        serde_json::Value::String(s) => Json::Str(s),
        serde_json::Value::Array(xs) => Json::Arr(xs.into_iter().map(json_of_value).collect()),
        serde_json::Value::Object(ps) => Json::Obj(
            ps.into_iter().map(|p| crate::json::Member { key: p.0, value: json_of_value(p.1) }).collect(),
        ),
    }
}

/// Parses a byte string into the library's model of its JSON document.
///
/// Relies on `serde_json::from_slice::<Value>`: it parses a document if and
/// only if the bytes are well-formed JSON (the result `parsed_json` names
/// that outcome), and it parses the library's own canonical rendering of a
/// `wire_safe` value back to that value — keys keep document order, an
/// integer in the 64-bit signed range stays that integer, and the nesting of
/// a `wire_safe` value stays below the parser's 128-level recursion cap.
#[verifier::external_body]
pub(crate) fn parse_json(bytes: &[u8]) -> (r: Option<Json>)
    ensures
        opt_json_view(r) == parsed_json(bytes@),
        forall|v: JsonV| wire_safe(v) && bytes@ == ser_json(v) ==> opt_json_view(r) == Some(v),
{
    serde_json::from_slice::<serde_json::Value>(bytes).ok().map(json_of_value)
}

/// An id member may hold a string, a number or null, never a composite.
pub open spec fn is_id_value(v: JsonV) -> bool {
    match v {
        JsonV::Null => true,
        JsonV::Int(_) => true,
        JsonV::NumStr(_) => true,
        JsonV::Str(_) => true,
        _ => false,
    }
}

/// A parsed document has the envelope shape: an object whose `jsonrpc`
/// member is the string `"2.0"`, whose `method` member is a string, and
/// whose `id` member, when present, is a string, a number or null.
pub open spec fn envelope_ok(j: JsonV) -> bool {
    match j {
        JsonV::Obj(ps) => {
            &&& spec_lookup(ps, "jsonrpc"@) == Some(JsonV::Str("2.0"@))
            &&& spec_lookup(ps, "method"@) matches Some(JsonV::Str(_))
            &&& match spec_lookup(ps, "id"@) {
                Some(v) => is_id_value(v),
                None => true,
            }
        },
        _ => false,
    }
}

/// The envelope a well-shaped document denotes.
pub open spec fn envelope_of(j: JsonV) -> RequestV
    recommends
        envelope_ok(j),
{
    let ps = j->Obj_0;
    RequestV {
        id: spec_lookup(ps, "id"@),
        method: spec_lookup(ps, "method"@)->Some_0->Str_0,
        params: spec_lookup(ps, "params"@),
    }
}

/// The error that rejects a payload which is not a well-formed envelope.
pub open spec fn parse_error_v() -> ErrorV {
    ErrorV { code: PARSE_ERROR as int, message: "Parse error"@, data: None }
}

/// What decoding a delivery yields: the envelope of a well-shaped document,
/// or the parse error.
pub open spec fn spec_decode(p: Option<JsonV>) -> Result<RequestV, ErrorV> {
    match p {
        Some(j) => if envelope_ok(j) {
            Ok(envelope_of(j))
        } else {
            Err(parse_error_v())
        },
        None => Err(parse_error_v()),
    }
}

/// Decodes a delivery's bytes into a request envelope, or the parse error.
/// Shape only is validated here; whether the method exists is the
/// dispatcher's decision.
pub fn decode(bytes: &[u8]) -> (r: Result<JsonRpcRequest, JsonRpcError>)
    ensures
        match r {
            Ok(req) => spec_decode(parsed_json(bytes@)) == Ok::<RequestV, ErrorV>(req@),
            Err(e) => spec_decode(parsed_json(bytes@)) == Err::<RequestV, ErrorV>(e@),
        },
{
    let parsed = parse_json(bytes);
    match parsed {
        None => Err(parse_error()),
        Some(doc) => {
            match doc.get("jsonrpc") {
                Some(Json::Str(tag)) => {
                    if !str_eq(tag.as_str(), "2.0") {
                        return Err(parse_error());
                    }
                },
                _ => {
                    return Err(parse_error());
                },
            }
            let method: String = match doc.get("method") {
                Some(Json::Str(m)) => m.clone(),
                _ => {
                    return Err(parse_error());
                },
            };
            let id: Option<Json> = match doc.get("id") {
                Some(v) => {
                    let ok = match v {
                        Json::Null => true,
                        Json::Int(_) => true,
                        Json::NumStr(_) => true,
                        Json::Str(_) => true,
                        _ => false,
                    };
                    if !ok {
                        return Err(parse_error());
                    }
                    Some(clone_json(v))
                },
                None => None,
            };
            let params: Option<Json> = match doc.get("params") {
                Some(v) => Some(clone_json(v)),
                None => None,
            };
            Ok(JsonRpcRequest { id, method, params })
        },
    }
}

/// The parse-error object.
fn parse_error() -> (e: JsonRpcError)
    ensures
        e@ == parse_error_v(),
{
    JsonRpcError {
        code: PARSE_ERROR,
        message: String::from_str("Parse error"),
        data: None,
    }
}

/// Encodes a response envelope to its canonical wire bytes.
pub fn encode_response(r: JsonRpcResponse) -> (out: Vec<u8>)
    ensures
        out@ == ser_json(response_jsonv(r@)),
{
    let j = crate::rpc_model::response_to_json(r);
    json_to_bytes(&j)
}

/// A response document taken apart again: its id and whichever of the
/// `result` and `error` members it carries.
pub struct DecodedResponse {
    pub id: Json,
    pub result: Option<Json>,
    pub error: Option<Json>,
}

/// A parsed document has a response's shape: an object with an `id` member.
pub open spec fn response_shape_ok(j: JsonV) -> bool {
    &&& j matches JsonV::Obj(_)
    &&& spec_lookup(j->Obj_0, "id"@) is Some
}

/// In a response's wire object, `id`, `result` and `error` are bound to the
/// response's own parts.
pub proof fn lemma_response_jsonv_lookups(rv: ResponseV)
    ensures
        spec_lookup(response_jsonv(rv)->Obj_0, "id"@) == Some(rv.id),
        spec_lookup(response_jsonv(rv)->Obj_0, "result"@) == rv.result,
        spec_lookup(response_jsonv(rv)->Obj_0, "error"@) == match rv.error {
            Some(e) => Some(error_jsonv(e)),
            None => None::<JsonV>,
        },
{
    reveal_with_fuel(spec_lookup, 5);
    reveal_strlit("jsonrpc");
    reveal_strlit("id");
    reveal_strlit("result");
    reveal_strlit("error");
    assert(("jsonrpc"@).len() == 7);
    assert(("id"@).len() == 2);
    assert(("result"@).len() == 6);
    assert(("error"@).len() == 5);
    let ps = response_jsonv(rv)->Obj_0;
    assert(ps[0].0 == "jsonrpc"@);
    assert(ps[1].0 == "id"@);
    assert("jsonrpc"@ != "id"@);
    assert("jsonrpc"@ != "result"@);
    assert("jsonrpc"@ != "error"@);
    assert("id"@ != "result"@);
    assert("id"@ != "error"@);
    assert("result"@ != "error"@);
    let s1 = ps.subrange(1, ps.len() as int);
    assert(s1[0] == ps[1]);
    let s2 = s1.subrange(1, s1.len() as int);
    match (rv.result, rv.error) {
        (Some(res), Some(e)) => {
            assert(s2 =~= seq![("result"@, res), ("error"@, error_jsonv(e))]);
            assert(s2.subrange(1, 2)[0] == s2[1]);
        },
        (Some(res), None) => {
            assert(s2 =~= seq![("result"@, res)]);
            assert(s2.subrange(1, 1) =~= Seq::<(Seq<char>, JsonV)>::empty());
        },
        (None, Some(e)) => {
            assert(s2 =~= seq![("error"@, error_jsonv(e))]);
            assert(s2.subrange(1, 1) =~= Seq::<(Seq<char>, JsonV)>::empty());
        },
        (None, None) => {
            assert(s2 =~= Seq::<(Seq<char>, JsonV)>::empty());
        },
    }
}

/// Takes a response document apart. The second clause is the round trip:
/// the bytes that `encode_response` produces for a well-formed, wire-safe
/// response decode back to that response's own id, result and error.
pub fn decode_response(bytes: &[u8]) -> (r: Option<DecodedResponse>)
    ensures
        match r {
            Some(d) => {
                &&& parsed_json(bytes@) matches Some(j)
                &&& response_shape_ok(parsed_json(bytes@)->Some_0)
                &&& Some(json_view(d.id)) == spec_lookup(
                    parsed_json(bytes@)->Some_0->Obj_0,
                    "id"@,
                )
                &&& opt_json_view(d.result) == spec_lookup(
                    parsed_json(bytes@)->Some_0->Obj_0,
                    "result"@,
                )
                &&& opt_json_view(d.error) == spec_lookup(
                    parsed_json(bytes@)->Some_0->Obj_0,
                    "error"@,
                )
            },
            None => !(parsed_json(bytes@) matches Some(j) && response_shape_ok(j)),
        },
        forall|rv: ResponseV|
            rv.wf() && wire_safe(response_jsonv(rv)) && bytes@ == ser_json(response_jsonv(rv))
                ==> r is Some && json_view(r->Some_0.id) == rv.id && opt_json_view(
                r->Some_0.result,
            ) == rv.result,
{
    let parsed = parse_json(bytes);
    let r = match parsed {
        None => None,
        Some(doc) => {
            match doc.get("id") {
                None => None,
                Some(idv) => {
                    let id = clone_json(idv);
                    let result = match doc.get("result") {
                        Some(v) => Some(clone_json(v)),
                        None => None,
                    };
                    let error = match doc.get("error") {
                        Some(v) => Some(clone_json(v)),
                        None => None,
                    };
                    Some(DecodedResponse { id, result, error })
                },
            }
        },
    };
    proof {
        assert forall|rv: ResponseV|
            rv.wf() && wire_safe(response_jsonv(rv)) && bytes@ == ser_json(
                response_jsonv(rv),
            ) implies r is Some && json_view(r->Some_0.id) == rv.id && opt_json_view(
            r->Some_0.result,
        ) == rv.result by {
            lemma_response_jsonv_lookups(rv);
        }
    }
    r
}

} // verus!
