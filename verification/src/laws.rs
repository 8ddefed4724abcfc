//! The dispatcher's guarantees, stated on their own and proved from the
//! contracts of the modules they speak of.

use vstd::prelude::*;
use crate::json::{JsonV, spec_lookup};
use crate::rpc_model::{error_response_v, INVALID_REQUEST};
use crate::codec::{spec_decode, parse_error_v};
use crate::handler::{CallClassification, spec_classify, spec_dispatch, spec_tools_list_result};
use crate::server::{ExecutionPath, OutcomeV, spec_handle};

verus! {

/// A response, answered or rejected, echoes the request's id unchanged;
/// a request whose id is present is never treated as a notification, and
/// the only outcome without a response for it is the upgrade signal on the
/// cheap path.
pub proof fn lemma_response_id_echo(path: ExecutionPath, p: Option<JsonV>)
    requires
        spec_decode(p) matches Ok(req) && req.id is Some,
    ensures
        match spec_handle(path, p) {
            OutcomeV::Answered(r) => Some(r.id) == spec_decode(p)->Ok_0.id,
            OutcomeV::Rejected(r) => Some(r.id) == spec_decode(p)->Ok_0.id,
            OutcomeV::Upgrade => path == ExecutionPath::Cheap,
            OutcomeV::Ack => false,
        },
{
}

/// A notification — a delivery whose envelope has no id — delivered on the
/// cheap path is acknowledged without any response body, whatever its
/// method; the authoritative path instead rejects it (the next law).
pub proof fn lemma_notification_no_response(p: Option<JsonV>)
    requires
        spec_decode(p) matches Ok(req) && req.id is None,
    ensures
        spec_handle(ExecutionPath::Cheap, p) == OutcomeV::Ack,
{
}

/// A notification delivered on the authoritative path is always rejected
/// as an invalid request, never executed and never silently accepted.
pub proof fn lemma_notification_rejected_on_authoritative(p: Option<JsonV>)
    requires
        spec_decode(p) matches Ok(req) && req.id is None,
    ensures
        spec_handle(ExecutionPath::Authoritative, p) == OutcomeV::Rejected(
            error_response_v(None, INVALID_REQUEST as int, "Invalid Request"@),
        ),
{
}

/// The classification table: `tools/call` requires the upgrade;
/// `initialize` and `tools/list` are answerable directly; every other
/// method is unknown.
pub proof fn lemma_classification_table(m: Seq<char>)
    ensures
        spec_classify("tools/call"@) == CallClassification::RequiresUpgrade,
        spec_classify("initialize"@) == CallClassification::Direct,
        spec_classify("tools/list"@) == CallClassification::Direct,
        m != "tools/call"@ && m != "initialize"@ && m != "tools/list"@ ==> spec_classify(m)
            == CallClassification::Unknown,
{
    reveal_strlit("tools/call");
    reveal_strlit("initialize");
    reveal_strlit("tools/list");
    assert(("tools/call"@).len() == 10);
    assert(("initialize"@).len() == 10);
    assert(("tools/list"@).len() == 10);
    assert(("tools/call"@)[0] == 't');
    assert(("initialize"@)[0] == 'i');
    assert(("tools/call"@)[6] == 'c');
    assert(("tools/list"@)[6] == 'l');
}

/// A method that requires the upgrade, delivered with an id on the cheap
/// path, produces the upgrade signal and nothing else: no handler runs, no
/// result body exists. The handler for it runs only on the authoritative
/// path.
pub proof fn lemma_upgrade_runs_nothing(p: Option<JsonV>)
    requires
        spec_decode(p) matches Ok(req) && req.id is Some && spec_classify(req.method)
            == CallClassification::RequiresUpgrade,
    ensures
        spec_handle(ExecutionPath::Cheap, p) == OutcomeV::Upgrade,
{
}

/// A payload that does not decode to an envelope is rejected with the
/// parse error under a null id, on either path.
pub proof fn lemma_malformed_rejected(path: ExecutionPath, p: Option<JsonV>)
    requires
        spec_decode(p) is Err,
    ensures
        spec_handle(path, p) == OutcomeV::Rejected(
            error_response_v(None, parse_error_v().code, parse_error_v().message),
        ),
{
}

/// Every response the dispatcher produces, answered or rejected, carries
/// exactly one of `result` and `error`.
pub proof fn lemma_responses_well_formed(path: ExecutionPath, p: Option<JsonV>)
    ensures
        match spec_handle(path, p) {
            OutcomeV::Answered(r) => r.wf(),
            OutcomeV::Rejected(r) => r.wf(),
            _ => true,
        },
{
}

/// `tools/list` answers with exactly the statically registered tool set,
/// whatever its parameters: one object whose only member is `tools`, in
/// declaration order, with no pagination cursor.
pub proof fn lemma_tools_list_static(p: Option<JsonV>)
    ensures
        spec_dispatch("tools/list"@, p) == Ok::<JsonV, crate::rpc_model::ErrorV>(
            spec_tools_list_result(),
        ),
        spec_tools_list_result()->Obj_0.len() == 1,
        spec_lookup(spec_tools_list_result()->Obj_0, "nextCursor"@) is None,
{
    reveal_with_fuel(spec_lookup, 3);
    reveal_strlit("tools/call");
    reveal_strlit("initialize");
    reveal_strlit("tools/list");
    reveal_strlit("tools");
    reveal_strlit("nextCursor");
    assert(("tools/list"@)[0] == 't');
    assert(("initialize"@)[0] == 'i');
    assert(("tools/list"@).len() == 10);
    assert(("tools/call"@).len() == 10);
    assert(("tools"@).len() == 5);
    assert(("nextCursor"@).len() == 10);
    assert(("tools/call"@)[6] == 'c');
    assert(("tools/list"@)[6] == 'l');
    let ps = spec_tools_list_result()->Obj_0;
    assert(ps[0].0 == "tools"@);
    assert(("tools"@)[0] == 't');
    assert(("nextCursor"@)[0] == 'n');
    assert(ps.subrange(1, 1) =~= Seq::<(Seq<char>, JsonV)>::empty());
}

} // verus!
