//! The library's own model of a JSON value.
//!
//! Requests and responses are JSON documents; the dispatcher's decisions are
//! functions of their structure. So the structure is held in a type of the
//! library's own, `Json`, whose mathematical form is `JsonV`.

use vstd::prelude::*;

verus! {

broadcast use vstd::std_specs::vec::group_vec_axioms, vstd::seq::group_seq_axioms;

/// The mathematical form of a JSON value.
///
/// A number with an exact 64-bit signed integer value is `Int`; any other
/// number is carried by its decimal rendering as `NumStr`. An object is an
/// ordered sequence of key/value pairs (document order).
pub enum JsonV {
    Null,
    Bool(bool),
    Int(int),
    NumStr(Seq<char>),
    Str(Seq<char>),
    Arr(Seq<JsonV>),
    Obj(Seq<(Seq<char>, JsonV)>),
}

/// One key/value pair of a JSON object.
pub struct Member {
    pub key: String,
    pub value: Json,
}

/// An executable JSON value, viewed as a `JsonV`.
pub enum Json {
    Null,
    Bool(bool),
    Int(i64),
    NumStr(String),
    Str(String),
    Arr(Vec<Json>),
    Obj(Vec<Member>),
}

/// The mathematical value that a `Json` denotes.
pub open spec fn json_view(j: Json) -> JsonV
    decreases j,
    via json_view_decreases
{
    match j {
        Json::Null => JsonV::Null,
        Json::Bool(b) => JsonV::Bool(b),
        Json::Int(i) => JsonV::Int(i as int),
        Json::NumStr(s) => JsonV::NumStr(s@),
        Json::Str(s) => JsonV::Str(s@),
        Json::Arr(xs) => JsonV::Arr(seq_view(xs@)),
        Json::Obj(ps) => JsonV::Obj(members_view(ps@)),
    }
}

#[via_fn]
proof fn json_view_decreases(j: Json) {
    match j {
        Json::Arr(xs) => {
            assert(decreases_to!(j => xs));
            assert(decreases_to!(xs => xs@));
        },
        Json::Obj(ps) => {
            assert(decreases_to!(j => ps));
            assert(decreases_to!(ps => ps@));
        },
        _ => {},
    }
}

/// The mathematical values that the elements of an array denote.
pub open spec fn seq_view(xs: Seq<Json>) -> Seq<JsonV>
    decreases xs,
    via seq_view_decreases
{
    if xs.len() == 0 {
        Seq::empty()
    } else {
        seq![json_view(xs[0])] + seq_view(xs.subrange(1, xs.len() as int))
    }
}

#[via_fn]
proof fn seq_view_decreases(xs: Seq<Json>) {
    if xs.len() > 0 {
        assert(decreases_to!(xs => xs[0]));
        assert(decreases_to!(xs => xs.subrange(1, xs.len() as int)));
    }
}

/// The key/value pairs that the members of an object denote.
pub open spec fn members_view(ps: Seq<Member>) -> Seq<(Seq<char>, JsonV)>
    decreases ps,
    via members_view_decreases
{
    if ps.len() == 0 {
        Seq::empty()
    } else {
        seq![(ps[0].key@, json_view(ps[0].value))] + members_view(
            ps.subrange(1, ps.len() as int),
        )
    }
}

#[via_fn]
proof fn members_view_decreases(ps: Seq<Member>) {
    if ps.len() > 0 {
        assert(decreases_to!(ps => ps[0]));
        assert(decreases_to!(ps[0] => ps[0].value));
        assert(decreases_to!(ps => ps.subrange(1, ps.len() as int)));
    }
}

impl View for Json {
    type V = JsonV;

    open spec fn view(&self) -> JsonV {
        json_view(*self)
    }
}

/// `seq_view` maps the element views pointwise.
pub proof fn lemma_seq_view(xs: Seq<Json>)
    ensures
        seq_view(xs).len() == xs.len(),
        forall|i: int| 0 <= i < xs.len() ==> seq_view(xs)[i] == json_view(xs[i]),
    decreases xs.len(),
{
    if xs.len() > 0 {
        let rest = xs.subrange(1, xs.len() as int);
        lemma_seq_view(rest);
        assert forall|i: int| 0 <= i < xs.len() implies seq_view(xs)[i] == json_view(xs[i]) by {
            if i > 0 {
                assert(rest[i - 1] == xs[i]);
            }
        }
    }
}

/// `members_view` maps the member views pointwise.
pub proof fn lemma_members_view(ps: Seq<Member>)
    ensures
        members_view(ps).len() == ps.len(),
        forall|i: int| 0 <= i < ps.len() ==> members_view(ps)[i] == (
            ps[i].key@,
            json_view(ps[i].value),
        ),
    decreases ps.len(),
{
    if ps.len() > 0 {
        let rest = ps.subrange(1, ps.len() as int);
        lemma_members_view(rest);
        assert forall|i: int| 0 <= i < ps.len() implies members_view(ps)[i] == (
            ps[i].key@,
            json_view(ps[i].value),
        ) by {
            if i > 0 {
                assert(rest[i - 1] == ps[i]);
            }
        }
    }
}

/// The views of an optional JSON value.
pub open spec fn opt_json_view(r: Option<Json>) -> Option<JsonV> {
    match r {
        Some(j) => Some(json_view(j)),
        None => None,
    }
}

/// Character-for-character equality of two string slices.
pub fn str_eq(a: &str, b: &str) -> (r: bool)
    ensures
        r == (a@ == b@),
{
    let n = a.unicode_len();
    let m = b.unicode_len();
    if n != m {
        return false;
    }
    for i in 0..n
        invariant
            n == a@.len(),
            n == b@.len(),
            forall|j: int| 0 <= j < i ==> a@[j] == b@[j],
    {
        if a.get_char(i) != b.get_char(i) {
            return false;
        }
    }
    proof {
        assert(a@ =~= b@);
    }
    true
}

/// A copy of a JSON value that denotes the same mathematical value.
#[verifier::loop_isolation(false)]
pub fn clone_json(j: &Json) -> (r: Json)
    ensures
        json_view(r) == json_view(*j),
    decreases j, 0int,
{
    match j {
        Json::Null => Json::Null,
        Json::Bool(b) => Json::Bool(*b),
        Json::Int(i) => Json::Int(*i),
        Json::NumStr(s) => Json::NumStr(s.clone()),
        Json::Str(s) => Json::Str(s.clone()),
        Json::Arr(xs) => {
            let mut out: Vec<Json> = Vec::new();
            let n = xs.len();
            for i in 0..n
                invariant
                    n == xs@.len(),
                    out@.len() == i,
                    forall|k: int| 0 <= k < i ==> json_view(out@[k]) == json_view(xs@[k]),
                decreases n - i,
            {
                proof {
                    assert(decreases_to!(j => xs));
                    assert(decreases_to!(xs => xs@));
                    assert(decreases_to!(xs@ => xs@[i as int]));
                }
                let c = clone_json(&xs[i]);
                out.push(c);
            }
            proof {
                lemma_seq_view(out@);
                lemma_seq_view(xs@);
                assert(seq_view(out@) =~= seq_view(xs@));
            }
            Json::Arr(out)
        },
        Json::Obj(ps) => {
            let mut out: Vec<Member> = Vec::new();
            let n = ps.len();
            for i in 0..n
                invariant
                    n == ps@.len(),
                    out@.len() == i,
                    forall|k: int| 0 <= k < i ==> out@[k].key@ == ps@[k].key@ && json_view(
                        out@[k].value,
                    ) == json_view(ps@[k].value),
                decreases n - i,
            {
                proof {
                    assert(decreases_to!(j => ps));
                    assert(decreases_to!(ps => ps@));
                    assert(decreases_to!(ps@ => ps@[i as int]));
                    assert(decreases_to!(ps@[i as int] => ps@[i as int].value));
                }
                let c = clone_json(&ps[i].value);
                out.push(Member { key: ps[i].key.clone(), value: c });
            }
            proof {
                lemma_members_view(out@);
                lemma_members_view(ps@);
                assert(members_view(out@) =~= members_view(ps@));
            }
            Json::Obj(out)
        },
    }
}

/// First value bound to `key` in an object's pair sequence, if any.
pub open spec fn spec_lookup(ps: Seq<(Seq<char>, JsonV)>, key: Seq<char>) -> Option<JsonV>
    decreases ps.len(),
{
    if ps.len() == 0 {
        None
    } else if ps[0].0 == key {
        Some(ps[0].1)
    } else {
        spec_lookup(ps.subrange(1, ps.len() as int), key)
    }
}

/// First member of `ms` whose key is `key`, if any.
pub fn lookup_member<'a>(ms: &'a Vec<Member>, key: &str) -> (r: Option<&'a Json>)
    ensures
        match r {
            Some(v) => spec_lookup(members_view(ms@), key@) == Some(v@),
            None => spec_lookup(members_view(ms@), key@) is None,
        },
{
    let ghost full: Seq<(Seq<char>, JsonV)> = members_view(ms@);
    proof {
        lemma_members_view(ms@);
        assert(full.subrange(0, ms@.len() as int) =~= full);
    }
    let n = ms.len();
    for i in 0..n
        invariant
            n == ms@.len(),
            full == members_view(ms@),
            full.len() == n,
            forall|j: int| 0 <= j < n ==> full[j] == (ms@[j].key@, json_view(ms@[j].value)),
            spec_lookup(full.subrange(i as int, n as int), key@) == spec_lookup(full, key@),
    {
        proof {
            assert(full.subrange(i as int, n as int)[0] == full[i as int]);
        }
        if str_eq(ms[i].key.as_str(), key) {
            return Some(&ms[i].value);
        }
        proof {
            assert(full.subrange(i as int, n as int).subrange(1, (n - i) as int) =~= full.subrange(
                i + 1,
                n as int,
            ));
        }
    }
    proof {
        assert(full.subrange(n as int, n as int).len() == 0);
    }
    None
}

impl Json {
    /// Looks a key up in an object value; `None` on any other kind of value.
    pub open spec fn spec_get(&self, key: Seq<char>) -> Option<JsonV> {
        match self@ {
            JsonV::Obj(ps) => spec_lookup(ps, key),
            _ => None,
        }
    }

    /// First value bound to `key`, when this is an object that binds it.
    pub fn get<'a>(&'a self, key: &str) -> (r: Option<&'a Json>)
        ensures
            match r {
                Some(v) => self.spec_get(key@) == Some(v@),
                None => self.spec_get(key@) is None,
            },
    {
        match self {
            Json::Obj(ps) => lookup_member(ps, key),
            _ => None,
        }
    }
}

// ---- building JSON values whose views are stated exactly ----

pub fn member(k: &str, v: Json) -> (r: Member)
    ensures
        r.key@ == k@,
        r.value == v,
{
    Member { key: String::from_str(k), value: v }
}

pub fn str_json(s: &str) -> (r: Json)
    ensures
        json_view(r) == JsonV::Str(s@),
{
    Json::Str(String::from_str(s))
}

pub fn obj0() -> (r: Json)
    ensures
        json_view(r) == JsonV::Obj(Seq::empty()),
{
    let ms: Vec<Member> = Vec::new();
    proof {
        assert(members_view(ms@) =~= Seq::empty());
    }
    Json::Obj(ms)
}

pub fn obj1(k1: &str, v1: Json) -> (r: Json)
    ensures
        json_view(r) == JsonV::Obj(seq![(k1@, json_view(v1))]),
{
    let mut ms: Vec<Member> = Vec::new();
    ms.push(member(k1, v1));
    proof {
        lemma_members_view(ms@);
        assert(members_view(ms@) =~= seq![(k1@, json_view(v1))]);
    }
    Json::Obj(ms)
}

pub fn obj2(k1: &str, v1: Json, k2: &str, v2: Json) -> (r: Json)
    ensures
        json_view(r) == JsonV::Obj(seq![(k1@, json_view(v1)), (k2@, json_view(v2))]),
{
    let mut ms: Vec<Member> = Vec::new();
    ms.push(member(k1, v1));
    ms.push(member(k2, v2));
    proof {
        lemma_members_view(ms@);
        assert(members_view(ms@) =~= seq![(k1@, json_view(v1)), (k2@, json_view(v2))]);
    }
    Json::Obj(ms)
}

pub fn obj3(k1: &str, v1: Json, k2: &str, v2: Json, k3: &str, v3: Json) -> (r: Json)
    ensures
        json_view(r) == JsonV::Obj(
            seq![(k1@, json_view(v1)), (k2@, json_view(v2)), (k3@, json_view(v3))],
        ),
{
    let mut ms: Vec<Member> = Vec::new();
    ms.push(member(k1, v1));
    ms.push(member(k2, v2));
    ms.push(member(k3, v3));
    proof {
        lemma_members_view(ms@);
        assert(members_view(ms@) =~= seq![
            (k1@, json_view(v1)),
            (k2@, json_view(v2)),
            (k3@, json_view(v3)),
        ]);
    }
    Json::Obj(ms)
}

pub fn arr2(v1: Json, v2: Json) -> (r: Json)
    ensures
        json_view(r) == JsonV::Arr(seq![json_view(v1), json_view(v2)]),
{
    let mut xs: Vec<Json> = Vec::new();
    xs.push(v1);
    xs.push(v2);
    proof {
        lemma_seq_view(xs@);
        assert(seq_view(xs@) =~= seq![json_view(v1), json_view(v2)]);
    }
    Json::Arr(xs)
}


} // verus!
