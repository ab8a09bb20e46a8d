//! The JSON value model used by the wire protocol.
//!
//! Frame payloads are JSON texts.  The protocol's own reading of a
//! payload is positional (`[id, method, args]` and
//! `[id, code, message, data]`), so the library models a JSON document
//! as a plain tree of values: null, booleans, 64-bit signed integers,
//! strings, arrays and objects (ordered key/value lists).  Fractional
//! and exponent number forms have no place in the protocol's own fields
//! and are treated as malformed by the decoder in `json_dec`.
//!
//! `JsonV` is the mathematical shadow of `Json`: the same tree over
//! `int`, `Seq<char>` and `Seq`, used by every contract.

use vstd::prelude::*;

verus! {

broadcast use vstd::std_specs::vec::group_vec_axioms;

/// One JSON value.
pub enum Json {
    Null,
    Bool(bool),
    Int(i64),
    Str(String),
    Arr(Vec<Json>),
    Obj(Vec<(String, Json)>),
}

/// The mathematical form of a JSON value.
pub ghost enum JsonV {
    Null,
    Bool(bool),
    Int(int),
    Str(Seq<char>),
    Arr(Seq<JsonV>),
    Obj(Seq<(Seq<char>, JsonV)>),
}

/// The mathematical form of `j`.
pub open spec fn json_view(j: Json) -> JsonV
    decreases j,
{
    match j {
        Json::Null => JsonV::Null,
        Json::Bool(b) => JsonV::Bool(b),
        Json::Int(i) => JsonV::Int(i as int),
        Json::Str(s) => JsonV::Str(s@),
        Json::Arr(items) => JsonV::Arr(json_view_list(items@)),
        Json::Obj(entries) => JsonV::Obj(json_view_entries(entries@)),
    }
}

pub open spec fn json_view_list(l: Seq<Json>) -> Seq<JsonV>
    decreases l,
{
    if l.len() == 0 {
        Seq::empty()
    } else {
        json_view_list(l.drop_last()).push(json_view(l.last()))
    }
}

pub open spec fn json_view_entries(l: Seq<(String, Json)>) -> Seq<(Seq<char>, JsonV)>
    decreases l,
{
    if l.len() == 0 {
        Seq::empty()
    } else {
        json_view_entries(l.drop_last()).push((l.last().0@, json_view(l.last().1)))
    }
}

impl View for Json {
    type V = JsonV;

    open spec fn view(&self) -> JsonV {
        json_view(*self)
    }
}

pub broadcast proof fn lemma_json_view_list_len(l: Seq<Json>)
    ensures
        (#[trigger] json_view_list(l)).len() == l.len(),
    decreases l,
{
    if l.len() > 0 {
        lemma_json_view_list_len(l.drop_last());
    }
}

pub broadcast proof fn lemma_json_view_list_index(l: Seq<Json>, i: int)
    requires
        0 <= i < l.len(),
    ensures
        #[trigger] json_view_list(l)[i] == json_view(l[i]),
    decreases l,
{
    lemma_json_view_list_len(l);
    if l.len() > 0 && i < l.len() - 1 {
        lemma_json_view_list_index(l.drop_last(), i);
    }
}

pub broadcast proof fn lemma_json_view_entries_len(l: Seq<(String, Json)>)
    ensures
        (#[trigger] json_view_entries(l)).len() == l.len(),
    decreases l,
{
    if l.len() > 0 {
        lemma_json_view_entries_len(l.drop_last());
    }
}

pub broadcast proof fn lemma_json_view_entries_index(l: Seq<(String, Json)>, i: int)
    requires
        0 <= i < l.len(),
    ensures
        #[trigger] json_view_entries(l)[i] == (l[i].0@, json_view(l[i].1)),
    decreases l,
{
    lemma_json_view_entries_len(l);
    if l.len() > 0 && i < l.len() - 1 {
        lemma_json_view_entries_index(l.drop_last(), i);
    }
}

/// Every integer in the tree fits `i64`.  A decoded document always
/// satisfies this; an encoded one must.
pub open spec fn wf_json(v: JsonV) -> bool
    decreases v,
{
    match v {
        JsonV::Null => true,
        JsonV::Bool(_) => true,
        JsonV::Int(i) => i64::MIN <= i <= i64::MAX,
        JsonV::Str(_) => true,
        JsonV::Arr(items) => wf_json_list(items),
        JsonV::Obj(entries) => wf_json_entries(entries),
    }
}

pub open spec fn wf_json_list(l: Seq<JsonV>) -> bool
    decreases l,
{
    if l.len() == 0 {
        true
    } else {
        wf_json_list(l.drop_last()) && wf_json(l.last())
    }
}

pub open spec fn wf_json_entries(l: Seq<(Seq<char>, JsonV)>) -> bool
    decreases l,
{
    if l.len() == 0 {
        true
    } else {
        wf_json_entries(l.drop_last()) && wf_json(l.last().1)
    }
}

/// Nesting depth of a value: atoms have depth 0, a container is one
/// deeper than its deepest element.  The decoder refuses documents
/// nested past `MAX_JSON_DEPTH`, so the encoder's callers keep within
/// it.
pub open spec fn json_depth(v: JsonV) -> nat
    decreases v,
{
    match v {
        JsonV::Arr(items) => 1 + json_depth_list(items),
        JsonV::Obj(entries) => 1 + json_depth_entries(entries),
        _ => 0,
    }
}

pub open spec fn json_depth_list(l: Seq<JsonV>) -> nat
    decreases l,
{
    if l.len() == 0 {
        0
    } else {
        let rest = json_depth_list(l.drop_last());
        let last = json_depth(l.last());
        if last > rest {
            last
        } else {
            rest
        }
    }
}

pub open spec fn json_depth_entries(l: Seq<(Seq<char>, JsonV)>) -> nat
    decreases l,
{
    if l.len() == 0 {
        0
    } else {
        let rest = json_depth_entries(l.drop_last());
        let last = json_depth(l.last().1);
        if last > rest {
            last
        } else {
            rest
        }
    }
}

/// Well-formedness of a list is well-formedness of every element.
pub proof fn lemma_wf_json_list_iff(l: Seq<JsonV>)
    ensures
        wf_json_list(l) <==> (forall|i: int| 0 <= i < l.len() ==> wf_json(#[trigger] l[i])),
    decreases l,
{
    if l.len() > 0 {
        lemma_wf_json_list_iff(l.drop_last());
        assert(forall|i: int| 0 <= i < l.len() - 1 ==> #[trigger] l[i] == l.drop_last()[i]);
        assert(l.last() == l[l.len() - 1]);
    }
}

pub proof fn lemma_wf_json_entries_iff(l: Seq<(Seq<char>, JsonV)>)
    ensures
        wf_json_entries(l) <==> (forall|i: int| 0 <= i < l.len() ==> wf_json(#[trigger] l[i].1)),
    decreases l,
{
    if l.len() > 0 {
        lemma_wf_json_entries_iff(l.drop_last());
        assert(forall|i: int| 0 <= i < l.len() - 1 ==> #[trigger] l[i] == l.drop_last()[i]);
        assert(l.last() == l[l.len() - 1]);
    }
}

/// A list stays within a depth bound exactly when every element does.
pub proof fn lemma_json_depth_list_le(l: Seq<JsonV>, d: nat)
    ensures
        json_depth_list(l) <= d <==> (forall|i: int|
            0 <= i < l.len() ==> json_depth(#[trigger] l[i]) <= d),
    decreases l,
{
    if l.len() > 0 {
        lemma_json_depth_list_le(l.drop_last(), d);
        assert(forall|i: int| 0 <= i < l.len() - 1 ==> #[trigger] l[i] == l.drop_last()[i]);
        assert(l.last() == l[l.len() - 1]);
    }
}

pub proof fn lemma_json_depth_entries_le(l: Seq<(Seq<char>, JsonV)>, d: nat)
    ensures
        json_depth_entries(l) <= d <==> (forall|i: int|
            0 <= i < l.len() ==> json_depth(#[trigger] l[i].1) <= d),
    decreases l,
{
    if l.len() > 0 {
        lemma_json_depth_entries_le(l.drop_last(), d);
        assert(forall|i: int| 0 <= i < l.len() - 1 ==> #[trigger] l[i] == l.drop_last()[i]);
        assert(l.last() == l[l.len() - 1]);
    }
}

/// Deepest nesting the decoder accepts; it protects the decoder's
/// recursion against hostile inputs such as a long run of `[`.
pub const MAX_JSON_DEPTH: u32 = 64;

} // verus!
