//! A small JSON-like document model. Launch-configuration templates and the
//! output envelope are values of `Json`; contracts speak of the ghost
//! counterpart `JsonV`, reached through the view functions below.

use vstd::prelude::*;
use vstd::string::StringExecFns;

verus! {

/// A JSON-like document: booleans, strings, arrays and objects.
/// Object fields keep their insertion order.
pub enum Json {
    Bool(bool),
    Str(String),
    Arr(Vec<Json>),
    Obj(Vec<(String, Json)>),
}

/// The mathematical shape of a `Json` value.
#[verifier::ext_equal]
pub ghost enum JsonV {
    Bool(bool),
    Str(Seq<char>),
    Arr(Seq<JsonV>),
    Obj(Seq<(Seq<char>, JsonV)>),
}

pub open spec fn view_json(j: Json) -> JsonV
    decreases j,
{
    match j {
        Json::Bool(b) => JsonV::Bool(b),
        Json::Str(s) => JsonV::Str(s@),
        Json::Arr(items) => JsonV::Arr(view_items(items@)),
        Json::Obj(fields) => JsonV::Obj(view_fields(fields@)),
    }
}

pub open spec fn view_items(s: Seq<Json>) -> Seq<JsonV>
    decreases s,
{
    if s.len() == 0 {
        Seq::empty()
    } else {
        view_items(s.drop_last()).push(view_json(s.last()))
    }
}

pub open spec fn view_fields(s: Seq<(String, Json)>) -> Seq<(Seq<char>, JsonV)>
    decreases s,
{
    if s.len() == 0 {
        Seq::empty()
    } else {
        view_fields(s.drop_last()).push((s.last().0@, view_json(s.last().1)))
    }
}

impl View for Json {
    type V = JsonV;

    open spec fn view(&self) -> JsonV {
        view_json(*self)
    }
}

pub proof fn lemma_view_items_push(s: Seq<Json>, x: Json)
    ensures
        view_items(s.push(x)) == view_items(s).push(view_json(x)),
{
    assert(s.push(x).drop_last() =~= s);
    assert(s.push(x).last() == x);
}

pub proof fn lemma_view_fields_push(s: Seq<(String, Json)>, p: (String, Json))
    ensures
        view_fields(s.push(p)) == view_fields(s).push((p.0@, view_json(p.1))),
{
    assert(s.push(p).drop_last() =~= s);
    assert(s.push(p).last() == p);
}

/// The view of a sequence of documents is its elementwise view.
pub proof fn lemma_view_items_elementwise(s: Seq<Json>)
    ensures
        view_items(s).len() == s.len(),
        forall|i: int| 0 <= i < s.len() ==> view_items(s)[i] == view_json(s[i]),
    decreases s,
{
    if s.len() > 0 {
        lemma_view_items_elementwise(s.drop_last());
        assert(forall|i: int|
            0 <= i < s.len() - 1 ==> #[trigger] s.drop_last()[i] == s[i]);
    }
}

/// The fields of an object view, or the empty sequence for any other value.
pub open spec fn obj_fields(v: JsonV) -> Seq<(Seq<char>, JsonV)> {
    match v {
        JsonV::Obj(fs) => fs,
        _ => Seq::empty(),
    }
}

/// The object `v` carries a field named `key` with value `val`.
pub open spec fn obj_has_field(v: JsonV, key: Seq<char>, val: JsonV) -> bool {
    exists|i: int| 0 <= i < obj_fields(v).len() && #[trigger] obj_fields(v)[i] == (key, val)
}

/// A string leaf.
pub fn json_str(s: &str) -> (r: Json)
    ensures
        r@ == JsonV::Str(s@),
{
    Json::Str(String::from_str(s))
}

/// A boolean leaf.
pub fn json_bool(b: bool) -> (r: Json)
    ensures
        r@ == JsonV::Bool(b),
{
    Json::Bool(b)
}

/// An empty field list for building an object.
pub fn obj_empty() -> (r: Vec<(String, Json)>)
    ensures
        view_fields(r@) == Seq::<(Seq<char>, JsonV)>::empty(),
{
    Vec::new()
}

/// Appends the field `key: val` to a field list.
pub fn obj_push(fields: &mut Vec<(String, Json)>, key: &str, val: Json)
    ensures
        view_fields(final(fields)@) == view_fields(old(fields)@).push((key@, val@)),
{
    let ghost before = fields@;
    let pair = (String::from_str(key), val);
    let ghost p = pair;
    fields.push(pair);
    proof {
        lemma_view_fields_push(before, p);
    }
}

/// An empty element list for building an array.
pub fn arr_empty() -> (r: Vec<Json>)
    ensures
        view_items(r@) == Seq::<JsonV>::empty(),
{
    Vec::new()
}

/// Appends an element to an array's element list.
pub fn arr_push(items: &mut Vec<Json>, val: Json)
    ensures
        view_items(final(items)@) == view_items(old(items)@).push(val@),
{
    let ghost before = items@;
    let ghost v = val@;
    items.push(val);
    proof {
        lemma_view_items_push(before, items@.last());
    }
}

}
