//! JSON documents built with `rustc_serialize::json`, and the model that
//! contracts use to speak of them.
use rustc_serialize::json::{self, EncoderError, Json};
use vstd::prelude::*;

verus! {

#[verifier::external_type_specification]
#[verifier::external_body]
pub struct ExJson(Json);

#[verifier::external_type_specification]
#[verifier::external_body]
pub struct ExEncoderError(EncoderError);

/// The shape of a JSON value: one variant per variant of `Json`.
/// A float is kept as its IEEE-754 bit pattern.
pub enum JsonTree {
    I64(i64),
    U64(u64),
    F64Bits(u64),
    Str(Seq<char>),
    Boolean(bool),
    Arr(Seq<JsonTree>),
    Obj(Map<Seq<char>, JsonTree>),
    Null,
}

/// What a `Json` value holds, as a tree.
pub uninterp spec fn json_tree(j: Json) -> JsonTree;

/// The compact text that `json::encode` writes for a tree.
pub uninterp spec fn json_text(t: JsonTree) -> Seq<char>;

/// The trees of a sequence of values, in order.
pub open spec fn trees_of(items: Seq<Json>) -> Seq<JsonTree> {
    items.map_values(|j: Json| json_tree(j))
}

/// The map of an object built from `entries`, one key per entry.
pub open spec fn entries_map(entries: Seq<(String, Json)>) -> Map<Seq<char>, JsonTree>
    decreases entries.len(),
{
    if entries.len() == 0 {
        Map::empty()
    } else {
        entries_map(entries.drop_last()).insert(
            entries.last().0@,
            json_tree(entries.last().1),
        )
    }
}

/// No two entries share a key.
pub open spec fn keys_distinct(entries: Seq<(String, Json)>) -> bool {
    forall|i: int, k: int|
        0 <= i < entries.len() && 0 <= k < entries.len() && i != k ==> entries[i].0@
            != entries[k].0@
}

/// Relies on the variant `Json::String`: a string value holding `s`.
#[verifier::external_body]
pub(crate) fn json_string(s: String) -> (r: Json)
    ensures
        json_tree(r) == JsonTree::Str(s@),
{
    Json::String(s)
}

/// Relies on the variant `Json::I64`: an integer value holding `n`.
#[verifier::external_body]
pub(crate) fn json_i64(n: i64) -> (r: Json)
    ensures
        json_tree(r) == JsonTree::I64(n),
{
    Json::I64(n)
}

/// Relies on the variant `Json::Array`: an array of `items`, in order.
#[verifier::external_body]
pub(crate) fn json_array(items: Vec<Json>) -> (r: Json)
    ensures
        json_tree(r) == JsonTree::Arr(trees_of(items@)),
{
    Json::Array(items)
}

/// Relies on the variant `Json::Object`, whose map is a `BTreeMap` collected
/// from `entries`: one member per entry when the keys are distinct.
#[verifier::external_body]
pub(crate) fn json_object(entries: Vec<(String, Json)>) -> (r: Json)
    requires
        keys_distinct(entries@),
    ensures
        json_tree(r) == JsonTree::Obj(entries_map(entries@)),
{
    Json::Object(entries.into_iter().collect())
}

/// Relies on `Json`'s derived `Clone`: the copy holds the same tree.
#[verifier::external_body]
pub(crate) fn json_clone(j: &Json) -> (r: Json)
    ensures
        json_tree(r) == json_tree(*j),
{
    j.clone()
}

/// Relies on `json::encode`: the compact text of the value. It cannot fail
/// on a `Json`: it writes into a `String`, whose writes never fail, and its
/// only other error is a map key that is not a string, while the keys of a
/// `Json::Object` are `String`s.
#[verifier::external_body]
pub(crate) fn json_encode(j: &Json) -> (r: Result<String, EncoderError>)
    ensures
        r is Ok,
        r matches Ok(s) ==> s@ == json_text(json_tree(*j)),
{
    json::encode(j)
}

} // verus!
