//! A plain model of parsed manifest documents.
//!
//! The manifest is JSON text. Parsing is done by the `json` crate; everything
//! this library reasons about is carried over into `JsonTree`, a tree of plain
//! values, whose mathematical model is `JsonModel`. The tree keeps exactly the
//! structure this tool reads: object nesting, string values, and the broad
//! class of every other value. Array contents and numeric values are never
//! inspected by the materializer, so they are carried as bare `Arr` / `Num`
//! markers; the model is still a function of the document text alone.

use vstd::prelude::*;

verus! {

broadcast use vstd::std_specs::vec::group_vec_axioms, vstd::seq::group_seq_axioms;

/// Mathematical model of a parsed document, to the depth this tool reads it.
pub enum JsonModel {
    Null,
    Bool(bool),
    Num,
    Str(Seq<char>),
    Arr,
    Obj(Seq<(Seq<char>, JsonModel)>),
}

/// Executable counterpart of `JsonModel`: what the parser hands the library.
pub enum JsonTree {
    Null,
    Bool(bool),
    Num,
    Str(String),
    Arr,
    Obj(Vec<(String, JsonTree)>),
}

/// Model of one tree value.
pub open spec fn tree_model(t: JsonTree) -> JsonModel
    decreases t,
{
    match t {
        JsonTree::Null => JsonModel::Null,
        JsonTree::Bool(b) => JsonModel::Bool(b),
        JsonTree::Num => JsonModel::Num,
        JsonTree::Str(s) => JsonModel::Str(s@),
        JsonTree::Arr => JsonModel::Arr,
        JsonTree::Obj(fs) => JsonModel::Obj(fields_model(fs@)),
    }
}

/// Model of an object's field list, in order.
pub open spec fn fields_model(fs: Seq<(String, JsonTree)>) -> Seq<(Seq<char>, JsonModel)>
    decreases fs,
{
    if fs.len() == 0 {
        Seq::empty()
    } else {
        seq![(fs[0].0@, tree_model(fs[0].1))] + fields_model(fs.skip(1))
    }
}

/// `fields_model` is a pointwise map over the field list.
pub proof fn lemma_fields_model(fs: Seq<(String, JsonTree)>)
    ensures
        fields_model(fs).len() == fs.len(),
        forall|i: int| 0 <= i < fs.len()
            ==> #[trigger] fields_model(fs)[i] == (fs[i].0@, tree_model(fs[i].1)),
    decreases fs.len(),
{
    if fs.len() > 0 {
        lemma_fields_model(fs.skip(1));
    }
}

impl View for JsonTree {
    type V = JsonModel;

    open spec fn view(&self) -> JsonModel {
        tree_model(*self)
    }
}

#[verifier::external_type_specification]
#[verifier::external_body]
pub struct ExJsonValue(json::JsonValue);

/// The document that `json::parse` yields for this text, carried over into
/// the model: `None` when the text is not valid JSON.
pub uninterp spec fn json_doc_of(s: Seq<char>) -> Option<JsonModel>;

/// The model of one parsed `json::JsonValue`.
pub uninterp spec fn value_model(v: json::JsonValue) -> JsonModel;

/// Relies on `json::parse`: it succeeds exactly when the text is well-formed
/// JSON, and its result is a function of the text alone.
#[verifier::external_body]
pub(crate) fn parse_json(s: &str) -> (r: Option<json::JsonValue>)
    ensures
        r is Some <==> json_doc_of(s@) is Some,
        r matches Some(v) ==> Some(value_model(v)) == json_doc_of(s@),
{
    json::parse(s).ok()
}

/// Relies on `json::JsonValue`'s variants and `json::object::Object::iter`:
/// carries a parsed value over into the plain tree, one arm per variant,
/// object fields in iteration (= insertion) order. Array contents and number
/// values are never read by this library, so they carry over as bare markers.
#[verifier::external_body]
pub(crate) fn tree_of(v: &json::JsonValue) -> (t: JsonTree)
    ensures
        t@ == value_model(*v),
{
    match v {
        json::JsonValue::Null => JsonTree::Null,
        json::JsonValue::Short(s) => JsonTree::Str(s.as_str().to_string()),
        json::JsonValue::String(s) => JsonTree::Str(s.clone()),
        json::JsonValue::Number(_) => JsonTree::Num,
        json::JsonValue::Boolean(b) => JsonTree::Bool(*b),
        json::JsonValue::Object(o) => JsonTree::Obj(
            o.iter().map(|(k, w)| (k.to_string(), tree_of(w))).collect(),
        ),
        json::JsonValue::Array(_) => JsonTree::Arr,
    }
}

/// First binding of `key` among `fields`, if any. The `json` crate keeps
/// object keys unique (inserting an existing key overwrites its value), so
/// the first binding is the only one.
pub open spec fn obj_lookup(fields: Seq<(Seq<char>, JsonModel)>, key: Seq<char>) -> Option<JsonModel>
    decreases fields.len(),
{
    if fields.len() == 0 {
        None
    } else if fields[0].0 == key {
        Some(fields[0].1)
    } else {
        obj_lookup(fields.skip(1), key)
    }
}

} // verus!
