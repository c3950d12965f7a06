//! The JSON boundary. Documents are parsed and printed by `serde_json`; the
//! rest of the crate reads them one level at a time through [`unfold`] and
//! reasons about them through [`JsonModel`].

use crate::text::optional_text;
use vstd::prelude::*;

verus! {

/// Trusted: declares `serde_json::Value`, the parsed form of a JSON
/// document, as a type whose inside is not looked into.
#[verifier::external_type_specification]
#[verifier::external_body]
pub struct ExJsonValue(serde_json::Value);

/// What a JSON document holds, as a mathematical tree.
pub enum JsonModel {
    Null,
    Bool(bool),
    /// A number, by the text that `serde_json` prints for it.
    Number(Seq<char>),
    Text(Seq<char>),
    Array(Seq<JsonModel>),
    /// The members of an object, in the order in which the document's map
    /// walks them.
    Object(Seq<(Seq<char>, JsonModel)>),
}

/// The tree that a parsed document stands for.
pub uninterp spec fn json_model(v: serde_json::Value) -> JsonModel;

/// The document that a text parses to; `None` where `serde_json` refuses
/// the text as a JSON value.
pub uninterp spec fn json_parse(text: Seq<char>) -> Option<JsonModel>;

/// The compact JSON text that `serde_json` prints for a document.
pub uninterp spec fn json_text(document: JsonModel) -> Seq<char>;

/// One level of a document: its kind with its scalar content or its
/// children.
pub enum JsonNode<'a> {
    Null,
    Bool(bool),
    Number(String),
    Text(&'a str),
    Array(&'a Vec<serde_json::Value>),
    Object(Vec<(&'a String, &'a serde_json::Value)>),
}

impl<'a> JsonNode<'a> {
    /// The tree of which this node shows the top level.
    pub open spec fn model(self) -> JsonModel {
        match self {
            JsonNode::Null => JsonModel::Null,
            JsonNode::Bool(b) => JsonModel::Bool(b),
            JsonNode::Number(t) => JsonModel::Number(t@),
            JsonNode::Text(t) => JsonModel::Text(t@),
            JsonNode::Array(items) => JsonModel::Array(models(items@)),
            JsonNode::Object(members) => JsonModel::Object(member_models(members@)),
        }
    }
}

/// The trees of a sequence of documents.
pub open spec fn models(items: Seq<serde_json::Value>) -> Seq<JsonModel> {
    Seq::new(items.len(), |i: int| json_model(items[i]))
}

/// The names and trees of an object's members.
pub open spec fn member_models(members: Seq<(&String, &serde_json::Value)>) -> Seq<
    (Seq<char>, JsonModel),
> {
    Seq::new(members.len(), |i: int| (members[i].0@, json_model(*members[i].1)))
}

/// The first member called `key` among `members`.
pub open spec fn find_member(members: Seq<(Seq<char>, JsonModel)>, key: Seq<char>) -> Option<
    JsonModel,
>
    decreases members.len(),
{
    if members.len() == 0 {
        None
    } else if members[0].0 == key {
        Some(members[0].1)
    } else {
        find_member(members.drop_first(), key)
    }
}

/// The member called `key` of an object; `None` for a missing member and for
/// a document that is no object.
pub open spec fn model_member(document: JsonModel, key: Seq<char>) -> Option<JsonModel> {
    match document {
        JsonModel::Object(members) => find_member(members, key),
        _ => None,
    }
}

/// The member called `key` of an optional document.
pub open spec fn model_member_of(document: Option<JsonModel>, key: Seq<char>) -> Option<
    JsonModel,
> {
    match document {
        Some(d) => model_member(d, key),
        None => None,
    }
}

/// The content of a document that is a string.
pub open spec fn model_text(document: Option<JsonModel>) -> Option<Seq<char>> {
    match document {
        Some(JsonModel::Text(t)) => Some(t),
        _ => None,
    }
}

/// The tree of an optional document.
pub open spec fn model_of(v: Option<&serde_json::Value>) -> Option<JsonModel> {
    match v {
        Some(x) => Some(json_model(*x)),
        None => None,
    }
}

/// The tree of an optional document that is owned.
pub open spec fn document_model(v: Option<serde_json::Value>) -> Option<JsonModel> {
    match v {
        Some(x) => Some(json_model(x)),
        None => None,
    }
}

/// Parses `text` as one JSON document.
///
/// Trusted: calls `serde_json::from_str` for a `serde_json::Value`. The
/// contract names the outcome `json_parse(text)`: whether the text parses,
/// and to which tree, depends on the text alone.
#[verifier::external_body]
pub(crate) fn parse_document(text: &str) -> (r: Option<serde_json::Value>)
    ensures
        match r {
            Some(v) => json_parse(text@) == Some(json_model(v)),
            None => json_parse(text@) is None,
        },
{
    serde_json::from_str::<serde_json::Value>(text).ok()
}

/// Shows the top level of a document.
///
/// Trusted: tells the variants of `serde_json::Value` apart and hands out
/// what each holds: a number by its printed text (`Number`'s `Display`), a
/// string and an array by reference, an object's members in the order of
/// `Map::iter`.
#[verifier::external_body]
pub(crate) fn unfold<'a>(v: &'a serde_json::Value) -> (n: JsonNode<'a>)
    ensures
        n.model() == json_model(*v),
{
    match v {
        serde_json::Value::Null => JsonNode::Null,
        serde_json::Value::Bool(b) => JsonNode::Bool(*b),
        serde_json::Value::Number(n) => JsonNode::Number(n.to_string()),
        serde_json::Value::String(s) => JsonNode::Text(s.as_str()),
        serde_json::Value::Array(items) => JsonNode::Array(items),
        serde_json::Value::Object(members) => JsonNode::Object(members.iter().collect()),
    }
}

/// Prints a document as compact JSON text.
///
/// Trusted: calls `Value::to_string`, that is `Display` for
/// `serde_json::Value` without the alternate flag. The contract names the
/// text `json_text` of the document's tree.
#[verifier::external_body]
pub(crate) fn render(v: &serde_json::Value) -> (s: String)
    ensures
        s@ == json_text(json_model(*v)),
{
    v.to_string()
}

/// Prints `s` as a JSON string literal, quoted and escaped.
///
/// Trusted: builds `serde_json::Value::String` from `s` and calls its
/// `to_string`. The contract names the text `json_text` of the string
/// document that holds `s`.
#[verifier::external_body]
pub(crate) fn quote(s: &str) -> (r: String)
    ensures
        r@ == json_text(JsonModel::Text(s@)),
{
    serde_json::Value::String(s.to_owned()).to_string()
}

/// The member called `key` of the object `v`.
pub fn member<'a>(v: &'a serde_json::Value, key: &str) -> (r: Option<&'a serde_json::Value>)
    ensures
        model_of(r) == model_member(json_model(*v), key@),
{
    let wanted = key.to_owned();
    match unfold(v) {
        JsonNode::Object(members) => {
            let ghost all = member_models(members@);
            assert(all.skip(0) =~= all);
            let mut i: usize = 0;
            while i < members.len()
                invariant
                    i <= members.len(),
                    wanted@ == key@,
                    all == member_models(members@),
                    json_model(*v) == JsonModel::Object(all),
                    find_member(all, key@) == find_member(all.skip(i as int), key@),
                decreases members.len() - i,
            {
                let (k, x) = members[i];
                assert(all.skip(i as int)[0] == all[i as int]);
                assert(all.skip(i as int).drop_first() =~= all.skip(i + 1));
                if *k == wanted {
                    return Some(x);
                }
                i += 1;
            }
            None
        },
        _ => None,
    }
}

/// The member called `key` of an optional object.
pub fn member_of<'a>(v: Option<&'a serde_json::Value>, key: &str) -> (r: Option<
    &'a serde_json::Value,
>)
    ensures
        model_of(r) == model_member_of(model_of(v), key@),
{
    match v {
        Some(x) => member(x, key),
        None => None,
    }
}

/// The content of `v` where it is a string.
pub fn text_of(v: Option<&serde_json::Value>) -> (r: Option<String>)
    ensures
        optional_text(r) == model_text(model_of(v)),
{
    match v {
        Some(x) => match unfold(x) {
            JsonNode::Text(t) => Some(t.to_owned()),
            _ => None,
        },
        None => None,
    }
}

} // verus!
