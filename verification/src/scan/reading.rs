//! Reading the answers of the scan service: what it says when it accepts a
//! submission, and the page metadata and verdict of a finished scan.

use super::{Submission, SubmissionView};
use crate::json::{
    json_model, json_text, member, member_of, model_member, model_member_of, model_of,
    model_text, render, text_of, unfold, JsonModel, JsonNode,
};
use crate::record::{Field, FieldValueView, Record, RecordView};
use crate::text::optional_text;
use vstd::prelude::*;

verus! {

/// What an optional text member holds: nothing where the member is missing
/// or `null`, its content where it is a string. The outer `None` marks a
/// member of any other kind.
pub open spec fn optional_text_member(document: JsonModel, key: Seq<char>) -> Option<
    Option<Seq<char>>,
> {
    match model_member(document, key) {
        None => Some(None),
        Some(JsonModel::Null) => Some(None),
        Some(JsonModel::Text(t)) => Some(Some(t)),
        Some(_) => None,
    }
}

/// The user agent that the `options` member of a submission answer names.
/// The member may be missing or `null`; otherwise it is an object whose
/// `useragent` is an optional text.
pub open spec fn useragent_of(document: JsonModel) -> Option<Option<Seq<char>>> {
    match model_member(document, "options"@) {
        None => Some(None),
        Some(JsonModel::Null) => Some(None),
        Some(JsonModel::Object(members)) => optional_text_member(
            JsonModel::Object(members),
            "useragent"@,
        ),
        Some(_) => None,
    }
}

/// The submission that an answer of the scan service holds: the texts
/// `uuid`, `result`, `api` and `visibility` are required, `options` and
/// `country` are optional, other members are ignored.
pub open spec fn submission_of(document: JsonModel) -> Option<SubmissionView> {
    let uuid = model_text(model_member(document, "uuid"@));
    let result_url = model_text(model_member(document, "result"@));
    let api_url = model_text(model_member(document, "api"@));
    let visibility = model_text(model_member(document, "visibility"@));
    let useragent = useragent_of(document);
    let country = optional_text_member(document, "country"@);
    if uuid is Some && result_url is Some && api_url is Some && visibility is Some
        && useragent is Some && country is Some {
        Some(
            SubmissionView {
                uuid: uuid.unwrap(),
                result_url: result_url.unwrap(),
                api_url: api_url.unwrap(),
                visibility: visibility.unwrap(),
                useragent: useragent.unwrap(),
                country: country.unwrap(),
            },
        )
    } else {
        None
    }
}

/// The view of an optional submission.
pub open spec fn optional_submission(s: Option<Submission>) -> Option<SubmissionView> {
    match s {
        Some(x) => Some(x@),
        None => None,
    }
}

/// `text` where there is one, else `fallback`.
pub open spec fn text_or(text: Option<Seq<char>>, fallback: Seq<char>) -> Seq<char> {
    match text {
        Some(t) => t,
        None => fallback,
    }
}

/// The compact JSON text of `document` where there is one, else `fallback`.
pub open spec fn printed_or(document: Option<JsonModel>, fallback: Seq<char>) -> Seq<char> {
    match document {
        Some(d) => json_text(d),
        None => fallback,
    }
}

/// The page metadata of a scan result: the texts `asn`, `ip` and `title` of
/// its `page` member, each "N/A" where the result does not hold it.
pub open spec fn page_metadata_of(document: JsonModel) -> RecordView {
    let page = model_member(document, "page"@);
    seq![
        ("asn"@, FieldValueView::Text(text_or(model_text(model_member_of(page, "asn"@)), "N/A"@))),
        ("ip"@, FieldValueView::Text(text_or(model_text(model_member_of(page, "ip"@)), "N/A"@))),
        (
            "title"@,
            FieldValueView::Text(text_or(model_text(model_member_of(page, "title"@)), "N/A"@)),
        ),
    ]
}

/// The verdict of a scan result: the printed `score` and `brands` of the
/// `urlscan` member of its `verdicts`, "N/A" and "[]" where the result does
/// not hold them.
pub open spec fn verdict_of(document: JsonModel) -> RecordView {
    let verdicts = model_member_of(model_member(document, "verdicts"@), "urlscan"@);
    seq![
        (
            "verdict_score"@,
            FieldValueView::Text(printed_or(model_member_of(verdicts, "score"@), "N/A"@)),
        ),
        (
            "verdict_brands"@,
            FieldValueView::Text(printed_or(model_member_of(verdicts, "brands"@), "[]"@)),
        ),
    ]
}

/// Reads an optional text member of the object `v`.
fn read_optional_text(v: &serde_json::Value, key: &str) -> (r: Option<Option<String>>)
    ensures
        match r {
            Some(t) => optional_text_member(json_model(*v), key@) == Some(optional_text(t)),
            None => optional_text_member(json_model(*v), key@) is None,
        },
{
    match member(v, key) {
        None => Some(None),
        Some(x) => match unfold(x) {
            JsonNode::Null => Some(None),
            JsonNode::Text(t) => Some(Some(t.to_owned())),
            _ => None,
        },
    }
}

/// Reads the user agent out of the `options` member of the object `v`.
fn read_useragent(v: &serde_json::Value) -> (r: Option<Option<String>>)
    ensures
        match r {
            Some(t) => useragent_of(json_model(*v)) == Some(optional_text(t)),
            None => useragent_of(json_model(*v)) is None,
        },
{
    match member(v, "options") {
        None => Some(None),
        Some(x) => match unfold(x) {
            JsonNode::Null => Some(None),
            JsonNode::Object(_) => read_optional_text(x, "useragent"),
            _ => None,
        },
    }
}

impl Submission {
    /// Reads a submission out of an answer of the scan service.
    pub fn from_document(v: &serde_json::Value) -> (r: Option<Submission>)
        ensures
            optional_submission(r) == submission_of(json_model(*v)),
    {
        let uuid = text_of(member(v, "uuid"));
        let result_url = text_of(member(v, "result"));
        let api_url = text_of(member(v, "api"));
        let visibility = text_of(member(v, "visibility"));
        let useragent = read_useragent(v);
        let country = read_optional_text(v, "country");
        match (uuid, result_url, api_url, visibility, useragent, country) {
            (Some(uuid), Some(result_url), Some(api_url), Some(visibility), Some(useragent), Some(country)) => Some(
                Submission { uuid, result_url, api_url, visibility, useragent, country },
            ),
            _ => None,
        }
    }
}

/// The text of `v` where it is a string, else `fallback`.
fn text_or_fallback(v: Option<&serde_json::Value>, fallback: &str) -> (r: String)
    ensures
        r@ == text_or(model_text(model_of(v)), fallback@),
{
    match text_of(v) {
        Some(t) => t,
        None => fallback.to_owned(),
    }
}

/// The compact JSON text of `v` where there is one, else `fallback`.
fn printed_or_fallback(v: Option<&serde_json::Value>, fallback: &str) -> (r: String)
    ensures
        r@ == printed_or(model_of(v), fallback@),
{
    match v {
        Some(x) => render(x),
        None => fallback.to_owned(),
    }
}

/// Reads the page metadata out of a scan result.
pub fn page_metadata_from(document: &serde_json::Value) -> (r: Record)
    ensures
        r@ == page_metadata_of(json_model(*document)),
{
    let page = member(document, "page");
    let mut fields: Vec<Field> = Vec::new();
    fields.push(Field::text("asn", text_or_fallback(member_of(page, "asn"), "N/A")));
    fields.push(Field::text("ip", text_or_fallback(member_of(page, "ip"), "N/A")));
    fields.push(Field::text("title", text_or_fallback(member_of(page, "title"), "N/A")));
    let r = Record { fields };
    assert(r@ =~= page_metadata_of(json_model(*document)));
    r
}

/// Reads the verdict out of a scan result.
pub fn verdict_from(document: &serde_json::Value) -> (r: Record)
    ensures
        r@ == verdict_of(json_model(*document)),
{
    let verdicts = member_of(member(document, "verdicts"), "urlscan");
    let mut fields: Vec<Field> = Vec::new();
    fields.push(
        Field::text("verdict_score", printed_or_fallback(member_of(verdicts, "score"), "N/A")),
    );
    fields.push(
        Field::text("verdict_brands", printed_or_fallback(member_of(verdicts, "brands"), "[]")),
    );
    let r = Record { fields };
    assert(r@ =~= verdict_of(json_model(*document)));
    r
}

} // verus!
