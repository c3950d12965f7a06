//! The staged persistence of a scan: one row that is written when the
//! submission is accepted and filled in as the result, the screenshot and
//! the document snapshot arrive. Each stage writes columns that no other
//! stage writes, so a reader in between sees a row that only ever gains
//! columns.

use crate::json::JsonModel;
use crate::record::field_names;
use crate::scan::reading::{page_metadata_of, verdict_of};
use crate::scan::session::{ScanSession, ScanSessionView};
use crate::scan::{DOMAIN_TABLE, SCAN_KEY_FIELD, SNAPSHOT_TABLE};
use crate::sink::{
    insert_on_conflict, insert_on_conflict_of, insert_or_replace, insert_or_replace_of,
    update_where, update_where_of, Statement, StatementView,
};
use vstd::prelude::*;

verus! {

/// The view of an optional statement that is owned.
pub open spec fn owned_statement(s: Option<Statement>) -> Option<StatementView> {
    match s {
        Some(x) => Some(x@),
        None => None,
    }
}

impl ScanSessionView {
    /// The first stage: the row of the submission, written whole.
    pub open spec fn submission_statement(self) -> StatementView {
        insert_or_replace_of(DOMAIN_TABLE@, self.submission_record())
    }

    /// The second stage: the page metadata and the verdict, filled into the
    /// row of the scan.
    pub open spec fn enrichment_statement(self) -> Option<StatementView> {
        match self.enrichment_record() {
            Some(record) => Some(
                update_where_of(
                    DOMAIN_TABLE@,
                    SCAN_KEY_FIELD@,
                    self.result.handle.id,
                    record,
                ),
            ),
            None => None,
        }
    }

    /// The third stage: where the screenshot is kept, filled into the row
    /// of the scan.
    pub open spec fn screenshot_statement(self) -> Option<StatementView> {
        match self.screenshot_record() {
            Some(record) => Some(
                update_where_of(
                    DOMAIN_TABLE@,
                    SCAN_KEY_FIELD@,
                    self.result.handle.id,
                    record,
                ),
            ),
            None => None,
        }
    }

    /// The snapshot row of the scan, inserted or overwritten.
    pub open spec fn dom_statement(self) -> Option<StatementView> {
        match self.dom_record() {
            Some(record) => Some(
                insert_on_conflict_of(SNAPSHOT_TABLE@, SCAN_KEY_FIELD@, record),
            ),
            None => None,
        }
    }
}

/// The statement to execute as soon as the submission is accepted, so that
/// the handle is on record even if polling later times out.
pub fn submission_statement(session: &ScanSession) -> (s: Statement)
    ensures
        s@ == session@.submission_statement(),
{
    insert_or_replace(DOMAIN_TABLE, &session.submission_record())
}

/// The statement to execute once the result is collected; `None` before.
pub fn enrichment_statement(session: &ScanSession) -> (s: Option<Statement>)
    ensures
        owned_statement(s) == session@.enrichment_statement(),
{
    match session.enrichment_record() {
        Some(record) => Some(
            update_where(
                DOMAIN_TABLE,
                SCAN_KEY_FIELD,
                session.handle().id.as_str(),
                &record,
            ),
        ),
        None => None,
    }
}

/// The statement to execute once the screenshot is stored; `None` without
/// a screenshot.
pub fn screenshot_statement(session: &ScanSession) -> (s: Option<Statement>)
    ensures
        owned_statement(s) == session@.screenshot_statement(),
{
    match session.screenshot_record() {
        Some(record) => Some(
            update_where(
                DOMAIN_TABLE,
                SCAN_KEY_FIELD,
                session.handle().id.as_str(),
                &record,
            ),
        ),
        None => None,
    }
}

/// The statement to execute once the document snapshot is there; `None`
/// without one.
pub fn dom_statement(session: &ScanSession) -> (s: Option<Statement>)
    ensures
        owned_statement(s) == session@.dom_statement(),
{
    match session.dom_record() {
        Some(record) => Some(
            insert_on_conflict(SNAPSHOT_TABLE, SCAN_KEY_FIELD, &record),
        ),
        None => None,
    }
}

/// Whether `name` is the name of a column that the first stage writes.
pub open spec fn in_first_stage(name: Seq<char>) -> bool {
    name == "domain"@ || name == "uuid"@ || name == "result_url"@ || name == "api_url"@ || name
        == "visibility"@ || name == "useragent"@ || name == "country"@
}

/// Whether `name` is the name of a column that the second stage writes.
pub open spec fn in_second_stage(name: Seq<char>) -> bool {
    name == "asn"@ || name == "ip"@ || name == "title"@ || name == "verdict_score"@ || name
        == "verdict_brands"@
}

/// Whether `name` is the name of the column that the third stage writes.
pub open spec fn in_third_stage(name: Seq<char>) -> bool {
    name == "screenshot_path"@
}

/// The three stages of a scan's row write disjoint sets of columns: the
/// columns of each stage's record are the columns of that stage, and no
/// column belongs to two stages. So a later stage overwrites nothing that an
/// earlier stage wrote.
pub proof fn lemma_stages_write_disjoint_columns(
    s: ScanSessionView,
    document: JsonModel,
    name: Seq<char>,
)
    ensures
        field_names(s.submission_record()).contains(name) <==> in_first_stage(name),
        field_names(s.collected(document).enrichment_record().unwrap()).contains(name)
            <==> in_second_stage(name),
        !(in_first_stage(name) && in_second_stage(name)),
        !(in_first_stage(name) && in_third_stage(name)),
        !(in_second_stage(name) && in_third_stage(name)),
{
    reveal_strlit("domain");
    reveal_strlit("uuid");
    reveal_strlit("result_url");
    reveal_strlit("api_url");
    reveal_strlit("visibility");
    reveal_strlit("useragent");
    reveal_strlit("country");
    reveal_strlit("asn");
    reveal_strlit("ip");
    reveal_strlit("title");
    reveal_strlit("verdict_score");
    reveal_strlit("verdict_brands");
    reveal_strlit("screenshot_path");
    let first = field_names(s.submission_record());
    assert(first.len() == 7);
    assert(first[0] == "domain"@ && first[1] == "uuid"@ && first[2] == "result_url"@ && first[3]
        == "api_url"@ && first[4] == "visibility"@ && first[5] == "useragent"@ && first[6]
        == "country"@);
    let second = field_names(s.collected(document).enrichment_record().unwrap());
    let page = page_metadata_of(document);
    let verdict = verdict_of(document);
    assert(s.collected(document).enrichment_record().unwrap() == page + verdict);
    assert(second.len() == 5);
    assert(second[0] == "asn"@ && second[1] == "ip"@ && second[2] == "title"@ && second[3]
        == "verdict_score"@ && second[4] == "verdict_brands"@);
}

} // verus!
