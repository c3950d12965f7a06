//! The record sink: the statements that write records to a relational
//! store, idempotently and keyed by a unique field, and the bookkeeping of a
//! batch that is written to one store or to several.
//!
//! Nothing here talks to a database. The caller executes each statement and
//! hands back how it went.

use crate::record::{field_names, FieldValue, FieldValueView, Record, RecordBatch, RecordView};
use crate::scan::{DOMAIN_TABLE, SCAN_KEY_FIELD, SNAPSHOT_TABLE};
use crate::text::{decimal_digits, join, joined, optional_text, push_decimal, texts};
use vstd::prelude::*;
use vstd::string::StringExecFns;

verus! {

/// A statement with the values bound to its markers `$1`, `$2`, ... A
/// marker that is bound to `None` holds nothing: the store writes a null.
#[derive(Debug, Clone, PartialEq, Eq)]
pub struct Statement {
    pub sql: String,
    pub params: Vec<Option<String>>,
}

/// A statement as mathematics.
pub struct StatementView {
    pub sql: Seq<char>,
    pub params: Seq<Option<Seq<char>>>,
}

/// The bound values of a list, as mathematics.
pub open spec fn bound_texts(params: Seq<Option<String>>) -> Seq<Option<Seq<char>>> {
    Seq::new(params.len(), |i: int| optional_text(params[i]))
}

impl View for Statement {
    type V = StatementView;

    open spec fn view(&self) -> StatementView {
        StatementView { sql: self.sql@, params: bound_texts(self.params@) }
    }
}

/// What `value` is bound as: a text as it is, a number by its digits, a
/// boolean as `true` or `false`, an array or an object by its compact JSON
/// text, and an absent value as nothing.
pub open spec fn bound(value: FieldValueView) -> Option<Seq<char>> {
    match value {
        FieldValueView::Text(t) => Some(t),
        FieldValueView::Number(t) => Some(t),
        FieldValueView::Bool(b) => if b {
            Some("true"@)
        } else {
            Some("false"@)
        },
        FieldValueView::Absent => None,
        FieldValueView::Nested(t) => Some(t),
    }
}

/// What the values of `record` are bound as, in field order.
pub open spec fn bound_values(record: RecordView) -> Seq<Option<Seq<char>>> {
    Seq::new(record.len(), |i: int| bound(record[i].1))
}

/// The marker of the `i`-th value, counted from 1.
pub open spec fn marker(i: nat) -> Seq<char> {
    "$"@ + decimal_digits(i)
}

/// The markers `$1` to `$n`.
pub open spec fn markers(n: nat) -> Seq<Seq<char>> {
    Seq::new(n, |i: int| marker((i + 1) as nat))
}

/// One assignment `column = $i` for each column, counted from 1.
pub open spec fn assignments(columns: Seq<Seq<char>>) -> Seq<Seq<char>> {
    Seq::new(columns.len(), |i: int| columns[i] + " = "@ + marker((i + 1) as nat))
}

/// The statement text that inserts a row or replaces the row with the same
/// key.
pub open spec fn insert_or_replace_text(table: Seq<char>, columns: Seq<Seq<char>>) -> Seq<char> {
    "INSERT OR REPLACE INTO "@ + table + " ("@ + joined(columns, ", "@) + ") VALUES ("@ + joined(
        markers(columns.len()),
        ", "@,
    ) + ")"@
}

/// The statement text that inserts a row or, where a row with the same key
/// exists, overwrites each of the named columns in it.
pub open spec fn insert_on_conflict_text(
    table: Seq<char>,
    key_field: Seq<char>,
    columns: Seq<Seq<char>>,
) -> Seq<char> {
    "INSERT INTO "@ + table + " ("@ + joined(columns, ", "@) + ") VALUES ("@ + joined(
        markers(columns.len()),
        ", "@,
    ) + ") ON CONFLICT ("@ + key_field + ") DO UPDATE SET "@ + joined(assignments(columns), ", "@)
}

/// The statement text that overwrites the named columns of the row with a
/// given key and leaves its other columns alone. The key is bound last.
pub open spec fn update_where_text(
    table: Seq<char>,
    key_field: Seq<char>,
    columns: Seq<Seq<char>>,
) -> Seq<char> {
    "UPDATE "@ + table + " SET "@ + joined(assignments(columns), ", "@) + " WHERE "@ + key_field
        + " = "@ + marker(columns.len() + 1)
}

/// The insert-or-replace statement of one record.
pub open spec fn insert_or_replace_of(table: Seq<char>, record: RecordView) -> StatementView {
    StatementView {
        sql: insert_or_replace_text(table, field_names(record)),
        params: bound_values(record),
    }
}

/// The insert-on-conflict statement of one record.
pub open spec fn insert_on_conflict_of(
    table: Seq<char>,
    key_field: Seq<char>,
    record: RecordView,
) -> StatementView {
    StatementView {
        sql: insert_on_conflict_text(table, key_field, field_names(record)),
        params: bound_values(record),
    }
}

/// The update statement that fills the columns of `record` into the row
/// keyed `key`.
pub open spec fn update_where_of(
    table: Seq<char>,
    key_field: Seq<char>,
    key: Seq<char>,
    record: RecordView,
) -> StatementView {
    StatementView {
        sql: update_where_text(table, key_field, field_names(record)),
        params: bound_values(record).push(Some(key)),
    }
}

/// What `value` is bound as.
pub fn bind(value: &FieldValue) -> (text: Option<String>)
    ensures
        optional_text(text) == bound(value@),
{
    match value {
        FieldValue::Text(t) => Some(t.clone()),
        FieldValue::Number(t) => Some(t.clone()),
        FieldValue::Bool(b) => if *b {
            Some(String::from_str("true"))
        } else {
            Some(String::from_str("false"))
        },
        FieldValue::Absent => None,
        FieldValue::Nested(t) => Some(t.clone()),
    }
}

/// What the values of `record` are bound as, in field order.
fn bind_values(record: &Record) -> (values: Vec<Option<String>>)
    ensures
        bound_texts(values@) == bound_values(record@),
{
    let mut values: Vec<Option<String>> = Vec::new();
    let mut i: usize = 0;
    while i < record.fields.len()
        invariant
            i <= record.fields.len(),
            values@.len() == i,
            forall|j: int|
                0 <= j < i ==> optional_text(#[trigger] values@[j]) == bound(
                    record.fields@[j].value@,
                ),
        decreases record.fields.len() - i,
    {
        values.push(bind(&record.fields[i].value));
        i += 1;
    }
    assert(bound_texts(values@) =~= bound_values(record@));
    values
}

/// The names of the fields of `record`, in order.
fn column_names(record: &Record) -> (names: Vec<String>)
    ensures
        texts(names@) == field_names(record@),
{
    let mut names: Vec<String> = Vec::new();
    let mut i: usize = 0;
    while i < record.fields.len()
        invariant
            i <= record.fields.len(),
            names@.len() == i,
            forall|j: int| 0 <= j < i ==> (#[trigger] names@[j])@ == record.fields@[j].name@,
        decreases record.fields.len() - i,
    {
        names.push(record.fields[i].name.clone());
        i += 1;
    }
    assert(texts(names@) =~= field_names(record@));
    names
}

/// The marker of the `i`-th value.
fn make_marker(i: u128) -> (text: String)
    ensures
        text@ == marker(i as nat),
{
    let mut text = String::from_str("$");
    push_decimal(&mut text, i);
    text
}

/// The markers `$1` to `$n`.
fn make_markers(n: usize) -> (list: Vec<String>)
    ensures
        texts(list@) == markers(n as nat),
{
    let mut list: Vec<String> = Vec::new();
    let mut i: usize = 0;
    while i < n
        invariant
            i <= n,
            list@.len() == i,
            forall|j: int| 0 <= j < i ==> (#[trigger] list@[j])@ == marker((j + 1) as nat),
        decreases n - i,
    {
        list.push(make_marker(i as u128 + 1));
        i += 1;
    }
    assert(texts(list@) =~= markers(n as nat));
    list
}

/// One assignment `column = $i` for each column.
fn make_assignments(columns: &Vec<String>) -> (list: Vec<String>)
    ensures
        texts(list@) == assignments(texts(columns@)),
{
    let mut list: Vec<String> = Vec::new();
    let mut i: usize = 0;
    while i < columns.len()
        invariant
            i <= columns.len(),
            list@.len() == i,
            forall|j: int|
                0 <= j < i ==> (#[trigger] list@[j])@ == columns@[j]@ + " = "@ + marker(
                    (j + 1) as nat,
                ),
        decreases columns.len() - i,
    {
        let mut text = columns[i].clone();
        text.append(" = ");
        text.append(make_marker(i as u128 + 1).as_str());
        list.push(text);
        i += 1;
    }
    assert(texts(list@) =~= assignments(texts(columns@)));
    list
}

/// The statement that inserts `record` into `table` or replaces the row
/// with the same key: last write wins, nothing of the old row is kept.
pub fn insert_or_replace(table: &str, record: &Record) -> (statement: Statement)
    ensures
        statement@ == insert_or_replace_of(table@, record@),
{
    let columns = column_names(record);
    let mut sql = String::from_str("INSERT OR REPLACE INTO ");
    sql.append(table);
    sql.append(" (");
    sql.append(join(&columns, ", ").as_str());
    sql.append(") VALUES (");
    sql.append(join(&make_markers(columns.len()), ", ").as_str());
    sql.append(")");
    Statement { sql, params: bind_values(record) }
}

/// The statement that inserts `record` into `table` or, where a row with
/// the same `key_field` exists, overwrites each column of the record in it.
pub fn insert_on_conflict(table: &str, key_field: &str, record: &Record) -> (statement: Statement)
    ensures
        statement@ == insert_on_conflict_of(table@, key_field@, record@),
{
    let columns = column_names(record);
    let mut sql = String::from_str("INSERT INTO ");
    sql.append(table);
    sql.append(" (");
    sql.append(join(&columns, ", ").as_str());
    sql.append(") VALUES (");
    sql.append(join(&make_markers(columns.len()), ", ").as_str());
    sql.append(") ON CONFLICT (");
    sql.append(key_field);
    sql.append(") DO UPDATE SET ");
    sql.append(join(&make_assignments(&columns), ", ").as_str());
    Statement { sql, params: bind_values(record) }
}

/// The statement of one stage of a staged write: it fills the columns of
/// `record` into the row of `table` whose `key_field` is `key`, and leaves
/// the other columns of that row as earlier stages wrote them.
pub fn update_where(
    table: &str,
    key_field: &str,
    key: &str,
    record: &Record,
) -> (statement: Statement)
    ensures
        statement@ == update_where_of(table@, key_field@, key@, record@),
{
    let columns = column_names(record);
    let mut sql = String::from_str("UPDATE ");
    sql.append(table);
    sql.append(" SET ");
    sql.append(join(&make_assignments(&columns), ", ").as_str());
    sql.append(" WHERE ");
    sql.append(key_field);
    sql.append(" = ");
    sql.append(make_marker(columns.len() as u128 + 1).as_str());
    let mut params = bind_values(record);
    let ghost before = bound_texts(params@);
    params.push(Some(key.to_owned()));
    assert(bound_texts(params@) =~= before.push(Some(key@)));
    Statement { sql, params }
}

/// The statements of a list, as mathematics.
pub open spec fn statement_views(list: Seq<Statement>) -> Seq<StatementView> {
    Seq::new(list.len(), |i: int| list[i]@)
}

/// The table of account records.
pub const ACCOUNTS_TABLE: &'static str = "ethereum_accounts";

/// The table of transaction records.
pub const TRANSACTIONS_TABLE: &'static str = "ethereum_transactions";

/// The field under which the rows of a table are unique: the address for
/// the accounts, the scan's identifier for the two scan tables, and the
/// transaction hash for the transactions and for any table not named here.
pub open spec fn primary_key_of(table: Seq<char>) -> Seq<char> {
    if table == ACCOUNTS_TABLE@ {
        "address"@
    } else if table == DOMAIN_TABLE@ || table == SNAPSHOT_TABLE@ {
        SCAN_KEY_FIELD@
    } else {
        "transaction_hash"@
    }
}

/// Each of the four persisted tables is keyed by its own field: the
/// accounts by the address, the transactions by the transaction hash, and
/// both scan tables by the scan's identifier.
pub proof fn lemma_persisted_tables_have_their_keys()
    ensures
        primary_key_of(ACCOUNTS_TABLE@) == "address"@,
        primary_key_of(TRANSACTIONS_TABLE@) == "transaction_hash"@,
        primary_key_of(DOMAIN_TABLE@) == SCAN_KEY_FIELD@,
        primary_key_of(SNAPSHOT_TABLE@) == SCAN_KEY_FIELD@,
{
    reveal_strlit("ethereum_accounts");
    reveal_strlit("ethereum_transactions");
    reveal_strlit("urlscan_domain_data");
    reveal_strlit("urlscan_dom_snapshot");
    assert(ACCOUNTS_TABLE@.len() == 17);
    assert(TRANSACTIONS_TABLE@.len() == 21);
    assert(DOMAIN_TABLE@.len() == 19);
    assert(SNAPSHOT_TABLE@.len() == 20);
}

/// The field under which the rows of `table` are unique.
pub fn primary_key(table: &str) -> (key: String)
    ensures
        key@ == primary_key_of(table@),
{
    let name = table.to_owned();
    if name == String::from_str(ACCOUNTS_TABLE) {
        String::from_str("address")
    } else if name == String::from_str(DOMAIN_TABLE) || name == String::from_str(SNAPSHOT_TABLE) {
        String::from_str(SCAN_KEY_FIELD)
    } else {
        String::from_str("transaction_hash")
    }
}

/// The statements that insert each record of a batch or replace the row
/// with its key, in the order of the batch.
pub open spec fn replacing_statements(data: Seq<Record>, table: Seq<char>) -> Seq<StatementView> {
    Seq::new(data.len(), |i: int| insert_or_replace_of(table, data[i]@))
}

/// The statements that insert each record of a batch or overwrite its
/// columns in the row with its key, in the order of the batch.
pub open spec fn upserting_statements(data: Seq<Record>, table: Seq<char>) -> Seq<StatementView> {
    Seq::new(data.len(), |i: int| insert_on_conflict_of(table, primary_key_of(table), data[i]@))
}

/// One insert-or-replace statement for each record of `data`, in order.
/// Every field is bound with its value: a text as it is, a number by its
/// digits, a boolean as `true` or `false`, an absent value as null.
pub fn save_records(data: &RecordBatch, table_name: &str) -> (statements: Vec<Statement>)
    ensures
        statement_views(statements@) == replacing_statements(data@, table_name@),
{
    let mut statements: Vec<Statement> = Vec::new();
    let mut i: usize = 0;
    while i < data.len()
        invariant
            i <= data.len(),
            statements@.len() == i,
            forall|j: int|
                0 <= j < i ==> (#[trigger] statements@[j])@ == insert_or_replace_of(
                    table_name@,
                    data@[j]@,
                ),
        decreases data.len() - i,
    {
        statements.push(insert_or_replace(table_name, &data[i]));
        i += 1;
    }
    assert(statement_views(statements@) =~= replacing_statements(data@, table_name@));
    statements
}

/// One insert-or-replace statement for each record of `data`, in order,
/// with every field bound with its value.
pub fn save_to_sqlite(data: &RecordBatch, table_name: &str) -> (statements: Vec<Statement>)
    ensures
        statement_views(statements@) == replacing_statements(data@, table_name@),
{
    save_records(data, table_name)
}

/// One insert-on-conflict statement for each record of `data`, in order,
/// keyed by the field under which the rows of the table are unique, with
/// every field bound with its value.
pub fn save_to_postgres(data: &RecordBatch, table_name: &str) -> (statements: Vec<Statement>)
    ensures
        statement_views(statements@) == upserting_statements(data@, table_name@),
{
    let key = primary_key(table_name);
    let mut statements: Vec<Statement> = Vec::new();
    let mut i: usize = 0;
    while i < data.len()
        invariant
            i <= data.len(),
            key@ == primary_key_of(table_name@),
            statements@.len() == i,
            forall|j: int|
                0 <= j < i ==> (#[trigger] statements@[j])@ == insert_on_conflict_of(
                    table_name@,
                    primary_key_of(table_name@),
                    data@[j]@,
                ),
        decreases data.len() - i,
    {
        statements.push(insert_on_conflict(table_name, key.as_str(), &data[i]));
        i += 1;
    }
    assert(statement_views(statements@) =~= upserting_statements(data@, table_name@));
    statements
}

/// Why a write did not go through.
#[derive(Debug, Clone, Copy, PartialEq, Eq)]
pub enum SinkError {
    /// The store does not know a field of the record. The record is skipped
    /// and the batch goes on.
    SchemaMismatch,
    /// The store is gone. The batch stops; nothing is retried.
    ConnectionLost,
}

/// How the execution of one statement went.
#[derive(Debug, Clone, Copy, PartialEq, Eq)]
pub enum WriteOutcome {
    Written,
    Failed(SinkError),
}

/// What a batch came to in a store that stayed there.
#[derive(Debug, Clone, PartialEq, Eq)]
pub struct WriteReport {
    /// How many records were written.
    pub written: usize,
    /// The positions in the batch of the records that were skipped.
    pub skipped: Vec<usize>,
}

/// The positions of a list, as mathematics.
pub open spec fn positions(list: Seq<usize>) -> Seq<nat> {
    Seq::new(list.len(), |i: int| list[i] as nat)
}

/// The write of one batch to one store, as mathematics.
pub struct BatchWriteView {
    pub statements: Seq<StatementView>,
    /// The position of the statement to execute next.
    pub next: nat,
    pub skipped: Seq<nat>,
    pub lost: bool,
}

impl BatchWriteView {
    /// The invariant of a batch write.
    pub open spec fn wf(self) -> bool {
        self.next <= self.statements.len() && self.skipped.len() <= self.next
    }

    /// Whether nothing is left to execute: every statement has had its
    /// turn, or the store is gone.
    pub open spec fn finished(self) -> bool {
        self.lost || self.next >= self.statements.len()
    }

    /// The statement to execute next.
    pub open spec fn pending(self) -> Option<StatementView> {
        if self.finished() {
            None
        } else {
            Some(self.statements[self.next as int])
        }
    }

    /// The write after the pending statement was executed. A written record
    /// and a skipped one both let the batch go on with the next; a lost
    /// connection stops it. A finished write stays as it is.
    pub open spec fn after_outcome(self, outcome: WriteOutcome) -> BatchWriteView {
        if self.finished() {
            self
        } else {
            match outcome {
                WriteOutcome::Written => BatchWriteView { next: self.next + 1, ..self },
                WriteOutcome::Failed(SinkError::SchemaMismatch) => BatchWriteView {
                    next: self.next + 1,
                    skipped: self.skipped.push(self.next),
                    ..self
                },
                WriteOutcome::Failed(SinkError::ConnectionLost) => BatchWriteView {
                    lost: true,
                    ..self
                },
            }
        }
    }

    /// What the write came to: the lost connection, else how many records
    /// were written and which were skipped.
    pub open spec fn report(self) -> Result<(nat, Seq<nat>), SinkError> {
        if self.lost {
            Err(SinkError::ConnectionLost)
        } else {
            Ok(((self.next - self.skipped.len()) as nat, self.skipped))
        }
    }
}

/// The write of one batch to one store.
pub struct BatchWrite {
    statements: Vec<Statement>,
    next: usize,
    skipped: Vec<usize>,
    lost: bool,
}

impl View for BatchWrite {
    type V = BatchWriteView;

    closed spec fn view(&self) -> BatchWriteView {
        BatchWriteView {
            statements: statement_views(self.statements@),
            next: self.next as nat,
            skipped: positions(self.skipped@),
            lost: self.lost,
        }
    }
}

/// The view of an optional statement.
pub open spec fn optional_statement(s: Option<&Statement>) -> Option<StatementView> {
    match s {
        Some(x) => Some(x@),
        None => None,
    }
}

/// The view of a report.
pub open spec fn report_view(r: Result<WriteReport, SinkError>) -> Result<
    (nat, Seq<nat>),
    SinkError,
> {
    match r {
        Ok(report) => Ok((report.written as nat, positions(report.skipped@))),
        Err(e) => Err(e),
    }
}

impl BatchWrite {
    /// A write that has every statement of `statements` before it.
    pub fn new(statements: Vec<Statement>) -> (w: BatchWrite)
        ensures
            w@ == (BatchWriteView {
                statements: statement_views(statements@),
                next: 0,
                skipped: Seq::empty(),
                lost: false,
            }),
            w@.wf(),
    {
        let w = BatchWrite { statements, next: 0, skipped: Vec::new(), lost: false };
        assert(positions(w.skipped@) =~= Seq::<nat>::empty());
        w
    }

    /// The statement to execute next; `None` once nothing is left.
    pub fn pending(&self) -> (s: Option<&Statement>)
        requires
            self@.wf(),
        ensures
            optional_statement(s) == self@.pending(),
    {
        if self.lost || self.next >= self.statements.len() {
            None
        } else {
            Some(&self.statements[self.next])
        }
    }

    /// Takes in how the execution of the pending statement went.
    pub fn record_outcome(&mut self, outcome: WriteOutcome)
        requires
            old(self)@.wf(),
        ensures
            final(self)@ == old(self)@.after_outcome(outcome),
            final(self)@.wf(),
    {
        if self.lost || self.next >= self.statements.len() {
            return ;
        }
        match outcome {
            WriteOutcome::Written => {
                self.next = self.next + 1;
            },
            WriteOutcome::Failed(SinkError::SchemaMismatch) => {
                let ghost before = positions(self.skipped@);
                self.skipped.push(self.next);
                assert(positions(self.skipped@) =~= before.push(self.next as nat));
                self.next = self.next + 1;
            },
            WriteOutcome::Failed(SinkError::ConnectionLost) => {
                self.lost = true;
            },
        }
    }

    /// What the write came to.
    pub fn report(self) -> (r: Result<WriteReport, SinkError>)
        requires
            self@.wf(),
        ensures
            report_view(r) == self@.report(),
    {
        if self.lost {
            Err(SinkError::ConnectionLost)
        } else {
            Ok(WriteReport { written: self.next - self.skipped.len(), skipped: self.skipped })
        }
    }
}

/// The writes of a list, as mathematics.
pub open spec fn write_views(list: Seq<BatchWrite>) -> Seq<BatchWriteView> {
    Seq::new(list.len(), |i: int| list[i]@)
}

/// Whether every write of `writes` keeps its invariant.
pub open spec fn all_wf(writes: Seq<BatchWriteView>) -> bool {
    forall|i: int| 0 <= i < writes.len() ==> (#[trigger] writes[i]).wf()
}

/// The writes after the store at position `backend` reported `outcome`:
/// that store's write moves on, every other write stays as it is. A position
/// that names no store changes nothing.
pub open spec fn after_backend_outcome(
    writes: Seq<BatchWriteView>,
    backend: nat,
    outcome: WriteOutcome,
) -> Seq<BatchWriteView> {
    if backend < writes.len() {
        writes.update(backend as int, writes[backend as int].after_outcome(outcome))
    } else {
        writes
    }
}

/// The first store at or after position `from` whose write is not
/// finished.
pub open spec fn first_unfinished(writes: Seq<BatchWriteView>, from: nat) -> Option<nat>
    decreases writes.len() - from,
{
    if from >= writes.len() {
        None
    } else if !writes[from as int].finished() {
        Some(from)
    } else {
        first_unfinished(writes, from + 1)
    }
}

/// What each store's write came to, one entry for each store.
pub open spec fn reports_of(writes: Seq<BatchWriteView>) -> Seq<Result<(nat, Seq<nat>), SinkError>> {
    Seq::new(writes.len(), |i: int| writes[i].report())
}

/// The reports of a list, as mathematics.
pub open spec fn report_views(list: Seq<Result<WriteReport, SinkError>>) -> Seq<
    Result<(nat, Seq<nat>), SinkError>,
> {
    Seq::new(list.len(), |i: int| report_view(list[i]))
}

/// One logical write fanned out to every active store. The stores share
/// nothing: each has its own write, and what happens to one neither blocks
/// nor rolls back another.
pub struct FanOut {
    writes: Vec<BatchWrite>,
}

impl View for FanOut {
    type V = Seq<BatchWriteView>;

    closed spec fn view(&self) -> Seq<BatchWriteView> {
        write_views(self.writes@)
    }
}

impl FanOut {
    /// A fan-out with one write for each store.
    pub fn new(writes: Vec<BatchWrite>) -> (f: FanOut)
        ensures
            f@ == write_views(writes@),
    {
        FanOut { writes }
    }

    /// How many stores take part.
    pub fn backends(&self) -> (n: usize)
        ensures
            n == self@.len(),
    {
        self.writes.len()
    }

    /// The first store that still has a statement to execute.
    pub fn next_backend(&self) -> (r: Option<usize>)
        requires
            all_wf(self@),
        ensures
            match r {
                Some(i) => first_unfinished(self@, 0) == Some(i as nat),
                None => first_unfinished(self@, 0) is None,
            },
    {
        let mut i: usize = 0;
        while i < self.writes.len()
            invariant
                i <= self.writes.len(),
                all_wf(self@),
                first_unfinished(self@, 0) == first_unfinished(self@, i as nat),
            decreases self.writes.len() - i,
        {
            assert(self@[i as int].wf());
            if self.writes[i].pending().is_some() {
                return Some(i);
            }
            i += 1;
        }
        None
    }

    /// The statement that the store at position `backend` executes next.
    pub fn pending(&self, backend: usize) -> (s: Option<&Statement>)
        requires
            all_wf(self@),
        ensures
            optional_statement(s) == if backend < self@.len() {
                self@[backend as int].pending()
            } else {
                None
            },
    {
        if backend < self.writes.len() {
            assert(self@[backend as int].wf());
            self.writes[backend].pending()
        } else {
            None
        }
    }

    /// Takes in how the store at position `backend` executed its pending
    /// statement. No other store's write is touched.
    pub fn record_outcome(&mut self, backend: usize, outcome: WriteOutcome)
        requires
            all_wf(old(self)@),
        ensures
            final(self)@ == after_backend_outcome(old(self)@, backend as nat, outcome),
            all_wf(final(self)@),
    {
        if backend < self.writes.len() {
            let ghost before = self@;
            assert(before[backend as int].wf());
            self.writes[backend].record_outcome(outcome);
            assert(self@ =~= after_backend_outcome(before, backend as nat, outcome));
            assert forall|i: int| 0 <= i < self@.len() implies (#[trigger] self@[i]).wf() by {
                if i != backend {
                    assert(self@[i] == before[i]);
                }
            }
        }
    }

    /// What each store's write came to, one entry for each store, in the
    /// order of the stores.
    pub fn reports(self) -> (r: Vec<Result<WriteReport, SinkError>>)
        requires
            all_wf(self@),
        ensures
            report_views(r@) == reports_of(self@),
    {
        let ghost all = self@;
        let mut writes = self.writes;
        let mut out: Vec<Result<WriteReport, SinkError>> = Vec::new();
        let ghost total = writes@.len();
        while writes.len() > 0
            invariant
                all_wf(all),
                total == all.len(),
                out@.len() + writes@.len() == total,
                forall|j: int| 0 <= j < out@.len() ==> report_view(#[trigger] out@[j]) == all[j].report(),
                forall|j: int|
                    0 <= j < writes@.len() ==> (#[trigger] writes@[j])@ == all[out@.len() + j],
            decreases writes.len(),
        {
            let ghost done = out@.len() as int;
            let ghost rest = writes@;
            let w = writes.remove(0);
            assert(w@ == all[done]);
            assert(all[done].wf());
            out.push(w.report());
            assert forall|j: int| 0 <= j < writes@.len() implies (#[trigger] writes@[j])@ == all[out@.len()
                + j] by {
                assert(writes@[j] == rest[j + 1]);
            }
        }
        assert(report_views(out@) =~= reports_of(all));
        out
    }
}

impl BatchWriteView {
    /// The write after the outcomes of `outcomes`, in order.
    pub open spec fn after_outcomes(self, outcomes: Seq<WriteOutcome>) -> BatchWriteView
        decreases outcomes.len(),
    {
        if outcomes.len() == 0 {
            self
        } else {
            self.after_outcome(outcomes[0]).after_outcomes(outcomes.drop_first())
        }
    }
}

/// The writes after the stores reported the outcomes of `events`, each with
/// the position of its store, in order.
pub open spec fn after_backend_outcomes(
    writes: Seq<BatchWriteView>,
    events: Seq<(nat, WriteOutcome)>,
) -> Seq<BatchWriteView>
    decreases events.len(),
{
    if events.len() == 0 {
        writes
    } else {
        after_backend_outcomes(
            after_backend_outcome(writes, events[0].0, events[0].1),
            events.drop_first(),
        )
    }
}

/// The outcomes that the store at position `backend` reported among
/// `events`, in order.
pub open spec fn own_outcomes(events: Seq<(nat, WriteOutcome)>, backend: nat) -> Seq<WriteOutcome>
    decreases events.len(),
{
    if events.len() == 0 {
        Seq::empty()
    } else if events[0].0 == backend {
        seq![events[0].1] + own_outcomes(events.drop_first(), backend)
    } else {
        own_outcomes(events.drop_first(), backend)
    }
}

/// Whether at least one store lost its connection.
pub open spec fn any_lost(reports: Seq<Result<(nat, Seq<nat>), SinkError>>) -> bool {
    exists|i: int| 0 <= i < reports.len() && (#[trigger] reports[i]) is Err
}

/// Whether there are stores and every one of them lost its connection.
pub open spec fn all_lost(reports: Seq<Result<(nat, Seq<nat>), SinkError>>) -> bool {
    reports.len() > 0 && forall|i: int| 0 <= i < reports.len() ==> (#[trigger] reports[i]) is Err
}

/// Whether a batch has to be reported as failed: at least one store lost
/// its connection, so the batch is not in every store.
pub fn batch_failed(reports: &Vec<Result<WriteReport, SinkError>>) -> (r: bool)
    ensures
        r == any_lost(report_views(reports@)),
{
    let mut i: usize = 0;
    while i < reports.len()
        invariant
            i <= reports.len(),
            forall|j: int| 0 <= j < i ==> (#[trigger] report_views(reports@)[j]) is Ok,
        decreases reports.len() - i,
    {
        if reports[i].is_err() {
            assert(report_views(reports@)[i as int] is Err);
            return true;
        }
        i += 1;
    }
    false
}

/// Whether a write reached no store at all: there are stores, and every one
/// of them lost its connection. While one store is live, the workflow that
/// writes goes on.
pub fn every_backend_lost(reports: &Vec<Result<WriteReport, SinkError>>) -> (r: bool)
    ensures
        r == all_lost(report_views(reports@)),
{
    if reports.len() == 0 {
        return false;
    }
    let mut i: usize = 0;
    while i < reports.len()
        invariant
            i <= reports.len(),
            reports.len() > 0,
            forall|j: int| 0 <= j < i ==> (#[trigger] report_views(reports@)[j]) is Err,
        decreases reports.len() - i,
    {
        if reports[i].is_ok() {
            assert(report_views(reports@)[i as int] is Ok);
            return false;
        }
        i += 1;
    }
    true
}

/// The stores are independent: an outcome of one store, a lost connection
/// included, leaves the write of every other store exactly as it was, with
/// the same pending statement and the same report.
pub proof fn lemma_backends_are_independent(
    writes: Seq<BatchWriteView>,
    backend: nat,
    outcome: WriteOutcome,
    other: nat,
)
    requires
        other < writes.len(),
        other != backend,
    ensures
        after_backend_outcome(writes, backend, outcome).len() == writes.len(),
        after_backend_outcome(writes, backend, outcome)[other as int] == writes[other as int],
        reports_of(after_backend_outcome(writes, backend, outcome))[other as int] == writes[other as int].report(),
{
}

/// A store that lost its connection reports that and nothing else, and a
/// store that has executed all its statements without losing it reports
/// success, wherever the other stores stand.
pub proof fn lemma_each_backend_reports_for_itself(writes: Seq<BatchWriteView>, backend: nat)
    requires
        backend < writes.len(),
        writes[backend as int].wf(),
    ensures
        writes[backend as int].lost ==> reports_of(writes)[backend as int] == Err::<
            (nat, Seq<nat>),
            SinkError,
        >(SinkError::ConnectionLost),
        !writes[backend as int].lost ==> reports_of(writes)[backend as int] is Ok,
{
}

/// Whatever the stores report and in whatever order, the write of each
/// store ends where its own outcomes alone would have taken it: a store
/// that is offline or refuses records neither blocks nor rolls back
/// another.
pub proof fn lemma_each_backend_runs_alone(
    writes: Seq<BatchWriteView>,
    events: Seq<(nat, WriteOutcome)>,
    backend: nat,
)
    requires
        backend < writes.len(),
    ensures
        after_backend_outcomes(writes, events).len() == writes.len(),
        after_backend_outcomes(writes, events)[backend as int] == writes[backend as int].after_outcomes(
            own_outcomes(events, backend),
        ),
    decreases events.len(),
{
    if events.len() > 0 {
        let next = after_backend_outcome(writes, events[0].0, events[0].1);
        let rest = events.drop_first();
        lemma_each_backend_runs_alone(next, rest, backend);
        if events[0].0 == backend {
            let own = own_outcomes(events, backend);
            assert(own[0] == events[0].1);
            assert(own.drop_first() =~= own_outcomes(rest, backend));
        }
    }
}

/// A store that writes every record it is handed completes its batch: once
/// it has had an outcome for each statement that was left, nothing is
/// pending, nothing more is skipped, and its report is a success.
pub proof fn lemma_written_batch_completes(w: BatchWriteView, outcomes: Seq<WriteOutcome>)
    requires
        w.wf(),
        !w.lost,
        forall|i: int| 0 <= i < outcomes.len() ==> (#[trigger] outcomes[i]) is Written,
        w.next + outcomes.len() >= w.statements.len(),
    ensures
        ({
            let end = w.after_outcomes(outcomes);
            &&& end.wf()
            &&& end.pending() is None
            &&& end.next == w.statements.len()
            &&& end.skipped == w.skipped
            &&& end.report() == Ok::<(nat, Seq<nat>), SinkError>(
                ((w.statements.len() - w.skipped.len()) as nat, w.skipped),
            )
        }),
    decreases outcomes.len(),
{
    if outcomes.len() > 0 {
        let rest = outcomes.drop_first();
        assert(outcomes[0] is Written);
        assert forall|i: int| 0 <= i < rest.len() implies (#[trigger] rest[i]) is Written by {
            assert(rest[i] == outcomes[i + 1]);
        }
        lemma_written_batch_completes(w.after_outcome(outcomes[0]), rest);
    }
}

} // verus!
