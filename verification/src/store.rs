//! A table held in memory that takes upserts as a relational store does:
//! rows are unique under a key field, a plain upsert replaces the whole row,
//! and a staged upsert fills columns into the row that is there.

use crate::record::{
    batch_view, distinct_names, field_named, lemma_position_named, lemma_with_field_sets_one,
    with_field, FieldValue, FieldValueView, Record, RecordView,
};
use crate::sink::SinkError;
use vstd::prelude::*;

verus! {

/// A table as mathematics: the name of its key field and its rows in the
/// order in which their keys first came.
pub struct MemoryTableView {
    pub key_field: Seq<char>,
    pub rows: Seq<RecordView>,
}

/// The position of the first row whose key field holds `key`.
pub open spec fn row_position(rows: Seq<RecordView>, key_field: Seq<char>, key: FieldValueView) -> Option<
    nat,
>
    decreases rows.len(),
{
    if rows.len() == 0 {
        None
    } else if field_named(rows[0], key_field) == Some(key) {
        Some(0)
    } else {
        match row_position(rows.drop_first(), key_field, key) {
            Some(i) => Some(i + 1),
            None => None,
        }
    }
}

/// `row` with every column of `columns` set in it, in their order: columns
/// that the row has are overwritten, the others are added, and every other
/// column of the row stays.
pub open spec fn merged(row: RecordView, columns: RecordView) -> RecordView
    decreases columns.len(),
{
    if columns.len() == 0 {
        row
    } else {
        merged(with_field(row, columns[0].0, columns[0].1), columns.drop_first())
    }
}

impl MemoryTableView {
    /// The row keyed `key`.
    pub open spec fn row(self, key: FieldValueView) -> Option<RecordView> {
        match row_position(self.rows, self.key_field, key) {
            Some(i) => Some(self.rows[i as int]),
            None => None,
        }
    }

    /// The table after a plain upsert of `record`: the record takes the
    /// place of the row with its key, whole, or becomes a new row. A record
    /// without the key field changes nothing.
    pub open spec fn upserted(self, record: RecordView) -> MemoryTableView {
        match field_named(record, self.key_field) {
            None => self,
            Some(key) => match row_position(self.rows, self.key_field, key) {
                Some(i) => MemoryTableView { rows: self.rows.update(i as int, record), ..self },
                None => MemoryTableView { rows: self.rows.push(record), ..self },
            },
        }
    }

    /// The table after a staged upsert of `record`: its columns are filled
    /// into the row with its key, or it becomes a new row. A record without
    /// the key field changes nothing.
    pub open spec fn staged(self, record: RecordView) -> MemoryTableView {
        match field_named(record, self.key_field) {
            None => self,
            Some(key) => match row_position(self.rows, self.key_field, key) {
                Some(i) => MemoryTableView {
                    rows: self.rows.update(i as int, merged(self.rows[i as int], record)),
                    ..self
                },
                None => MemoryTableView { rows: self.rows.push(record), ..self },
            },
        }
    }

    /// Whether the rows are unique under the key field: every row has the
    /// field, and no two rows hold the same key.
    pub open spec fn keys_unique(self) -> bool {
        &&& forall|i: int|
            0 <= i < self.rows.len() ==> field_named(#[trigger] self.rows[i], self.key_field)
                is Some
        &&& forall|i: int, j: int|
            0 <= i < j < self.rows.len() ==> field_named(#[trigger] self.rows[i], self.key_field)
                != field_named(#[trigger] self.rows[j], self.key_field)
    }

    /// What an upsert of `record` answers: a record without the key field
    /// does not fit the table.
    pub open spec fn answer(self, record: RecordView) -> Result<(), SinkError> {
        match field_named(record, self.key_field) {
            None => Err(SinkError::SchemaMismatch),
            Some(_) => Ok(()),
        }
    }
}

/// A table in memory, keyed by one field.
pub struct MemoryTable {
    key_field: String,
    rows: Vec<Record>,
}

impl View for MemoryTable {
    type V = MemoryTableView;

    closed spec fn view(&self) -> MemoryTableView {
        MemoryTableView { key_field: self.key_field@, rows: batch_view(self.rows@) }
    }
}

/// The first row keyed `key` is where `row_position` says, and nowhere
/// before.
pub proof fn lemma_row_position(rows: Seq<RecordView>, key_field: Seq<char>, key: FieldValueView)
    ensures
        match row_position(rows, key_field, key) {
            Some(i) => i < rows.len() && field_named(rows[i as int], key_field) == Some(key)
                && forall|j: int|
                0 <= j < i ==> field_named(#[trigger] rows[j], key_field) != Some(key),
            None => forall|j: int|
                0 <= j < rows.len() ==> field_named(#[trigger] rows[j], key_field) != Some(key),
        },
    decreases rows.len(),
{
    if rows.len() > 0 && field_named(rows[0], key_field) != Some(key) {
        let rest = rows.drop_first();
        lemma_row_position(rest, key_field, key);
        match row_position(rest, key_field, key) {
            Some(i) => {
                assert(rest[i as int] == rows[i as int + 1]);
                assert forall|j: int| 0 <= j < i + 1 implies field_named(
                    #[trigger] rows[j],
                    key_field,
                ) != Some(key) by {
                    if j > 0 {
                        assert(rest[j - 1] == rows[j]);
                    }
                }
            },
            None => {
                assert forall|j: int| 0 <= j < rows.len() implies field_named(
                    #[trigger] rows[j],
                    key_field,
                ) != Some(key) by {
                    if j > 0 {
                        assert(rest[j - 1] == rows[j]);
                    }
                }
            },
        }
    }
}

/// A row keyed `key` at position `at`, with no row of that key before it,
/// is the first of that key.
pub proof fn lemma_first_row_at(
    rows: Seq<RecordView>,
    key_field: Seq<char>,
    key: FieldValueView,
    at: nat,
)
    requires
        at < rows.len(),
        field_named(rows[at as int], key_field) == Some(key),
        forall|j: int| 0 <= j < at ==> field_named(#[trigger] rows[j], key_field) != Some(key),
    ensures
        row_position(rows, key_field, key) == Some(at),
{
    lemma_row_position(rows, key_field, key);
}

impl MemoryTable {
    /// An empty table keyed by `key_field`.
    pub fn new(key_field: &str) -> (t: MemoryTable)
        ensures
            t@ == (MemoryTableView { key_field: key_field@, rows: Seq::empty() }),
            t@.keys_unique(),
    {
        let t = MemoryTable { key_field: key_field.to_owned(), rows: Vec::new() };
        assert(batch_view(t.rows@) =~= Seq::<RecordView>::empty());
        t
    }

    /// How many rows the table holds.
    pub fn len(&self) -> (n: usize)
        ensures
            n == self@.rows.len(),
    {
        self.rows.len()
    }

    /// The position of the row keyed `key`.
    fn find(&self, key: &FieldValue) -> (r: Option<usize>)
        ensures
            match r {
                Some(i) => row_position(self@.rows, self@.key_field, key@) == Some(i as nat) && i
                    < self.rows@.len(),
                None => row_position(self@.rows, self@.key_field, key@) is None,
            },
    {
        let mut i: usize = 0;
        while i < self.rows.len()
            invariant
                i <= self.rows.len(),
                forall|j: int|
                    0 <= j < i ==> field_named(#[trigger] self@.rows[j], self@.key_field) != Some(
                        key@,
                    ),
            decreases self.rows.len() - i,
        {
            assert(self@.rows[i as int] == self.rows@[i as int]@);
            let found = match self.rows[i].get(self.key_field.as_str()) {
                Some(v) => v.same(key),
                None => false,
            };
            if found {
                proof {
                    lemma_first_row_at(self@.rows, self@.key_field, key@, i as nat);
                }
                return Some(i);
            }
            i += 1;
        }
        proof {
            lemma_row_position(self@.rows, self@.key_field, key@);
        }
        None
    }

    /// The row keyed `key`.
    pub fn get(&self, key: &FieldValue) -> (r: Option<&Record>)
        ensures
            crate::record::optional_record_ref(r) == self@.row(key@),
    {
        match self.find(key) {
            Some(i) => Some(&self.rows[i]),
            None => None,
        }
    }

    /// Upserts `record`: it replaces the row with its key, whole, or becomes
    /// a new row. The last write wins; nothing of the old row is kept.
    pub fn upsert(&mut self, record: Record) -> (r: Result<(), SinkError>)
        ensures
            final(self)@ == old(self)@.upserted(record@),
            r == old(self)@.answer(record@),
            old(self)@.keys_unique() ==> final(self)@.keys_unique(),
    {
        proof {
            if self@.keys_unique() {
                lemma_upsert_keeps_keys_unique(self@, record@);
            }
        }
        let position = match record.get(self.key_field.as_str()) {
            None => {
                return Err(SinkError::SchemaMismatch);
            },
            Some(key) => self.find(key),
        };
        let ghost before = self@.rows;
        match position {
            Some(i) => {
                self.rows.set(i, record);
                assert(self@.rows =~= before.update(i as int, record@));
            },
            None => {
                self.rows.push(record);
                assert(self@.rows =~= before.push(record@));
            },
        }
        Ok(())
    }

    /// Upserts one stage of a staged write: the columns of `record` are
    /// filled into the row with its key, whose other columns stay as earlier
    /// stages wrote them; where there is no such row, the record becomes
    /// one.
    pub fn upsert_stage(&mut self, record: &Record) -> (r: Result<(), SinkError>)
        ensures
            final(self)@ == old(self)@.staged(record@),
            r == old(self)@.answer(record@),
            old(self)@.keys_unique() && distinct_names(record@) ==> final(self)@.keys_unique(),
    {
        proof {
            if self@.keys_unique() && distinct_names(record@) {
                lemma_stage_keeps_keys_unique(self@, record@);
            }
        }
        let position = match record.get(self.key_field.as_str()) {
            None => {
                return Err(SinkError::SchemaMismatch);
            },
            Some(key) => self.find(key),
        };
        let ghost before = self@.rows;
        match position {
            Some(i) => {
                let ghost row = before[i as int];
                let mut k: usize = 0;
                assert(record@.skip(0) =~= record@);
                while k < record.fields.len()
                    invariant
                        k <= record.fields.len(),
                        i < self.rows@.len(),
                        self.key_field == old(self).key_field,
                        self@.rows.len() == before.len(),
                        row == before[i as int],
                        forall|j: int|
                            0 <= j < before.len() && j != i ==> #[trigger] self@.rows[j]
                                == before[j],
                        merged(self@.rows[i as int], record@.skip(k as int)) == merged(
                            row,
                            record@,
                        ),
                    decreases record.fields.len() - k,
                {
                    let ghost rows_now = self@.rows;
                    let ghost rest = record@.skip(k as int);
                    assert(rest[0] == record@[k as int]);
                    assert(rest.drop_first() =~= record@.skip(k + 1));
                    assert(rows_now[i as int] == self.rows@[i as int]@);
                    let field = &record.fields[k];
                    self.rows[i].set(field.name.as_str(), field.value.duplicate());
                    assert(self@.rows[i as int] == self.rows@[i as int]@);
                    assert forall|j: int| 0 <= j < before.len() && j != i implies #[trigger] self@.rows[j]
                        == before[j] by {
                        assert(self@.rows[j] == rows_now[j]);
                    }
                    k += 1;
                }
                assert(record@.skip(record@.len() as int).len() == 0);
                assert(self@.rows =~= before.update(i as int, merged(row, record@)));
            },
            None => {
                self.rows.push(record.duplicate());
                assert(self@.rows =~= before.push(record@));
            },
        }
        Ok(())
    }
}

/// Filling columns with distinct names into a row gives, under each name,
/// the value of the column of that name, and where there is no such column
/// the value that the row had.
pub proof fn lemma_merged_fields(row: RecordView, columns: RecordView, name: Seq<char>)
    requires
        distinct_names(columns),
    ensures
        field_named(merged(row, columns), name) == match field_named(columns, name) {
            Some(v) => Some(v),
            None => field_named(row, name),
        },
    decreases columns.len(),
{
    if columns.len() > 0 {
        let head = columns[0];
        let rest = columns.drop_first();
        assert(distinct_names(rest)) by {
            assert forall|i: int, j: int| 0 <= i < j < rest.len() implies (#[trigger] rest[i]).0 != (
            #[trigger] rest[j]).0 by {
                assert(rest[i] == columns[i + 1]);
                assert(rest[j] == columns[j + 1]);
            }
        }
        lemma_with_field_sets_one(row, head.0, head.1, name);
        lemma_merged_fields(with_field(row, head.0, head.1), rest, name);
        if head.0 == name {
            lemma_position_named(rest, name);
            match crate::record::position_named(rest, name) {
                Some(k) => {
                    assert(rest[k as int] == columns[k as int + 1]);
                    assert(columns[0].0 != columns[k as int + 1].0);
                },
                None => {},
            }
        }
    }
}

/// A plain upsert is idempotent and the last write wins: after it, the row
/// with the key of the record is the record, whole, and the table has one
/// row more only if the key was new.
pub proof fn lemma_upsert_replaces_row(t: MemoryTableView, record: RecordView, key: FieldValueView)
    requires
        field_named(record, t.key_field) == Some(key),
    ensures
        t.upserted(record).row(key) == Some(record),
        t.upserted(record).key_field == t.key_field,
        t.row(key) is Some ==> t.upserted(record).rows.len() == t.rows.len(),
        t.row(key) is None ==> t.upserted(record).rows.len() == t.rows.len() + 1,
        t.upserted(record).upserted(record) == t.upserted(record),
{
    lemma_row_position(t.rows, t.key_field, key);
    let after = t.upserted(record);
    match row_position(t.rows, t.key_field, key) {
        Some(i) => {
            assert forall|j: int| 0 <= j < i implies field_named(
                #[trigger] after.rows[j],
                t.key_field,
            ) != Some(key) by {
                assert(after.rows[j] == t.rows[j]);
            }
            lemma_first_row_at(after.rows, t.key_field, key, i);
            assert(after.rows.update(i as int, record) =~= after.rows);
        },
        None => {
            assert forall|j: int| 0 <= j < t.rows.len() implies field_named(
                #[trigger] after.rows[j],
                t.key_field,
            ) != Some(key) by {
                assert(after.rows[j] == t.rows[j]);
            }
            lemma_first_row_at(after.rows, t.key_field, key, t.rows.len());
            assert(after.rows.update(t.rows.len() as int, record) =~= after.rows);
        },
    }
}

/// Staged upserts compose: after a plain upsert of `first` and a staged
/// upsert of `second` under the same key, the table holds one row for that
/// key, and under every name that row holds the value of `second` where
/// `second` has a column of that name, and the value of `first` where it has
/// not. No field of either stage is lost.
pub proof fn lemma_staged_upserts_compose(
    t: MemoryTableView,
    first: RecordView,
    second: RecordView,
    key: FieldValueView,
    name: Seq<char>,
)
    requires
        field_named(first, t.key_field) == Some(key),
        field_named(second, t.key_field) == Some(key),
        distinct_names(second),
    ensures
        ({
            let end = t.upserted(first).staged(second);
            &&& end.rows.len() == t.upserted(first).rows.len()
            &&& end.row(key) == Some(merged(first, second))
            &&& field_named(end.row(key).unwrap(), name) == match field_named(second, name) {
                Some(v) => Some(v),
                None => field_named(first, name),
            }
        }),
{
    let middle = t.upserted(first);
    lemma_upsert_replaces_row(t, first, key);
    lemma_row_position(middle.rows, middle.key_field, key);
    let at = row_position(middle.rows, middle.key_field, key).unwrap();
    let end = middle.staged(second);
    let row = merged(first, second);
    lemma_merged_fields(first, second, t.key_field);
    lemma_merged_fields(first, second, name);
    assert(end.rows == middle.rows.update(at as int, row));
    assert forall|j: int| 0 <= j < at implies field_named(#[trigger] end.rows[j], t.key_field)
        != Some(key) by {
        assert(end.rows[j] == middle.rows[j]);
    }
    lemma_first_row_at(end.rows, t.key_field, key, at);
}

/// A plain upsert keeps the rows unique under the key field: never two rows
/// with one key.
pub proof fn lemma_upsert_keeps_keys_unique(t: MemoryTableView, record: RecordView)
    requires
        t.keys_unique(),
    ensures
        t.upserted(record).keys_unique(),
{
    match field_named(record, t.key_field) {
        None => {},
        Some(key) => {
            lemma_row_position(t.rows, t.key_field, key);
            let after = t.upserted(record);
            match row_position(t.rows, t.key_field, key) {
                Some(at) => {
                    assert forall|i: int, j: int| 0 <= i < j < after.rows.len() implies field_named(
                        #[trigger] after.rows[i],
                        t.key_field,
                    ) != field_named(#[trigger] after.rows[j], t.key_field) by {
                        assert(field_named(t.rows[i], t.key_field) != field_named(
                            t.rows[j],
                            t.key_field,
                        ));
                        if i == at {
                            assert(field_named(t.rows[at as int], t.key_field) == Some(key));
                        }
                        if j == at {
                            assert(field_named(t.rows[at as int], t.key_field) == Some(key));
                        }
                    }
                },
                None => {
                    assert forall|i: int, j: int| 0 <= i < j < after.rows.len() implies field_named(
                        #[trigger] after.rows[i],
                        t.key_field,
                    ) != field_named(#[trigger] after.rows[j], t.key_field) by {
                        if j < t.rows.len() {
                            assert(field_named(t.rows[i], t.key_field) != field_named(
                                t.rows[j],
                                t.key_field,
                            ));
                        } else {
                            assert(field_named(t.rows[i], t.key_field) != Some(key));
                        }
                    }
                },
            }
        },
    }
}

/// A staged upsert of a record with distinct column names keeps the rows
/// unique under the key field: the row that it fills keeps its key, and a
/// new row is added only for a new key.
pub proof fn lemma_stage_keeps_keys_unique(t: MemoryTableView, record: RecordView)
    requires
        t.keys_unique(),
        distinct_names(record),
    ensures
        t.staged(record).keys_unique(),
{
    match field_named(record, t.key_field) {
        None => {},
        Some(key) => {
            lemma_row_position(t.rows, t.key_field, key);
            match row_position(t.rows, t.key_field, key) {
                Some(at) => {
                    let row = merged(t.rows[at as int], record);
                    lemma_merged_fields(t.rows[at as int], record, t.key_field);
                    assert(field_named(row, t.key_field) == Some(key));
                    let same = MemoryTableView { rows: t.rows.update(at as int, row), ..t };
                    assert(t.staged(record) == same);
                    assert forall|i: int, j: int| 0 <= i < j < same.rows.len() implies field_named(
                        #[trigger] same.rows[i],
                        t.key_field,
                    ) != field_named(#[trigger] same.rows[j], t.key_field) by {
                        assert(field_named(t.rows[i], t.key_field) != field_named(
                            t.rows[j],
                            t.key_field,
                        ));
                        assert(field_named(t.rows[at as int], t.key_field) == Some(key));
                    }
                },
                None => {
                    let after = t.staged(record);
                    assert forall|i: int, j: int| 0 <= i < j < after.rows.len() implies field_named(
                        #[trigger] after.rows[i],
                        t.key_field,
                    ) != field_named(#[trigger] after.rows[j], t.key_field) by {
                        if j < t.rows.len() {
                            assert(field_named(t.rows[i], t.key_field) != field_named(
                                t.rows[j],
                                t.key_field,
                            ));
                        } else {
                            assert(field_named(t.rows[i], t.key_field) != Some(key));
                        }
                    }
                },
            }
        },
    }
}

} // verus!
