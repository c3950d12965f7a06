//! Records: ordered fields of dynamic scalar kind, as the remote services
//! return them and as the stores take them.

use crate::json::{json_model, json_text, member_models, models, render, unfold, JsonModel, JsonNode};
use vstd::prelude::*;

verus! {

/// The value of one field.
#[derive(Debug, Clone, PartialEq, Eq)]
pub enum FieldValue {
    Text(String),
    /// A number, by its decimal text.
    Number(String),
    Bool(bool),
    /// A field that is present and holds nothing (JSON `null`).
    Absent,
    /// An array or an object, by its compact JSON text.
    Nested(String),
}

/// The value of one field, as mathematics.
pub enum FieldValueView {
    Text(Seq<char>),
    Number(Seq<char>),
    Bool(bool),
    Absent,
    Nested(Seq<char>),
}

impl View for FieldValue {
    type V = FieldValueView;

    open spec fn view(&self) -> FieldValueView {
        match self {
            FieldValue::Text(t) => FieldValueView::Text(t@),
            FieldValue::Number(t) => FieldValueView::Number(t@),
            FieldValue::Bool(b) => FieldValueView::Bool(*b),
            FieldValue::Absent => FieldValueView::Absent,
            FieldValue::Nested(t) => FieldValueView::Nested(t@),
        }
    }
}

/// A named value.
#[derive(Debug, Clone, PartialEq, Eq)]
pub struct Field {
    pub name: String,
    pub value: FieldValue,
}

impl View for Field {
    type V = (Seq<char>, FieldValueView);

    open spec fn view(&self) -> (Seq<char>, FieldValueView) {
        (self.name@, self.value@)
    }
}

/// A record as mathematics: its fields in order, each a name and a value.
pub type RecordView = Seq<(Seq<char>, FieldValueView)>;

/// An ordered sequence of fields. No schema is enforced here.
#[derive(Debug, Clone, PartialEq, Eq)]
pub struct Record {
    pub fields: Vec<Field>,
}

impl View for Record {
    type V = RecordView;

    open spec fn view(&self) -> RecordView {
        Seq::new(self.fields@.len(), |i: int| self.fields@[i]@)
    }
}

/// An ordered sequence of records.
pub type RecordBatch = Vec<Record>;

/// The records of a batch, as mathematics.
pub open spec fn batch_view(batch: Seq<Record>) -> Seq<RecordView> {
    Seq::new(batch.len(), |i: int| batch[i]@)
}

/// The names of a record's fields, in order.
pub open spec fn field_names(record: RecordView) -> Seq<Seq<char>> {
    Seq::new(record.len(), |i: int| record[i].0)
}

/// The value of the first field called `name`.
pub open spec fn field_named(record: RecordView, name: Seq<char>) -> Option<FieldValueView>
    decreases record.len(),
{
    if record.len() == 0 {
        None
    } else if record[0].0 == name {
        Some(record[0].1)
    } else {
        field_named(record.drop_first(), name)
    }
}

/// The field value that stands for a JSON document: a scalar by its kind,
/// an array or an object by its compact text.
pub open spec fn field_value_of(document: JsonModel) -> FieldValueView {
    match document {
        JsonModel::Null => FieldValueView::Absent,
        JsonModel::Bool(b) => FieldValueView::Bool(b),
        JsonModel::Number(t) => FieldValueView::Number(t),
        JsonModel::Text(t) => FieldValueView::Text(t),
        JsonModel::Array(_) => FieldValueView::Nested(json_text(document)),
        JsonModel::Object(_) => FieldValueView::Nested(json_text(document)),
    }
}

/// The fields that stand for the members of an object, in their order.
pub open spec fn fields_of(members: Seq<(Seq<char>, JsonModel)>) -> RecordView {
    Seq::new(members.len(), |i: int| (members[i].0, field_value_of(members[i].1)))
}

/// The record that stands for a JSON document: an object gives one field
/// for each member, anything else gives none.
pub open spec fn record_of(document: JsonModel) -> Option<RecordView> {
    match document {
        JsonModel::Object(members) => Some(fields_of(members)),
        _ => None,
    }
}

/// Whether every document of `items` is an object.
pub open spec fn all_objects(items: Seq<JsonModel>) -> bool {
    forall|i: int| 0 <= i < items.len() ==> (#[trigger] items[i]) is Object
}

/// The records that stand for a sequence of objects.
pub open spec fn records_of(items: Seq<JsonModel>) -> Seq<RecordView> {
    Seq::new(items.len(), |i: int| record_of(items[i]).unwrap())
}

/// The view of an optional record.
pub open spec fn optional_record_view(record: Option<Record>) -> Option<RecordView> {
    match record {
        Some(r) => Some(r@),
        None => None,
    }
}

/// The view of an optional reference to a record.
pub open spec fn optional_record_ref(record: Option<&Record>) -> Option<RecordView> {
    match record {
        Some(r) => Some(r@),
        None => None,
    }
}

/// The view of an optional batch.
pub open spec fn optional_batch_view(batch: Option<RecordBatch>) -> Option<Seq<RecordView>> {
    match batch {
        Some(b) => Some(batch_view(b@)),
        None => None,
    }
}

impl FieldValue {
    /// The field value that stands for the document `v`.
    pub fn from_document(v: &serde_json::Value) -> (value: FieldValue)
        ensures
            value@ == field_value_of(json_model(*v)),
    {
        match unfold(v) {
            JsonNode::Null => FieldValue::Absent,
            JsonNode::Bool(b) => FieldValue::Bool(b),
            JsonNode::Number(t) => FieldValue::Number(t),
            JsonNode::Text(t) => FieldValue::Text(t.to_owned()),
            JsonNode::Array(_) => FieldValue::Nested(render(v)),
            JsonNode::Object(_) => FieldValue::Nested(render(v)),
        }
    }

    /// A copy of this value.
    pub fn duplicate(&self) -> (copy: FieldValue)
        ensures
            copy@ == self@,
    {
        match self {
            FieldValue::Text(t) => FieldValue::Text(t.clone()),
            FieldValue::Number(t) => FieldValue::Number(t.clone()),
            FieldValue::Bool(b) => FieldValue::Bool(*b),
            FieldValue::Absent => FieldValue::Absent,
            FieldValue::Nested(t) => FieldValue::Nested(t.clone()),
        }
    }
}

impl Field {
    /// A text field.
    pub fn text(name: &str, value: String) -> (field: Field)
        ensures
            field@ == (name@, FieldValueView::Text(value@)),
    {
        Field { name: name.to_owned(), value: FieldValue::Text(value) }
    }

    /// A copy of this field.
    pub fn duplicate(&self) -> (copy: Field)
        ensures
            copy@ == self@,
    {
        Field { name: self.name.clone(), value: self.value.duplicate() }
    }
}

impl Record {
    /// The record that stands for the document `v`; `None` unless `v` is an
    /// object.
    pub fn from_document(v: &serde_json::Value) -> (record: Option<Record>)
        ensures
            optional_record_view(record) == record_of(json_model(*v)),
    {
        match unfold(v) {
            JsonNode::Object(members) => {
                let ghost all = member_models(members@);
                let mut fields: Vec<Field> = Vec::new();
                let mut i: usize = 0;
                while i < members.len()
                    invariant
                        i <= members.len(),
                        all == member_models(members@),
                        fields@.len() == i,
                        forall|j: int|
                            0 <= j < i ==> (#[trigger] fields@[j])@ == (
                                all[j].0,
                                field_value_of(all[j].1),
                            ),
                    decreases members.len() - i,
                {
                    let (k, x) = members[i];
                    fields.push(Field { name: k.clone(), value: FieldValue::from_document(x) });
                    i += 1;
                }
                let record = Record { fields };
                assert(record@ =~= fields_of(all));
                Some(record)
            },
            _ => None,
        }
    }

    /// The records that stand for the documents of `items`; `None` unless
    /// every one of them is an object.
    pub fn batch_from_documents(items: &Vec<serde_json::Value>) -> (batch: Option<RecordBatch>)
        ensures
            optional_batch_view(batch) == if all_objects(models(items@)) {
                Some(records_of(models(items@)))
            } else {
                None
            },
    {
        let ghost all = models(items@);
        let mut batch: Vec<Record> = Vec::new();
        let mut i: usize = 0;
        while i < items.len()
            invariant
                i <= items.len(),
                all == models(items@),
                batch@.len() == i,
                forall|j: int| 0 <= j < i ==> (#[trigger] all[j]) is Object,
                forall|j: int| 0 <= j < i ==> Some((#[trigger] batch@[j])@) == record_of(all[j]),
            decreases items.len() - i,
        {
            match Record::from_document(&items[i]) {
                Some(record) => {
                    batch.push(record);
                },
                None => {
                    assert(!(all[i as int] is Object));
                    return None;
                },
            }
            i += 1;
        }
        assert(batch_view(batch@) =~= records_of(all));
        Some(batch)
    }

    /// The value of the first field called `name`.
    pub fn get(&self, name: &str) -> (value: Option<&FieldValue>)
        ensures
            match value {
                Some(v) => field_named(self@, name@) == Some(v@),
                None => field_named(self@, name@) is None,
            },
    {
        let wanted = name.to_owned();
        let mut i: usize = 0;
        assert(self@.skip(0) =~= self@);
        while i < self.fields.len()
            invariant
                i <= self.fields.len(),
                wanted@ == name@,
                field_named(self@, name@) == field_named(self@.skip(i as int), name@),
            decreases self.fields.len() - i,
        {
            assert(self@.skip(i as int)[0] == self@[i as int]);
            assert(self@.skip(i as int).drop_first() =~= self@.skip(i + 1));
            if self.fields[i].name == wanted {
                return Some(&self.fields[i].value);
            }
            i += 1;
        }
        None
    }

    /// Appends copies of the fields of `other`, in their order.
    pub fn extend_from(&mut self, other: &Record)
        ensures
            final(self)@ == old(self)@ + other@,
    {
        let ghost before = self@;
        let mut i: usize = 0;
        while i < other.fields.len()
            invariant
                i <= other.fields.len(),
                self.fields@.len() == before.len() + i,
                forall|j: int|
                    0 <= j < before.len() ==> (#[trigger] self.fields@[j])@ == before[j],
                forall|j: int|
                    0 <= j < i ==> (#[trigger] self.fields@[before.len() + j])@
                        == other.fields@[j]@,
            decreases other.fields.len() - i,
        {
            self.fields.push(other.fields[i].duplicate());
            i += 1;
        }
        assert forall|j: int| 0 <= j < self@.len() implies self@[j] == (before + other@)[j] by {
            if j >= before.len() {
                assert(self.fields@[before.len() + (j - before.len())]@ == other.fields@[j
                    - before.len()]@);
            }
        }
        assert(self@ =~= before + other@);
    }

    /// A copy of this record.
    pub fn duplicate(&self) -> (copy: Record)
        ensures
            copy@ == self@,
    {
        let mut fields: Vec<Field> = Vec::new();
        let mut i: usize = 0;
        while i < self.fields.len()
            invariant
                i <= self.fields.len(),
                fields@.len() == i,
                forall|j: int| 0 <= j < i ==> (#[trigger] fields@[j])@ == self.fields@[j]@,
            decreases self.fields.len() - i,
        {
            fields.push(self.fields[i].duplicate());
            i += 1;
        }
        let copy = Record { fields };
        assert(copy@ =~= self@);
        copy
    }
}

/// The position of the first field called `name`.
pub open spec fn position_named(record: RecordView, name: Seq<char>) -> Option<nat>
    decreases record.len(),
{
    if record.len() == 0 {
        None
    } else if record[0].0 == name {
        Some(0)
    } else {
        match position_named(record.drop_first(), name) {
            Some(i) => Some(i + 1),
            None => None,
        }
    }
}

/// `record` with the field called `name` set to `value`: the first field of
/// that name is overwritten in place, and where there is none the field is
/// added at the end.
pub open spec fn with_field(record: RecordView, name: Seq<char>, value: FieldValueView) -> RecordView {
    match position_named(record, name) {
        Some(i) => record.update(i as int, (name, value)),
        None => record.push((name, value)),
    }
}

/// Whether no two fields of `record` have the same name.
pub open spec fn distinct_names(record: RecordView) -> bool {
    forall|i: int, j: int|
        0 <= i < j < record.len() ==> (#[trigger] record[i]).0 != (#[trigger] record[j]).0
}

/// The first field called `name` is where `position_named` says, and
/// nowhere before.
pub proof fn lemma_position_named(record: RecordView, name: Seq<char>)
    ensures
        match position_named(record, name) {
            Some(i) => i < record.len() && record[i as int].0 == name && field_named(record, name)
                == Some(record[i as int].1) && forall|j: int|
                0 <= j < i ==> (#[trigger] record[j]).0 != name,
            None => field_named(record, name) is None && forall|j: int|
                0 <= j < record.len() ==> (#[trigger] record[j]).0 != name,
        },
    decreases record.len(),
{
    if record.len() > 0 && record[0].0 != name {
        let rest = record.drop_first();
        lemma_position_named(rest, name);
        match position_named(rest, name) {
            Some(i) => {
                assert(rest[i as int] == record[i as int + 1]);
                assert forall|j: int| 0 <= j < i + 1 implies (#[trigger] record[j]).0 != name by {
                    if j > 0 {
                        assert(rest[j - 1] == record[j]);
                    }
                }
            },
            None => {
                assert forall|j: int| 0 <= j < record.len() implies (#[trigger] record[j]).0
                    != name by {
                    if j > 0 {
                        assert(rest[j - 1] == record[j]);
                    }
                }
            },
        }
    }
}

/// A field called `name` at position `at`, with none of that name before
/// it, is the first of that name.
pub proof fn lemma_first_named_at(record: RecordView, name: Seq<char>, at: nat)
    requires
        at < record.len(),
        record[at as int].0 == name,
        forall|j: int| 0 <= j < at ==> (#[trigger] record[j]).0 != name,
    ensures
        position_named(record, name) == Some(at),
{
    lemma_position_named(record, name);
}

/// Setting a field changes the value under its name and under no other
/// name.
pub proof fn lemma_with_field_sets_one(
    record: RecordView,
    name: Seq<char>,
    value: FieldValueView,
    other: Seq<char>,
)
    ensures
        field_named(with_field(record, name, value), other) == if other == name {
            Some(value)
        } else {
            field_named(record, other)
        },
{
    let after = with_field(record, name, value);
    lemma_position_named(record, name);
    lemma_position_named(record, other);
    lemma_position_named(after, other);
    match position_named(record, name) {
        Some(i) => {
            assert(after.len() == record.len());
            assert(after[i as int] == (name, value));
            assert forall|j: int| 0 <= j < record.len() && j != i implies after[j] == record[j] by {}
            if other == name {
                lemma_first_named_at(after, other, i);
            } else {
                match position_named(record, other) {
                    Some(k) => {
                        assert(k != i);
                        assert(after[k as int] == record[k as int]);
                        assert forall|j: int| 0 <= j < k implies (#[trigger] after[j]).0
                            != other by {
                            if j != i {
                                assert(after[j] == record[j]);
                            }
                        }
                        lemma_first_named_at(after, other, k);
                    },
                    None => {
                        match position_named(after, other) {
                            Some(k) => {
                                if k != i {
                                    assert(after[k as int] == record[k as int]);
                                }
                            },
                            None => {},
                        }
                    },
                }
            }
        },
        None => {
            assert(after.len() == record.len() + 1);
            assert(after[record.len() as int] == (name, value));
            assert forall|j: int| 0 <= j < record.len() implies after[j] == record[j] by {}
            if other == name {
                assert forall|j: int| 0 <= j < record.len() implies (#[trigger] after[j]).0
                    != other by {
                    assert(after[j] == record[j]);
                }
                lemma_first_named_at(after, other, record.len());
            } else {
                match position_named(record, other) {
                    Some(k) => {
                        assert(after[k as int] == record[k as int]);
                        assert forall|j: int| 0 <= j < k implies (#[trigger] after[j]).0
                            != other by {
                            assert(after[j] == record[j]);
                        }
                        lemma_first_named_at(after, other, k);
                    },
                    None => {
                        match position_named(after, other) {
                            Some(k) => {
                                if k < record.len() {
                                    assert(after[k as int] == record[k as int]);
                                }
                            },
                            None => {},
                        }
                    },
                }
            }
        },
    }
}

impl FieldValue {
    /// Whether two values are the same.
    pub fn same(&self, other: &FieldValue) -> (r: bool)
        ensures
            r == (self@ == other@),
    {
        match (self, other) {
            (FieldValue::Text(a), FieldValue::Text(b)) => *a == *b,
            (FieldValue::Number(a), FieldValue::Number(b)) => *a == *b,
            (FieldValue::Bool(a), FieldValue::Bool(b)) => *a == *b,
            (FieldValue::Absent, FieldValue::Absent) => true,
            (FieldValue::Nested(a), FieldValue::Nested(b)) => *a == *b,
            _ => false,
        }
    }
}

impl Record {
    /// Sets the field called `name` to `value`: overwrites the first field
    /// of that name, or adds the field at the end.
    pub fn set(&mut self, name: &str, value: FieldValue)
        ensures
            final(self)@ == with_field(old(self)@, name@, value@),
    {
        let wanted = name.to_owned();
        let ghost before = self@;
        let mut i: usize = 0;
        while i < self.fields.len()
            invariant
                i <= self.fields.len(),
                wanted@ == name@,
                self@ == before,
                before == old(self)@,
                forall|j: int| 0 <= j < i ==> (#[trigger] before[j]).0 != name@,
            decreases self.fields.len() - i,
        {
            if self.fields[i].name == wanted {
                proof {
                    assert(before[i as int].0 == name@);
                    lemma_first_named_at(before, name@, i as nat);
                }
                self.fields.set(i, Field { name: wanted, value });
                assert(self@ =~= before.update(i as int, (name@, value@)));
                return ;
            }
            assert(before[i as int].0 != name@);
            i += 1;
        }
        proof {
            lemma_position_named(before, name@);
        }
        self.fields.push(Field { name: wanted, value });
        assert(self@ =~= before.push((name@, value@)));
    }
}

} // verus!
