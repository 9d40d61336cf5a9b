//! Rows of a result set and the records that they hold.

use crate::api::common::api_entity::ApiEntity;
use crate::data::datasource::base::{
    stored_view, DataSourceError, DataSourceErrorKind, Failure,
};
use crate::data::datasource::relational::base::{FieldMappingView, TableMapping, TableMappingView};
use crate::data::datasource::relational::mariadb::{found_mapping, no_mapping, MariaDbDatasource};
use crate::json::{
    lemma_view_of_parts, members_view, set_member, JsonModel, JsonNumber, JsonValue, NumberModel,
};
use crate::string_map::{
    key_index, keys_of, lemma_key_index_is, lemma_key_index_none, lookup, put,
};
use crate::text::{concat4, join, join_text, same_text};
use vstd::prelude::*;

verus! {

/// A value as it is bound to a statement or read from a row.
#[derive(Debug, PartialEq, Eq)]
pub enum SqlValue {
    Null,
    Text(String),
    Integer(i64),
    /// A floating-point number in its decimal notation.
    Float(String),
    Boolean(bool),
}

/// The mathematical content of a [`SqlValue`].
pub ghost enum SqlValueView {
    Null,
    Text(Seq<char>),
    Integer(i64),
    Float(Seq<char>),
    Boolean(bool),
}

impl View for SqlValue {
    type V = SqlValueView;

    open spec fn view(&self) -> SqlValueView {
        match self {
            SqlValue::Null => SqlValueView::Null,
            SqlValue::Text(t) => SqlValueView::Text(t@),
            SqlValue::Integer(i) => SqlValueView::Integer(*i),
            SqlValue::Float(t) => SqlValueView::Float(t@),
            SqlValue::Boolean(b) => SqlValueView::Boolean(*b),
        }
    }
}

/// A row of a result set: the values by column name.
#[derive(Debug, PartialEq, Eq)]
pub struct SqlRow {
    pub cells: Vec<(String, SqlValue)>,
}

/// The cells of a row with their mathematical content.
pub open spec fn cells_view(cells: Seq<(String, SqlValue)>) -> Seq<(Seq<char>, SqlValueView)> {
    Seq::new(cells.len(), |i: int| (cells[i].0@, cells[i].1@))
}

impl View for SqlRow {
    type V = Seq<(Seq<char>, SqlValueView)>;

    open spec fn view(&self) -> Seq<(Seq<char>, SqlValueView)> {
        cells_view(self.cells@)
    }
}

/// The kind of value as which the column of a field is read.
#[derive(Clone, Copy, Debug, PartialEq, Eq, Structural)]
pub enum ColumnKind {
    Text,
    Integer,
    Float,
    Boolean,
}

/// The kind as which a field of the given type is read: `integer`, `float`
/// and `boolean` as themselves, `string` and every other type as a text.
pub open spec fn column_kind_of(field_type: Seq<char>) -> ColumnKind {
    if field_type == "integer"@ {
        ColumnKind::Integer
    } else if field_type == "float"@ {
        ColumnKind::Float
    } else if field_type == "boolean"@ {
        ColumnKind::Boolean
    } else {
        ColumnKind::Text
    }
}

/// The kind as which a field of the given type is read.
pub fn column_kind(field_type: &str) -> (r: ColumnKind)
    ensures
        r == column_kind_of(field_type@),
{
    if same_text(field_type, "integer") {
        ColumnKind::Integer
    } else if same_text(field_type, "float") {
        ColumnKind::Float
    } else if same_text(field_type, "boolean") {
        ColumnKind::Boolean
    } else {
        ColumnKind::Text
    }
}

/// What reading a column as a field of the given type gives: the value of the
/// column, if it is of the kind that the type asks for. A column that is
/// absent, `NULL` or of another kind gives nothing.
pub open spec fn read_cell(
    row: Seq<(Seq<char>, SqlValueView)>,
    column: Seq<char>,
    field_type: Seq<char>,
) -> Option<JsonModel> {
    match lookup(row, column) {
        None => None,
        Some(value) => match (column_kind_of(field_type), value) {
            (ColumnKind::Integer, SqlValueView::Integer(i)) => Some(
                JsonModel::Number(NumberModel::Int(i)),
            ),
            (ColumnKind::Float, SqlValueView::Float(t)) => Some(
                JsonModel::Number(NumberModel::Real(t)),
            ),
            (ColumnKind::Boolean, SqlValueView::Boolean(b)) => Some(JsonModel::Bool(b)),
            (ColumnKind::Text, SqlValueView::Text(t)) => Some(JsonModel::Text(t)),
            _ => None,
        },
    }
}

/// The members of the record that a row holds: one per mapped field whose
/// column can be read, under the field's name, in mapping order.
pub open spec fn row_members(
    fields: Seq<FieldMappingView>,
    row: Seq<(Seq<char>, SqlValueView)>,
) -> Seq<(Seq<char>, JsonModel)>
    decreases fields.len(),
{
    if fields.len() == 0 {
        Seq::empty()
    } else {
        let rest = row_members(fields.drop_last(), row);
        let field = fields.last();
        match read_cell(row, field.column_name, field.field_type) {
            Some(value) => put(rest, field.field_name, value),
            None => rest,
        }
    }
}

/// The record that a row holds.
pub open spec fn row_document(
    mapping: TableMappingView,
    row: Seq<(Seq<char>, SqlValueView)>,
) -> JsonModel {
    JsonModel::Object(row_members(mapping.fields, row))
}

fn cell_position(cells: &Vec<(String, SqlValue)>, column: &str) -> (r: Option<usize>)
    ensures
        match r {
            Some(i) => key_index(cells_view(cells@), column@) == Some(i as int) && i
                < cells@.len(),
            None => key_index(cells_view(cells@), column@) is None,
        },
{
    let ghost model = cells_view(cells@);
    let mut i: usize = 0;
    while i < cells.len()
        invariant
            i <= cells@.len(),
            model == cells_view(cells@),
            forall|j: int| 0 <= j < i ==> (#[trigger] model[j]).0 != column@,
        decreases cells@.len() - i,
    {
        if same_text(cells[i].0.as_str(), column) {
            proof {
                lemma_key_index_is(model, column@, i as int);
            }
            return Some(i);
        }
        i = i + 1;
    }
    proof {
        lemma_key_index_none(model, column@);
    }
    None
}

/// Reads a column of a row as a field of the given type.
pub fn try_get(row: &SqlRow, column: &str, field_type: &str) -> (r: Option<JsonValue>)
    ensures
        match r {
            Some(value) => read_cell(row@, column@, field_type@) == Some(value@),
            None => read_cell(row@, column@, field_type@) is None,
        },
{
    let at = match cell_position(&row.cells, column) {
        Some(at) => at,
        None => {
            return None;
        },
    };
    let value = &row.cells[at].1;
    match (column_kind(field_type), value) {
        (ColumnKind::Integer, SqlValue::Integer(i)) => Some(JsonValue::Number(JsonNumber::Int(*i))),
        (ColumnKind::Float, SqlValue::Float(t)) => Some(
            JsonValue::Number(JsonNumber::Real(t.clone())),
        ),
        (ColumnKind::Boolean, SqlValue::Boolean(b)) => Some(JsonValue::Bool(*b)),
        (ColumnKind::Text, SqlValue::Text(t)) => Some(JsonValue::Text(t.clone())),
        _ => None,
    }
}

/// Assembles the record that a row holds, keyed by field name.
pub fn row_to_document(mapping: &TableMapping, row: &SqlRow) -> (r: JsonValue)
    ensures
        r@ == row_document(mapping@, row@),
{
    let mut members: Vec<(String, JsonValue)> = Vec::new();
    let mut i: usize = 0;
    while i < mapping.fields.len()
        invariant
            i <= mapping.fields.len(),
            members_view(members@) == row_members(mapping@.fields.take(i as int), row@),
        decreases mapping.fields.len() - i,
    {
        let field = &mapping.fields[i];
        proof {
            let next = mapping@.fields.take(i + 1);
            assert(next.drop_last() =~= mapping@.fields.take(i as int));
        }
        match try_get(row, field.column_name.as_str(), field.field_type.as_str()) {
            Some(value) => {
                set_member(&mut members, field.field_name.clone(), value);
            },
            None => {},
        }
        i = i + 1;
    }
    assert(mapping@.fields.take(mapping.fields.len() as int) =~= mapping@.fields);
    let r = JsonValue::Object(members);
    proof {
        lemma_view_of_parts(r);
    }
    r
}

/// The error for a record that the payload type does not accept. It names the
/// entity, the payload type's reason and the fields that the row gave.
pub open spec fn mapping_failure(
    name: Seq<char>,
    reason: Seq<char>,
    fields: Seq<Seq<char>>,
) -> Failure {
    (
        DataSourceErrorKind::MappingError,
        "Error deserializing entity '"@ + name + "': "@ + reason + ". Fields available: "@
            + join_text(fields, ", "@),
    )
}

/// The keys of the members of an object, in order.
pub fn member_keys(document: &JsonValue) -> (r: Vec<String>)
    ensures
        match document@ {
            JsonModel::Object(members) => r.deep_view() == keys_of(members),
            _ => r.deep_view() == Seq::<Seq<char>>::empty(),
        },
{
    let mut out: Vec<String> = Vec::new();
    match document {
        JsonValue::Object(members) => {
            let mut i: usize = 0;
            while i < members.len()
                invariant
                    i <= members.len(),
                    out@.len() == i,
                    forall|j: int| 0 <= j < i ==> out@[j]@ == members@[j].0@,
                decreases members.len() - i,
            {
                out.push(members[i].0.clone());
                i = i + 1;
            }
        },
        _ => {},
    }
    out
}

/// The record that a row gives, or the failure to map it, from what the
/// payload type made of the assembled document. A refusal names the entity,
/// the payload type's reason and the fields that were available.
pub open spec fn record_or_failure<T>(
    name: Seq<char>,
    fields: Seq<Seq<char>>,
    read: Result<T, Seq<char>>,
) -> Result<T, Failure> {
    match read {
        Ok(entity) => Ok(entity),
        Err(reason) => Err(mapping_failure(name, reason, fields)),
    }
}

/// What mapping a row to a record of payload type `T` may give for the named
/// entity. Without a mapping for the name there is no record. With one, the
/// document that the row holds under the mapping is handed to the payload
/// type, and the result is what the payload type makes of it.
pub open spec fn row_answer<T: ApiEntity>(
    table: Seq<(Seq<char>, TableMappingView)>,
    name: Seq<char>,
    row: Seq<(Seq<char>, SqlValueView)>,
    record: Result<T, Failure>,
) -> bool {
    match found_mapping(table, name) {
        None => record == Err::<T, Failure>(no_mapping(name, keys_of(table))),
        Some(mapping) => exists|document: JsonValue, read: Result<T, Seq<char>>|
            document@ == row_document(mapping, row) && #[trigger] T::may_read(document, read)
                && record == record_or_failure(
                name,
                keys_of(row_members(mapping.fields, row)),
                read,
            ),
    }
}

impl MariaDbDatasource {
    /// Maps a database row to an entity object using the entity mapping
    /// configuration.
    pub fn map_row_to_entity<T: ApiEntity>(&self, row: &SqlRow, entity_name: &str) -> (r: Result<
        T,
        DataSourceError,
    >)
        ensures
            row_answer(self.table(), entity_name@, row@, stored_view(r)),
    {
        let mapping = match self.require_mapping(entity_name) {
            Ok(mapping) => mapping,
            Err(error) => {
                return Err(error);
            },
        };
        let document = row_to_document(mapping, row);
        let keys = member_keys(&document);
        let read = T::from_document(document);
        let r = match read {
            Ok(entity) => Ok(entity),
            Err(reason) => {
                let fields = join(&keys, ", ");
                let mut message = concat4(
                    "Error deserializing entity '",
                    entity_name,
                    "': ",
                    reason.as_str(),
                );
                message.append(". Fields available: ");
                message.append(fields.as_str());
                Err(DataSourceError::MappingError(message))
            },
        };
        r
    }
}

/// The rows of a result set with their mathematical content.
pub open spec fn rows_view(rows: Seq<SqlRow>) -> Seq<Seq<(Seq<char>, SqlValueView)>> {
    Seq::new(rows.len(), |i: int| rows[i]@)
}

/// Whether mapping a row may give a record.
pub open spec fn row_maps<T: ApiEntity>(
    table: Seq<(Seq<char>, TableMappingView)>,
    name: Seq<char>,
    row: Seq<(Seq<char>, SqlValueView)>,
) -> bool {
    exists|item: T| #[trigger] row_answer(table, name, row, Ok::<T, Failure>(item))
}

/// Whether the row at `at` may be the first that gives no record, with the
/// given failure.
pub open spec fn fails_at<T: ApiEntity>(
    table: Seq<(Seq<char>, TableMappingView)>,
    name: Seq<char>,
    rows: Seq<Seq<(Seq<char>, SqlValueView)>>,
    at: int,
    error: Failure,
) -> bool {
    &&& 0 <= at < rows.len()
    &&& row_answer(table, name, rows[at], Err::<T, Failure>(error))
    &&& forall|j: int| 0 <= j < at ==> row_maps::<T>(table, name, #[trigger] rows[j])
}

/// Whether the records may be what mapping the rows gives, row by row.
pub open spec fn maps_all<T: ApiEntity>(
    table: Seq<(Seq<char>, TableMappingView)>,
    name: Seq<char>,
    rows: Seq<Seq<(Seq<char>, SqlValueView)>>,
    items: Seq<T>,
) -> bool {
    &&& items.len() == rows.len()
    &&& forall|i: int|
        0 <= i < rows.len() ==> row_answer(
            table,
            name,
            #[trigger] rows[i],
            Ok::<T, Failure>(items[i]),
        )
}

/// What mapping the rows of a result set may give: one record per row, in
/// the order of the rows; or the failure of the first row that gave none.
pub open spec fn rows_answer<T: ApiEntity>(
    table: Seq<(Seq<char>, TableMappingView)>,
    name: Seq<char>,
    rows: Seq<Seq<(Seq<char>, SqlValueView)>>,
    records: Result<Vec<T>, Failure>,
) -> bool {
    match records {
        Ok(items) => maps_all(table, name, rows, items@),
        Err(error) => exists|at: int| #[trigger] fails_at::<T>(table, name, rows, at, error),
    }
}

proof fn lemma_first_failure<T: ApiEntity>(
    table: Seq<(Seq<char>, TableMappingView)>,
    name: Seq<char>,
    rows: Seq<Seq<(Seq<char>, SqlValueView)>>,
    at: int,
    error: Failure,
)
    requires
        fails_at::<T>(table, name, rows, at, error),
    ensures
        rows_answer::<T>(table, name, rows, Err(error)),
{
    let records: Result<Vec<T>, Failure> = Err(error);
    assert(records->Err_0 == error);
}

/// What mapping the row of a lookup may give: no record where there is no
/// row, else what mapping the row gives.
pub open spec fn optional_row_answer<T: ApiEntity>(
    table: Seq<(Seq<char>, TableMappingView)>,
    name: Seq<char>,
    row: Option<Seq<(Seq<char>, SqlValueView)>>,
    record: Result<Option<T>, Failure>,
) -> bool {
    match (row, record) {
        (None, found) => found == Ok::<Option<T>, Failure>(None),
        (Some(cells), Ok(Some(item))) => row_answer(table, name, cells, Ok::<T, Failure>(item)),
        (Some(cells), Err(error)) => row_answer(table, name, cells, Err::<T, Failure>(error)),
        (Some(_), Ok(None)) => false,
    }
}

impl MariaDbDatasource {
    /// Maps the rows of a result set to records, in order. The first row
    /// that cannot be mapped fails the whole result.
    pub fn map_rows_to_entities<T: ApiEntity>(&self, rows: &Vec<SqlRow>, entity_name: &str) -> (r:
        Result<Vec<T>, DataSourceError>)
        ensures
            rows_answer(self.table(), entity_name@, rows_view(rows@), stored_view(r)),
    {
        let ghost table = self.table();
        let ghost cells = rows_view(rows@);
        let mut items: Vec<T> = Vec::new();
        let mut i: usize = 0;
        while i < rows.len()
            invariant
                i <= rows.len(),
                table == self.table(),
                cells == rows_view(rows@),
                items@.len() == i,
                forall|j: int|
                    0 <= j < i ==> row_answer(
                        table,
                        entity_name@,
                        #[trigger] cells[j],
                        Ok::<T, Failure>(items@[j]),
                    ),
            decreases rows.len() - i,
        {
            match self.map_row_to_entity::<T>(&rows[i], entity_name) {
                Ok(item) => {
                    items.push(item);
                },
                Err(error) => {
                    proof {
                        lemma_first_failure::<T>(table, entity_name@, cells, i as int, error@);
                    }
                    return Err(error);
                },
            }
            i = i + 1;
        }
        Ok(items)
    }

    /// Maps the row of a lookup, if there is one, to a record.
    pub fn map_optional_row<T: ApiEntity>(&self, row: Option<&SqlRow>, entity_name: &str) -> (r:
        Result<Option<T>, DataSourceError>)
        ensures
            optional_row_answer(
                self.table(),
                entity_name@,
                match row {
                    Some(cells) => Some(cells@),
                    None => None,
                },
                stored_view(r),
            ),
    {
        match row {
            None => Ok(None),
            Some(cells) => match self.map_row_to_entity::<T>(cells, entity_name) {
                Ok(item) => Ok(Some(item)),
                Err(error) => Err(error),
            },
        }
    }
}

} // verus!
