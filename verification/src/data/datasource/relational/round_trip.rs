//! What holds between the statements, the values and the rows of one
//! mapping.

use crate::data::datasource::base::Failure;
use crate::data::datasource::relational::base::{FieldMappingView, TableMappingView};
use crate::data::datasource::relational::mariadb::found_mapping;
use crate::data::datasource::relational::queries::{
    placeholders, quoted, quoted_columns, set_clauses,
};
use crate::data::datasource::relational::rows::{
    row_answer, row_document, row_members, SqlValueView,
};
use crate::data::datasource::relational::values::{
    assigned_values, bound_value, document_values, insert_values_for, update_values,
};
use crate::json::{member_of, JsonModel, JsonValue, NumberModel};
use crate::string_map::{lemma_key_index_is, lemma_key_index_none};
use vstd::prelude::*;

verus! {

/// A value of the kind that a primitive field type stores: a text for
/// `string`, an integer for `integer`, a number with a fraction or an exponent
/// for `float`, a truth value for `boolean`.
pub open spec fn primitive_value(field_type: Seq<char>, value: JsonModel) -> bool {
    ||| (field_type == "string"@ && value is Text)
    ||| (field_type == "integer"@ && value matches JsonModel::Number(NumberModel::Int(_)))
    ||| (field_type == "float"@ && value matches JsonModel::Number(NumberModel::Real(_)))
    ||| (field_type == "boolean"@ && value is Bool)
}

/// The row whose columns hold the given values as they are bound, one per
/// mapped field.
pub open spec fn synthetic_row(fields: Seq<FieldMappingView>, values: Seq<JsonModel>) -> Seq<
    (Seq<char>, SqlValueView),
> {
    Seq::new(fields.len(), |i: int| (fields[i].column_name, bound_value(values[i])->Ok_0))
}

/// The given values as members, each under the name of its field.
pub open spec fn field_members(fields: Seq<FieldMappingView>, values: Seq<JsonModel>) -> Seq<
    (Seq<char>, JsonModel),
> {
    Seq::new(fields.len(), |i: int| (fields[i].field_name, values[i]))
}

/// No two mapped fields share a name or a column.
pub open spec fn distinct_fields(fields: Seq<FieldMappingView>) -> bool {
    forall|i: int, j: int|
        0 <= i < j < fields.len() ==> (#[trigger] fields[i]).field_name != (
        #[trigger] fields[j]).field_name && fields[i].column_name != fields[j].column_name
}

proof fn lemma_type_tags_differ()
    ensures
        "string"@ != "integer"@,
        "string"@ != "float"@,
        "string"@ != "boolean"@,
        "integer"@ != "float"@,
        "integer"@ != "boolean"@,
        "float"@ != "boolean"@,
{
    reveal_strlit("string");
    reveal_strlit("integer");
    reveal_strlit("float");
    reveal_strlit("boolean");
    assert("string"@.len() == 6);
    assert("integer"@[0] != "boolean"@[0]);
}

proof fn lemma_row_prefix(
    fields: Seq<FieldMappingView>,
    values: Seq<JsonModel>,
    count: int,
)
    requires
        distinct_fields(fields),
        values.len() == fields.len(),
        0 <= count <= fields.len(),
        forall|i: int|
            0 <= i < fields.len() ==> primitive_value(
                (#[trigger] fields[i]).field_type,
                values[i],
            ),
    ensures
        row_members(fields.take(count), synthetic_row(fields, values)) == field_members(
            fields,
            values,
        ).take(count),
    decreases count,
{
    let row = synthetic_row(fields, values);
    let target = field_members(fields, values);
    if count > 0 {
        let k = count - 1;
        lemma_row_prefix(fields, values, k);
        lemma_type_tags_differ();
        let prefix = fields.take(count);
        assert(prefix.drop_last() =~= fields.take(k));
        let field = fields[k];
        lemma_key_index_is(row, field.column_name, k);
        let rest = target.take(k);
        lemma_key_index_none(rest, field.field_name);
    }
}

/// The values of a record survive the way through a row. Take a mapping
/// without repeated field names or columns and a record whose value for each
/// mapped field is of the kind that the field's primitive type stores. Bind
/// the record's values as for an INSERT, put them in a row, column by column,
/// and read the row back: the result has one member per mapped field, in
/// mapping order, with the value that the record has for that field. A record
/// that has exactly these members in this order comes back as it was.
pub proof fn lemma_row_round_trip(mapping: TableMappingView, document: JsonModel)
    requires
        distinct_fields(mapping.fields),
        forall|i: int|
            0 <= i < mapping.fields.len() ==> primitive_value(
                (#[trigger] mapping.fields[i]).field_type,
                document_values(mapping.fields, document)[i],
            ),
    ensures
        row_document(
            mapping,
            synthetic_row(mapping.fields, document_values(mapping.fields, document)),
        ) == JsonModel::Object(
            field_members(mapping.fields, document_values(mapping.fields, document)),
        ),
        forall|i: int|
            0 <= i < mapping.fields.len() ==> member_of(
                row_document(
                    mapping,
                    synthetic_row(mapping.fields, document_values(mapping.fields, document)),
                ),
                (#[trigger] mapping.fields[i]).field_name,
            ) == member_of(document, mapping.fields[i].field_name),
        document == JsonModel::Object(
            field_members(mapping.fields, document_values(mapping.fields, document)),
        ) ==> row_document(
            mapping,
            synthetic_row(mapping.fields, document_values(mapping.fields, document)),
        ) == document,
{
    let fields = mapping.fields;
    let values = document_values(fields, document);
    let members = field_members(fields, values);
    lemma_row_prefix(fields, values, fields.len() as int);
    assert(fields.take(fields.len() as int) =~= fields);
    assert(members.take(fields.len() as int) =~= members);
    assert forall|i: int| 0 <= i < fields.len() implies member_of(
        JsonModel::Object(members),
        (#[trigger] fields[i]).field_name,
    ) == member_of(document, fields[i].field_name) by {
        lemma_key_index_is(members, fields[i].field_name, i);
    }
}

/// The round trip holds of the engine's own functions for the JSON payload.
/// Take a mapped entity whose mapping has no repeated field names or columns
/// and a record whose value for each mapped field is of the kind that the
/// field's primitive type stores. The values that the engine binds for an
/// INSERT of the record, put in a row, are mapped back to a record, never to
/// a failure; the record holds the members of the mapped fields with the
/// values that went in; and a record that has exactly these members comes
/// back as it was. For a payload type of its own the same document is handed
/// to the payload type, which decides what it reads from it.
pub proof fn lemma_json_payload_round_trip(
    table: Seq<(Seq<char>, TableMappingView)>,
    name: Seq<char>,
    document: JsonModel,
    record: Result<JsonValue, Failure>,
)
    requires
        found_mapping(table, name) is Some,
        distinct_fields(found_mapping(table, name)->Some_0.fields),
        forall|i: int|
            0 <= i < found_mapping(table, name)->Some_0.fields.len() ==> primitive_value(
                (#[trigger] found_mapping(table, name)->Some_0.fields[i]).field_type,
                document_values(found_mapping(table, name)->Some_0.fields, document)[i],
            ),
        row_answer::<JsonValue>(
            table,
            name,
            synthetic_row(
                found_mapping(table, name)->Some_0.fields,
                document_values(found_mapping(table, name)->Some_0.fields, document),
            ),
            record,
        ),
    ensures
        insert_values_for(table, name, document) matches Ok(values) ==> values
            == document_values(found_mapping(table, name)->Some_0.fields, document),
        record matches Ok(item) && item@ == JsonModel::Object(
            field_members(
                found_mapping(table, name)->Some_0.fields,
                document_values(found_mapping(table, name)->Some_0.fields, document),
            ),
        ),
        document == JsonModel::Object(
            field_members(
                found_mapping(table, name)->Some_0.fields,
                document_values(found_mapping(table, name)->Some_0.fields, document),
            ),
        ) ==> (record matches Ok(item) && item@ == document),
{
    let mapping = found_mapping(table, name)->Some_0;
    lemma_row_round_trip(mapping, document);
}

/// Statements and values agree. For every mapping and record, an INSERT has
/// one placeholder and one value per mapped field, the value at a position
/// being the record's value for the field whose column stands at that
/// position; and an UPDATE has one value per assignment, followed by the id.
pub proof fn lemma_statement_and_values_agree(
    mapping: TableMappingView,
    document: JsonModel,
    id: Seq<char>,
)
    ensures
        quoted_columns(mapping.fields).len() == mapping.fields.len(),
        placeholders(mapping.fields.len()).len() == mapping.fields.len(),
        document_values(mapping.fields, document).len() == mapping.fields.len(),
        forall|i: int|
            0 <= i < mapping.fields.len() ==> quoted_columns(mapping.fields)[i] == quoted(
                mapping.fields[i].column_name,
            ) && #[trigger] document_values(mapping.fields, document)[i] == (match member_of(
                document,
                mapping.fields[i].field_name,
            ) {
                Some(value) => value,
                None => JsonModel::Null,
            }),
        assigned_values(mapping.fields, mapping.primary_key, document).len() == set_clauses(
            mapping.fields,
            mapping.primary_key,
        ).len(),
        update_values(mapping.fields, mapping.primary_key, document, id).len() == set_clauses(
            mapping.fields,
            mapping.primary_key,
        ).len() + 1,
        update_values(mapping.fields, mapping.primary_key, document, id).last()
            == JsonModel::Text(id),
{
    lemma_assignments(mapping.fields, mapping.primary_key, document);
}

proof fn lemma_assignments(
    fields: Seq<FieldMappingView>,
    primary_key: Seq<char>,
    document: JsonModel,
)
    ensures
        assigned_values(fields, primary_key, document).len() == set_clauses(
            fields,
            primary_key,
        ).len(),
    decreases fields.len(),
{
    if fields.len() > 0 {
        lemma_assignments(fields.drop_last(), primary_key, document);
    }
}

} // verus!
