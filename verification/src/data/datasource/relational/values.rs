//! The values of a record: in mapping order for a statement, bound as SQL
//! values, checked against the declared field types.

use crate::data::datasource::base::{DataSourceError, DataSourceErrorKind, Failure};
use crate::data::datasource::relational::base::{FieldMappingView, TableMapping, TableMappingView};
use crate::data::datasource::relational::mariadb::{found_mapping, no_mapping, MariaDbDatasource};
use crate::data::datasource::relational::queries::text_result;
use crate::data::datasource::relational::rows::{SqlValue, SqlValueView};
use crate::json::{
    member_of, render, render_result, JsonModel, JsonNumber, JsonValue, NumberModel,
};
use crate::string_map::keys_of;
use crate::text::{
    concat2, concat3, decimal, decimal_text, first_index, lemma_first_index_is,
    lemma_first_index_none, same_text,
};
use vstd::prelude::*;

verus! {

/// The values of a record for the mapped fields, in mapping order; `null`
/// stands for a field that the record lacks.
pub open spec fn document_values(fields: Seq<FieldMappingView>, document: JsonModel) -> Seq<
    JsonModel,
> {
    Seq::new(
        fields.len(),
        |i: int|
            match member_of(document, fields[i].field_name) {
                Some(value) => value,
                None => JsonModel::Null,
            },
    )
}

/// The values of a record for an UPDATE: those of the mapped fields but the
/// primary key, in mapping order, then the id for the condition.
pub open spec fn update_values(
    fields: Seq<FieldMappingView>,
    primary_key: Seq<char>,
    document: JsonModel,
    id: Seq<char>,
) -> Seq<JsonModel> {
    assigned_values(fields, primary_key, document).push(JsonModel::Text(id))
}

/// The values that an UPDATE assigns: those of the mapped fields but the
/// primary key, in mapping order.
pub open spec fn assigned_values(
    fields: Seq<FieldMappingView>,
    primary_key: Seq<char>,
    document: JsonModel,
) -> Seq<JsonModel>
    decreases fields.len(),
{
    if fields.len() == 0 {
        Seq::empty()
    } else {
        let rest = assigned_values(fields.drop_last(), primary_key, document);
        if fields.last().field_name != primary_key {
            rest.push(
                match member_of(document, fields.last().field_name) {
                    Some(value) => value,
                    None => JsonModel::Null,
                },
            )
        } else {
            rest
        }
    }
}

/// The documents of a list with their mathematical content.
pub open spec fn values_view(values: Seq<JsonValue>) -> Seq<JsonModel> {
    Seq::new(values.len(), |i: int| values[i]@)
}

fn field_value(document: &JsonValue, field_name: &str) -> (r: JsonValue)
    ensures
        r@ == match member_of(document@, field_name@) {
            Some(value) => value,
            None => JsonModel::Null,
        },
{
    match document.get(field_name) {
        Some(value) => value.clone(),
        None => JsonValue::Null,
    }
}

/// The values of a record for an INSERT, in mapping order.
pub fn document_to_values(mapping: &TableMapping, document: &JsonValue) -> (r: Vec<JsonValue>)
    ensures
        values_view(r@) == document_values(mapping@.fields, document@),
{
    let mut values: Vec<JsonValue> = Vec::new();
    let mut i: usize = 0;
    while i < mapping.fields.len()
        invariant
            i <= mapping.fields.len(),
            values@.len() == i,
            forall|j: int|
                0 <= j < i ==> values@[j]@ == document_values(mapping@.fields, document@)[j],
        decreases mapping.fields.len() - i,
    {
        values.push(field_value(document, mapping.fields[i].field_name.as_str()));
        i = i + 1;
    }
    values
}

/// The values of a record for an UPDATE of the record with the given id.
pub fn document_to_update_values(mapping: &TableMapping, document: &JsonValue, id: &str) -> (r: Vec<
    JsonValue,
>)
    ensures
        values_view(r@) == update_values(
            mapping@.fields,
            mapping@.primary_key,
            document@,
            id@,
        ),
{
    let mut values: Vec<JsonValue> = Vec::new();
    let mut i: usize = 0;
    while i < mapping.fields.len()
        invariant
            i <= mapping.fields.len(),
            values_view(values@) == assigned_values(
                mapping@.fields.take(i as int),
                mapping.primary_key@,
                document@,
            ),
        decreases mapping.fields.len() - i,
    {
        let field = &mapping.fields[i];
        proof {
            let next = mapping@.fields.take(i + 1);
            assert(next.drop_last() =~= mapping@.fields.take(i as int));
        }
        if !same_text(field.field_name.as_str(), mapping.primary_key.as_str()) {
            let value = field_value(document, field.field_name.as_str());
            values.push(value);
        }
        i = i + 1;
    }
    assert(mapping@.fields.take(mapping.fields.len() as int) =~= mapping@.fields);
    let key = JsonValue::Text(String::from_str(id));
    values.push(key);
    values
}

/// The text that stands for a document in a message: its JSON text, or the
/// reason why it has none.
pub open spec fn shown(document: JsonModel) -> Seq<char> {
    match render_result(document) {
        Ok(text) => text,
        Err(reason) => reason,
    }
}

fn show(document: &JsonValue) -> (r: String)
    ensures
        r@ == shown(document@),
{
    match render(document) {
        Ok(text) => text,
        Err(reason) => reason,
    }
}

/// The value that is bound for a JSON value: texts, integers, truth values and
/// `null` as they are; every other number as a floating-point number. Arrays
/// and objects cannot be bound.
pub open spec fn bound_value(value: JsonModel) -> Result<SqlValueView, Failure> {
    match value {
        JsonModel::Text(t) => Ok(SqlValueView::Text(t)),
        JsonModel::Number(NumberModel::Int(i)) => Ok(SqlValueView::Integer(i)),
        JsonModel::Number(NumberModel::UInt(u)) => Ok(SqlValueView::Float(decimal_text(u as nat))),
        JsonModel::Number(NumberModel::Real(t)) => Ok(SqlValueView::Float(t)),
        JsonModel::Bool(b) => Ok(SqlValueView::Boolean(b)),
        JsonModel::Null => Ok(SqlValueView::Null),
        _ => Err(
            (
                DataSourceErrorKind::ValidationError,
                "Unsupported value type for binding: "@ + shown(value),
            ),
        ),
    }
}

/// Chooses the SQL value under which a JSON value is bound to a statement.
pub fn bind_value(value: &JsonValue) -> (r: Result<SqlValue, DataSourceError>)
    ensures
        match r {
            Ok(bound) => bound_value(value@) == Ok::<SqlValueView, Failure>(bound@),
            Err(error) => bound_value(value@) == Err::<SqlValueView, Failure>(error@),
        },
{
    match value {
        JsonValue::Text(t) => Ok(SqlValue::Text(t.clone())),
        JsonValue::Number(JsonNumber::Int(i)) => Ok(SqlValue::Integer(*i)),
        JsonValue::Number(JsonNumber::UInt(u)) => Ok(SqlValue::Float(decimal(*u))),
        JsonValue::Number(JsonNumber::Real(t)) => Ok(SqlValue::Float(t.clone())),
        JsonValue::Bool(b) => Ok(SqlValue::Boolean(*b)),
        JsonValue::Null => Ok(SqlValue::Null),
        _ => {
            let text = show(value);
            Err(
                DataSourceError::ValidationError(
                    concat2("Unsupported value type for binding: ", text.as_str()),
                ),
            )
        },
    }
}

/// Whether a value goes with a declared field type. `null` goes with every
/// type; a text with `string`; an integer that fits `i64` with `integer`;
/// every number with `float`; a truth value with `boolean`.
pub open spec fn type_matches(field_type: Seq<char>, value: JsonModel) -> bool {
    ||| value is Null
    ||| (field_type == "string"@ && value is Text)
    ||| (field_type == "integer"@ && value matches JsonModel::Number(NumberModel::Int(_)))
    ||| (field_type == "float"@ && value is Number)
    ||| (field_type == "boolean"@ && value is Bool)
}

/// The names of the mapped fields whose value in the record does not go with
/// the declared type, in mapping order.
pub open spec fn mismatched_fields(fields: Seq<FieldMappingView>, document: JsonModel) -> Seq<
    Seq<char>,
>
    decreases fields.len(),
{
    if fields.len() == 0 {
        Seq::empty()
    } else {
        let rest = mismatched_fields(fields.drop_last(), document);
        let field = fields.last();
        match member_of(document, field.field_name) {
            Some(value) => if type_matches(field.field_type, value) {
                rest
            } else {
                rest.push(field.field_name)
            },
            None => rest,
        }
    }
}

fn matches_type(field_type: &str, value: &JsonValue) -> (r: bool)
    ensures
        r == type_matches(field_type@, value@),
{
    match value {
        JsonValue::Null => true,
        JsonValue::Text(_) => same_text(field_type, "string"),
        JsonValue::Number(JsonNumber::Int(_)) => same_text(field_type, "integer") || same_text(
            field_type,
            "float",
        ),
        JsonValue::Number(_) => same_text(field_type, "float"),
        JsonValue::Bool(_) => same_text(field_type, "boolean"),
        _ => false,
    }
}

/// The result of validating a record: the fields to warn about, or the error
/// for a record that is no object.
pub open spec fn validation_of(fields: Seq<FieldMappingView>, document: JsonModel) -> Result<
    Seq<Seq<char>>,
    Failure,
> {
    if document is Object {
        Ok(mismatched_fields(fields, document))
    } else {
        Err((DataSourceErrorKind::ValidationError, "Entity must be an object"@))
    }
}

/// Validates a record against a mapping. A value that does not go with the
/// declared type of its field is no failure: the field is returned, for a
/// warning. Only a record that is no object fails.
pub fn validate_document(mapping: &TableMapping, document: &JsonValue) -> (r: Result<
    Vec<String>,
    DataSourceError,
>)
    ensures
        match r {
            Ok(warnings) => validation_of(
                mapping@.fields,
                document@,
            ) == Ok::<Seq<Seq<char>>, Failure>(
                warnings.deep_view(),
            ),
            Err(error) => validation_of(
                mapping@.fields,
                document@,
            ) == Err::<Seq<Seq<char>>, Failure>(error@),
        },
{
    if !document.is_object() {
        return Err(DataSourceError::ValidationError(String::from_str("Entity must be an object")));
    }
    let mut warnings: Vec<String> = Vec::new();
    let mut i: usize = 0;
    while i < mapping.fields.len()
        invariant
            i <= mapping.fields.len(),
            warnings.deep_view() == mismatched_fields(
                mapping@.fields.take(i as int),
                document@,
            ),
        decreases mapping.fields.len() - i,
    {
        let field = &mapping.fields[i];
        proof {
            let next = mapping@.fields.take(i + 1);
            assert(next.drop_last() =~= mapping@.fields.take(i as int));
        }
        match document.get(field.field_name.as_str()) {
            Some(value) => {
                if !matches_type(field.field_type.as_str(), value) {
                    warnings.push(field.field_name.clone());
                }
            },
            None => {},
        }
        i = i + 1;
    }
    assert(mapping@.fields.take(mapping.fields.len() as int) =~= mapping@.fields);
    Ok(warnings)
}

/// The decimal notation of an integer, with `-` in front of a negative one.
pub open spec fn signed_decimal_text(i: int) -> Seq<char> {
    if i < 0 {
        "-"@ + decimal_text((-i) as nat)
    } else {
        decimal_text(i as nat)
    }
}

/// Writes an integer in decimal notation.
pub fn signed_decimal(i: i64) -> (r: String)
    ensures
        r@ == signed_decimal_text(i as int),
{
    if i < 0 {
        let magnitude: u64 = ((-(i + 1)) as u64) + 1;
        let digits = decimal(magnitude);
        concat2("-", digits.as_str())
    } else {
        decimal(i as u64)
    }
}

/// The error for a record that is no JSON object.
pub open spec fn not_an_object() -> Failure {
    (
        DataSourceErrorKind::SerializationError,
        "The entity could not be serialized as a JSON object"@,
    )
}

/// The id of a record: the value of its primary key, a text as it is and a
/// number in its notation.
pub open spec fn id_of(primary_key: Seq<char>, document: JsonModel) -> Result<Seq<char>, Failure> {
    if !(document is Object) {
        Err(not_an_object())
    } else {
        match member_of(document, primary_key) {
            None => Err(
                (
                    DataSourceErrorKind::ValidationError,
                    "The ID field '"@ + primary_key + "' was not found in the entity"@,
                ),
            ),
            Some(JsonModel::Text(t)) => Ok(t),
            Some(JsonModel::Number(NumberModel::Int(i))) => Ok(signed_decimal_text(i as int)),
            Some(JsonModel::Number(NumberModel::UInt(u))) => Ok(decimal_text(u as nat)),
            Some(JsonModel::Number(NumberModel::Real(t))) => Ok(t),
            Some(other) => Err(
                (
                    DataSourceErrorKind::ValidationError,
                    "The ID value is not a valid string or number: "@ + shown(other),
                ),
            ),
        }
    }
}

/// Extracts the ID value from a record.
pub fn document_id(mapping: &TableMapping, document: &JsonValue) -> (r: Result<
    String,
    DataSourceError,
>)
    ensures
        text_result(r) == id_of(mapping@.primary_key, document@),
{
    if !document.is_object() {
        return Err(
            DataSourceError::SerializationError(
                String::from_str("The entity could not be serialized as a JSON object"),
            ),
        );
    }
    match document.get(mapping.primary_key.as_str()) {
        None => Err(
            DataSourceError::ValidationError(
                concat3(
                    "The ID field '",
                    mapping.primary_key.as_str(),
                    "' was not found in the entity",
                ),
            ),
        ),
        Some(JsonValue::Text(t)) => Ok(t.clone()),
        Some(JsonValue::Number(JsonNumber::Int(i))) => Ok(signed_decimal(*i)),
        Some(JsonValue::Number(JsonNumber::UInt(u))) => Ok(decimal(*u)),
        Some(JsonValue::Number(JsonNumber::Real(t))) => Ok(t.clone()),
        Some(other) => {
            let text = show(other);
            Err(
                DataSourceError::ValidationError(
                    concat2("The ID value is not a valid string or number: ", text.as_str()),
                ),
            )
        },
    }
}

/// The parameter values of an INSERT of a record of the named entity.
pub open spec fn insert_values_for(
    table: Seq<(Seq<char>, TableMappingView)>,
    name: Seq<char>,
    document: JsonModel,
) -> Result<Seq<JsonModel>, Failure> {
    match found_mapping(table, name) {
        None => Err(no_mapping(name, keys_of(table))),
        Some(mapping) => if document is Object {
            Ok(document_values(mapping.fields, document))
        } else {
            Err(not_an_object())
        },
    }
}

/// The parameter values of an UPDATE of the record with the given id.
pub open spec fn update_values_for(
    table: Seq<(Seq<char>, TableMappingView)>,
    name: Seq<char>,
    document: JsonModel,
    id: Seq<char>,
) -> Result<Seq<JsonModel>, Failure> {
    match found_mapping(table, name) {
        None => Err(no_mapping(name, keys_of(table))),
        Some(mapping) => if document is Object {
            Ok(update_values(mapping.fields, mapping.primary_key, document, id))
        } else {
            Err(not_an_object())
        },
    }
}

/// The result of validating a record of the named entity.
pub open spec fn validation_for(
    table: Seq<(Seq<char>, TableMappingView)>,
    name: Seq<char>,
    document: JsonModel,
) -> Result<Seq<Seq<char>>, Failure> {
    match found_mapping(table, name) {
        None => Err(no_mapping(name, keys_of(table))),
        Some(mapping) => validation_of(mapping.fields, document),
    }
}

/// The id of a record of the named entity.
pub open spec fn id_for(
    table: Seq<(Seq<char>, TableMappingView)>,
    name: Seq<char>,
    document: JsonModel,
) -> Result<Seq<char>, Failure> {
    match found_mapping(table, name) {
        None => Err(no_mapping(name, keys_of(table))),
        Some(mapping) => id_of(mapping.primary_key, document),
    }
}

/// A list of documents, or an error, with their mathematical content.
pub open spec fn values_result(result: Result<Vec<JsonValue>, DataSourceError>) -> Result<
    Seq<JsonModel>,
    Failure,
> {
    match result {
        Ok(values) => Ok(values_view(values@)),
        Err(error) => Err(error@),
    }
}

/// A list of names, or an error, with their mathematical content.
pub open spec fn names_result(result: Result<Vec<String>, DataSourceError>) -> Result<
    Seq<Seq<char>>,
    Failure,
> {
    match result {
        Ok(names) => Ok(names.deep_view()),
        Err(error) => Err(error@),
    }
}

impl MariaDbDatasource {
    /// Converts a record to the values of an INSERT, ordered by the entity
    /// mapping field order.
    pub fn entity_to_query_values(&self, item: &JsonValue, entity_name: &str) -> (r: Result<
        Vec<JsonValue>,
        DataSourceError,
    >)
        ensures
            values_result(r) == insert_values_for(self.table(), entity_name@, item@),
    {
        let mapping = match self.require_mapping(entity_name) {
            Ok(mapping) => mapping,
            Err(error) => {
                return Err(error);
            },
        };
        if !item.is_object() {
            return Err(
                DataSourceError::SerializationError(
                    String::from_str("The entity could not be serialized as a JSON object"),
                ),
            );
        }
        Ok(document_to_values(mapping, item))
    }

    /// Prepares the values of an UPDATE: the primary key is left out of the
    /// assigned values and the id goes last, for the condition.
    pub fn prepare_update_values(&self, item: &JsonValue, entity_name: &str, id: &str) -> (r:
        Result<Vec<JsonValue>, DataSourceError>)
        ensures
            values_result(r) == update_values_for(self.table(), entity_name@, item@, id@),
    {
        let mapping = match self.require_mapping(entity_name) {
            Ok(mapping) => mapping,
            Err(error) => {
                return Err(error);
            },
        };
        if !item.is_object() {
            return Err(
                DataSourceError::SerializationError(
                    String::from_str("The entity could not be serialized as a JSON object"),
                ),
            );
        }
        Ok(document_to_update_values(mapping, item, id))
    }

    /// Validates a record against its mapping configuration. Returns the
    /// fields whose values do not go with their declared types: they are
    /// worth a warning and do not stop a write.
    pub fn validate_entity(&self, item: &JsonValue, entity_name: &str) -> (r: Result<
        Vec<String>,
        DataSourceError,
    >)
        ensures
            names_result(r) == validation_for(self.table(), entity_name@, item@),
    {
        let mapping = match self.require_mapping(entity_name) {
            Ok(mapping) => mapping,
            Err(error) => {
                return Err(error);
            },
        };
        validate_document(mapping, item)
    }

    /// Extracts the ID value from a record.
    pub fn get_entity_id(&self, item: &JsonValue, entity_name: &str) -> (r: Result<
        String,
        DataSourceError,
    >)
        ensures
            text_result(r) == id_for(self.table(), entity_name@, item@),
    {
        let mapping = match self.require_mapping(entity_name) {
            Ok(mapping) => mapping,
            Err(error) => {
                return Err(error);
            },
        };
        document_id(mapping, item)
    }
}

/// The SQL values of a list with their mathematical content.
pub open spec fn parameters_view(parameters: Seq<SqlValue>) -> Seq<SqlValueView> {
    Seq::new(parameters.len(), |i: int| parameters[i]@)
}

/// The values that are bound for a list of JSON values: each as
/// [`bound_value`] says, or the error of the first that cannot be bound.
pub open spec fn bound_values(values: Seq<JsonModel>) -> Result<Seq<SqlValueView>, Failure> {
    match first_index(values, |value: JsonModel| bound_value(value) is Err) {
        Some(i) => Err(bound_value(values[i])->Err_0),
        None => Ok(Seq::new(values.len(), |i: int| bound_value(values[i])->Ok_0)),
    }
}

/// Chooses the SQL values under which JSON values are bound to a statement.
pub fn bind_values(values: &Vec<JsonValue>) -> (r: Result<Vec<SqlValue>, DataSourceError>)
    ensures
        match r {
            Ok(bound) => bound_values(values_view(values@)) == Ok::<Seq<SqlValueView>, Failure>(
                parameters_view(bound@),
            ),
            Err(error) => bound_values(
                values_view(values@),
            ) == Err::<Seq<SqlValueView>, Failure>(error@),
        },
{
    let ghost models = values_view(values@);
    let ghost fails = |value: JsonModel| bound_value(value) is Err;
    let mut bound: Vec<SqlValue> = Vec::new();
    let mut i: usize = 0;
    while i < values.len()
        invariant
            i <= values.len(),
            models == values_view(values@),
            fails == |value: JsonModel| bound_value(value) is Err,
            bound@.len() == i,
            forall|j: int| 0 <= j < i ==> !fails(#[trigger] models[j]),
            forall|j: int|
                0 <= j < i ==> bound_value(models[j]) == Ok::<SqlValueView, Failure>(
                    bound@[j]@,
                ),
        decreases values.len() - i,
    {
        match bind_value(&values[i]) {
            Ok(value) => {
                bound.push(value);
            },
            Err(error) => {
                proof {
                    lemma_first_index_is(models, fails, i as int);
                }
                return Err(error);
            },
        }
        i = i + 1;
    }
    proof {
        lemma_first_index_none(models, fails);
        assert(parameters_view(bound@) =~= Seq::new(
            models.len(),
            |i: int| bound_value(models[i])->Ok_0,
        ));
    }
    Ok(bound)
}

} // verus!
