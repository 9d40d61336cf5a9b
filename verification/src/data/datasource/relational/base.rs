//! How entities map to tables.

use crate::config::specific::entity_config::{DataType, Entity, Field};
use crate::data::datasource::base::{DataSource, DatabaseCommon};
use crate::text::{
    first_index, lemma_first_index, lemma_first_index_is, lemma_first_index_none, same_text,
};
use vstd::prelude::*;

verus! {

/// A relational datasource.
pub trait RelationalSource<T>: DataSource<T> + DatabaseCommon {
    /// The name of the database that the source is connected to.
    fn get_db_structure(&self) -> String;
}

/// Maps one entity field to its column.
#[derive(Debug)]
pub struct FieldMapping {
    pub field_name: String,
    pub column_name: String,
    /// The type tag of the field, see [`data_type_text`].
    pub field_type: String,
}

/// Maps one entity to its table.
#[derive(Debug)]
pub struct TableMapping {
    pub table_name: String,
    pub primary_key: String,
    /// The fields in declaration order. This order is the order of the
    /// positional parameters of generated statements.
    pub fields: Vec<FieldMapping>,
}

/// The mathematical content of a [`FieldMapping`].
pub ghost struct FieldMappingView {
    pub field_name: Seq<char>,
    pub column_name: Seq<char>,
    pub field_type: Seq<char>,
}

/// The mathematical content of a [`TableMapping`].
pub ghost struct TableMappingView {
    pub table_name: Seq<char>,
    pub primary_key: Seq<char>,
    pub fields: Seq<FieldMappingView>,
}

impl View for FieldMapping {
    type V = FieldMappingView;

    open spec fn view(&self) -> FieldMappingView {
        FieldMappingView {
            field_name: self.field_name@,
            column_name: self.column_name@,
            field_type: self.field_type@,
        }
    }
}

impl View for TableMapping {
    type V = TableMappingView;

    open spec fn view(&self) -> TableMappingView {
        TableMappingView {
            table_name: self.table_name@,
            primary_key: self.primary_key@,
            fields: Seq::new(self.fields@.len(), |i: int| self.fields@[i]@),
        }
    }
}

impl Clone for FieldMapping {
    fn clone(&self) -> (r: Self)
        ensures
            r@ == self@,
    {
        FieldMapping {
            field_name: self.field_name.clone(),
            column_name: self.column_name.clone(),
            field_type: self.field_type.clone(),
        }
    }
}

impl Clone for TableMapping {
    fn clone(&self) -> (r: Self)
        ensures
            r@ == self@,
    {
        let mut fields: Vec<FieldMapping> = Vec::new();
        let mut i: usize = 0;
        while i < self.fields.len()
            invariant
                i <= self.fields.len(),
                fields@.len() == i,
                forall|j: int| 0 <= j < i ==> fields@[j]@ == self.fields@[j]@,
            decreases self.fields.len() - i,
        {
            fields.push(self.fields[i].clone());
            i = i + 1;
        }
        let r = TableMapping {
            table_name: self.table_name.clone(),
            primary_key: self.primary_key.clone(),
            fields,
        };
        assert(r@.fields =~= self@.fields);
        r
    }
}

/// The type tag under which a data type is mapped.
pub open spec fn data_type_text(data_type: DataType) -> Seq<char> {
    match data_type {
        DataType::String => "string"@,
        DataType::Integer => "integer"@,
        DataType::Float => "float"@,
        DataType::Boolean => "boolean"@,
        DataType::Date => "date"@,
        DataType::DateTime => "datetime"@,
        DataType::Binary => "binary"@,
        DataType::JSON => "json"@,
    }
}

/// Converts an entity data type to its type tag.
pub fn data_type_to_string(data_type: &DataType) -> (r: String)
    ensures
        r@ == data_type_text(*data_type),
{
    match data_type {
        DataType::String => String::from_str("string"),
        DataType::Integer => String::from_str("integer"),
        DataType::Float => String::from_str("float"),
        DataType::Boolean => String::from_str("boolean"),
        DataType::Date => String::from_str("date"),
        DataType::DateTime => String::from_str("datetime"),
        DataType::Binary => String::from_str("binary"),
        DataType::JSON => String::from_str("json"),
    }
}

/// Position of the first field named `id`.
pub open spec fn first_id_field(fields: Seq<Field>) -> Option<int> {
    first_index(fields, |field: Field| field.name@ == "id"@)
}

/// Position of the first field that is both unique and required.
pub open spec fn first_key_field(fields: Seq<Field>) -> Option<int> {
    first_index(fields, |field: Field| field.unique && field.required)
}

/// The primary key of an entity: the first field named `id`; else the first
/// field that is unique and required; else the literal `id`.
pub open spec fn primary_key_of(fields: Seq<Field>) -> Seq<char> {
    match first_id_field(fields) {
        Some(i) => fields[i].name@,
        None => match first_key_field(fields) {
            Some(i) => fields[i].name@,
            None => "id"@,
        },
    }
}

/// Finds the primary key of an entity.
pub fn detect_primary_key(entity: &Entity) -> (r: String)
    ensures
        r@ == primary_key_of(entity.fields@),
{
    let fields = &entity.fields;
    let ghost named_id = |field: Field| field.name@ == "id"@;
    let ghost is_key = |field: Field| field.unique && field.required;
    let mut i: usize = 0;
    while i < fields.len()
        invariant
            i <= fields.len(),
            fields@ == entity.fields@,
            named_id == |field: Field| field.name@ == "id"@,
            forall|j: int| 0 <= j < i ==> !named_id(#[trigger] fields@[j]),
        decreases fields.len() - i,
    {
        if same_text(fields[i].name.as_str(), "id") {
            proof {
                lemma_first_index_is(fields@, named_id, i as int);
            }
            return fields[i].name.clone();
        }
        i = i + 1;
    }
    proof {
        lemma_first_index_none(fields@, named_id);
    }
    let mut k: usize = 0;
    while k < fields.len()
        invariant
            k <= fields.len(),
            fields@ == entity.fields@,
            first_id_field(fields@) is None,
            is_key == |field: Field| field.unique && field.required,
            forall|j: int| 0 <= j < k ==> !is_key(#[trigger] fields@[j]),
        decreases fields.len() - k,
    {
        if fields[k].unique && fields[k].required {
            proof {
                lemma_first_index_is(fields@, is_key, k as int);
            }
            return fields[k].name.clone();
        }
        k = k + 1;
    }
    proof {
        lemma_first_index_none(fields@, is_key);
    }
    String::from_str("id")
}

/// The column of a field: its configured column name, or the field's name.
pub open spec fn column_of(field: Field) -> Seq<char> {
    match field.column_name {
        Some(column) => column@,
        None => field.name@,
    }
}

/// The mapping of one field.
pub open spec fn field_mapping_of(field: Field) -> FieldMappingView {
    FieldMappingView {
        field_name: field.name@,
        column_name: column_of(field),
        field_type: data_type_text(field.data_type),
    }
}

/// The table mapping of an entity: its table (the entity name where none is
/// configured), its primary key and one field mapping per field, in order.
pub open spec fn table_mapping_of(entity: Entity) -> TableMappingView {
    TableMappingView {
        table_name: match entity.table_name {
            Some(table) => table@,
            None => entity.name@,
        },
        primary_key: primary_key_of(entity.fields@),
        fields: Seq::new(entity.fields@.len(), |i: int| field_mapping_of(entity.fields@[i])),
    }
}

/// Creates the table mapping of an entity.
pub fn create_table_mapping(entity: &Entity) -> (r: TableMapping)
    ensures
        r@ == table_mapping_of(*entity),
{
    let table_name = match &entity.table_name {
        Some(table) => table.clone(),
        None => entity.name.clone(),
    };
    let mut fields: Vec<FieldMapping> = Vec::new();
    let mut i: usize = 0;
    while i < entity.fields.len()
        invariant
            i <= entity.fields.len(),
            fields@.len() == i,
            forall|j: int| 0 <= j < i ==> fields@[j]@ == field_mapping_of(entity.fields@[j]),
        decreases entity.fields.len() - i,
    {
        let field = &entity.fields[i];
        let column_name = match &field.column_name {
            Some(column) => column.clone(),
            None => field.name.clone(),
        };
        fields.push(
            FieldMapping {
                field_name: field.name.clone(),
                column_name,
                field_type: data_type_to_string(&field.data_type),
            },
        );
        i = i + 1;
    }
    let r = TableMapping { table_name, primary_key: detect_primary_key(entity), fields };
    assert(r@.fields =~= table_mapping_of(*entity).fields);
    r
}

/// The primary key of fields of which none is unique is `id`: either a field
/// is named so, or the literal is taken.
pub proof fn lemma_primary_key_without_unique(fields: Seq<Field>)
    requires
        forall|i: int| 0 <= i < fields.len() ==> !(#[trigger] fields[i]).unique,
    ensures
        primary_key_of(fields) == "id"@,
{
    lemma_first_index(fields, |field: Field| field.name@ == "id"@);
    lemma_first_index_none(fields, |field: Field| field.unique && field.required);
}

} // verus!
