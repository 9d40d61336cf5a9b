//! The SQL text of every operation. Only identifiers that come from the
//! configuration stand in the text; every value is a positional parameter.

use crate::config::specific::entity_config::{Entity, Field};
use crate::data::datasource::base::{DataSourceError, Failure};
use crate::data::datasource::relational::base::{
    column_of, first_id_field, lemma_primary_key_without_unique, table_mapping_of,
    FieldMappingView, TableMapping, TableMappingView,
};
use crate::data::datasource::relational::mariadb::{found_mapping, no_mapping, MariaDbDatasource};
use crate::string_map::keys_of;
use crate::text::{
    concat2, concat3, first_index, join, join_text, lemma_first_index, lemma_first_index_is,
    lemma_first_index_none, same_text,
};
use vstd::prelude::*;

verus! {

/// A column name between backticks.
pub open spec fn quoted(name: Seq<char>) -> Seq<char> {
    "`"@ + name + "`"@
}

/// The quoted columns of the mapped fields, in mapping order.
pub open spec fn quoted_columns(fields: Seq<FieldMappingView>) -> Seq<Seq<char>> {
    Seq::new(fields.len(), |i: int| quoted(fields[i].column_name))
}

/// One `?` per mapped field.
pub open spec fn placeholders(count: nat) -> Seq<Seq<char>> {
    Seq::new(count, |i: int| "?"@)
}

/// The assignments of an UPDATE: one `column = ?` per mapped field but the
/// primary key, in mapping order.
pub open spec fn set_clauses(fields: Seq<FieldMappingView>, primary_key: Seq<char>) -> Seq<
    Seq<char>,
>
    decreases fields.len(),
{
    if fields.len() == 0 {
        Seq::empty()
    } else {
        let rest = set_clauses(fields.drop_last(), primary_key);
        if fields.last().field_name != primary_key {
            rest.push(quoted(fields.last().column_name) + " = ?"@)
        } else {
            rest
        }
    }
}

/// `SELECT <columns> FROM <table>`.
pub open spec fn select_text(mapping: TableMappingView) -> Seq<char> {
    "SELECT "@ + join_text(quoted_columns(mapping.fields), ", "@) + " FROM "@ + quoted(
        mapping.table_name,
    )
}

/// The column that holds the primary key: the column of the first mapped
/// field that is named like the key; the key's own name where no mapped field
/// is.
pub open spec fn key_column(mapping: TableMappingView) -> Seq<char> {
    match first_index(
        mapping.fields,
        |field: FieldMappingView| field.field_name == mapping.primary_key,
    ) {
        Some(i) => mapping.fields[i].column_name,
        None => mapping.primary_key,
    }
}

/// The key column of an entity with a field named `id` is the column of the
/// first such field, under whatever name that column goes; and an entity of
/// which no field is unique or named `id` has the key column `id`.
pub proof fn lemma_key_column_of_entity(entity: Entity)
    ensures
        first_id_field(entity.fields@) matches Some(i) ==> key_column(table_mapping_of(entity))
            == column_of(entity.fields@[i]),
        first_id_field(entity.fields@) is None && (forall|j: int|
            0 <= j < entity.fields@.len() ==> !(#[trigger] entity.fields@[j]).unique)
            ==> key_column(table_mapping_of(entity)) == "id"@,
{
    let fields = entity.fields@;
    let mapping = table_mapping_of(entity);
    let is_key = |field: FieldMappingView| field.field_name == mapping.primary_key;
    lemma_first_index(fields, |field: Field| field.name@ == "id"@);
    match first_id_field(fields) {
        Some(i) => {
            assert forall|j: int| 0 <= j < i implies !is_key(#[trigger] mapping.fields[j]) by {
                assert(mapping.fields[j].field_name == fields[j].name@);
            }
            lemma_first_index_is(mapping.fields, is_key, i);
        },
        None => {
            if forall|j: int| 0 <= j < fields.len() ==> !(#[trigger] fields[j]).unique {
                lemma_primary_key_without_unique(fields);
                assert forall|j: int| 0 <= j < mapping.fields.len() implies !is_key(
                    #[trigger] mapping.fields[j],
                ) by {
                    assert(mapping.fields[j].field_name == fields[j].name@);
                }
                lemma_first_index_none(mapping.fields, is_key);
            }
        },
    }
}

/// The condition that selects one record: `` WHERE `<key column>` = ?``.
pub open spec fn where_key(mapping: TableMappingView) -> Seq<char> {
    " WHERE "@ + quoted(key_column(mapping)) + " = ?"@
}

/// `SELECT <columns> FROM <table> WHERE <key column> = ?`.
pub open spec fn select_by_id_text(mapping: TableMappingView) -> Seq<char> {
    select_text(mapping) + where_key(mapping)
}

/// `INSERT INTO <table> (<columns>) VALUES (<placeholders>)`.
pub open spec fn insert_text(mapping: TableMappingView) -> Seq<char> {
    "INSERT INTO "@ + quoted(mapping.table_name) + " ("@ + join_text(
        quoted_columns(mapping.fields),
        ", "@,
    ) + ") VALUES ("@ + join_text(placeholders(mapping.fields.len()), ", "@) + ")"@
}

/// `UPDATE <table> SET <assignments> WHERE <key column> = ?`.
pub open spec fn update_text(mapping: TableMappingView) -> Seq<char> {
    "UPDATE "@ + quoted(mapping.table_name) + " SET "@ + join_text(
        set_clauses(mapping.fields, mapping.primary_key),
        ", "@,
    ) + where_key(mapping)
}

/// `DELETE FROM <table> WHERE <key column> = ?`.
pub open spec fn delete_text(mapping: TableMappingView) -> Seq<char> {
    "DELETE FROM "@ + quoted(mapping.table_name) + where_key(mapping)
}

fn quote(name: &str) -> (r: String)
    ensures
        r@ == quoted(name@),
{
    concat3("`", name, "`")
}

fn column_list(mapping: &TableMapping) -> (r: String)
    ensures
        r@ == join_text(quoted_columns(mapping@.fields), ", "@),
{
    let mut columns: Vec<String> = Vec::new();
    let mut i: usize = 0;
    while i < mapping.fields.len()
        invariant
            i <= mapping.fields.len(),
            columns@.len() == i,
            forall|j: int|
                0 <= j < i ==> columns@[j]@ == quoted(mapping.fields@[j].column_name@),
        decreases mapping.fields.len() - i,
    {
        columns.push(quote(mapping.fields[i].column_name.as_str()));
        i = i + 1;
    }
    assert(columns.deep_view() =~= quoted_columns(mapping@.fields));
    join(&columns, ", ")
}

/// Finds the column that holds the primary key of a mapped entity.
pub fn primary_key_column(mapping: &TableMapping) -> (r: &String)
    ensures
        r@ == key_column(mapping@),
{
    let ghost is_key = |field: FieldMappingView| field.field_name == mapping@.primary_key;
    let mut i: usize = 0;
    while i < mapping.fields.len()
        invariant
            i <= mapping.fields.len(),
            is_key == |field: FieldMappingView| field.field_name == mapping@.primary_key,
            forall|j: int| 0 <= j < i ==> !is_key(#[trigger] mapping@.fields[j]),
        decreases mapping.fields.len() - i,
    {
        if same_text(mapping.fields[i].field_name.as_str(), mapping.primary_key.as_str()) {
            proof {
                lemma_first_index_is(mapping@.fields, is_key, i as int);
            }
            return &mapping.fields[i].column_name;
        }
        i = i + 1;
    }
    proof {
        lemma_first_index_none(mapping@.fields, is_key);
    }
    &mapping.primary_key
}

fn where_clause(mapping: &TableMapping) -> (r: String)
    ensures
        r@ == where_key(mapping@),
{
    let key = quote(primary_key_column(mapping).as_str());
    concat3(" WHERE ", key.as_str(), " = ?")
}

/// The text of the statement that reads every record of a mapped entity.
pub fn select_query(mapping: &TableMapping) -> (r: String)
    ensures
        r@ == select_text(mapping@),
{
    let columns = column_list(mapping);
    let table = quote(mapping.table_name.as_str());
    let mut out = concat3("SELECT ", columns.as_str(), " FROM ");
    out.append(table.as_str());
    out
}

/// The text of the statement that reads one record of a mapped entity.
pub fn select_by_id_query(mapping: &TableMapping) -> (r: String)
    ensures
        r@ == select_by_id_text(mapping@),
{
    let mut out = select_query(mapping);
    let condition = where_clause(mapping);
    out.append(condition.as_str());
    out
}

/// The text of the statement that stores a record of a mapped entity.
pub fn insert_query(mapping: &TableMapping) -> (r: String)
    ensures
        r@ == insert_text(mapping@),
{
    let columns = column_list(mapping);
    let mut marks: Vec<String> = Vec::new();
    let mut i: usize = 0;
    while i < mapping.fields.len()
        invariant
            i <= mapping.fields.len(),
            marks@.len() == i,
            forall|j: int| 0 <= j < i ==> marks@[j]@ == "?"@,
        decreases mapping.fields.len() - i,
    {
        marks.push(String::from_str("?"));
        i = i + 1;
    }
    assert(marks.deep_view() =~= placeholders(mapping@.fields.len()));
    let marks_text = join(&marks, ", ");
    let table = quote(mapping.table_name.as_str());
    let mut out = concat3("INSERT INTO ", table.as_str(), " (");
    out.append(columns.as_str());
    out.append(") VALUES (");
    out.append(marks_text.as_str());
    out.append(")");
    out
}

/// The text of the statement that replaces a record of a mapped entity.
pub fn update_query(mapping: &TableMapping) -> (r: String)
    ensures
        r@ == update_text(mapping@),
{
    let mut clauses: Vec<String> = Vec::new();
    let mut i: usize = 0;
    while i < mapping.fields.len()
        invariant
            i <= mapping.fields.len(),
            clauses.deep_view() == set_clauses(
                mapping@.fields.take(i as int),
                mapping.primary_key@,
            ),
        decreases mapping.fields.len() - i,
    {
        let field = &mapping.fields[i];
        proof {
            let next = mapping@.fields.take(i + 1);
            assert(next.drop_last() =~= mapping@.fields.take(i as int));
        }
        if !same_text(field.field_name.as_str(), mapping.primary_key.as_str()) {
            let column = quote(field.column_name.as_str());
            let clause = concat2(column.as_str(), " = ?");
            clauses.push(clause);
        }
        i = i + 1;
    }
    assert(mapping@.fields.take(mapping.fields.len() as int) =~= mapping@.fields);
    let assignments = join(&clauses, ", ");
    let table = quote(mapping.table_name.as_str());
    let condition = where_clause(mapping);
    let mut out = concat3("UPDATE ", table.as_str(), " SET ");
    out.append(assignments.as_str());
    out.append(condition.as_str());
    out
}

/// The text of the statement that removes one record of a mapped entity.
pub fn delete_query(mapping: &TableMapping) -> (r: String)
    ensures
        r@ == delete_text(mapping@),
{
    let table = quote(mapping.table_name.as_str());
    let condition = where_clause(mapping);
    concat3("DELETE FROM ", table.as_str(), condition.as_str())
}

/// The text of a statement for an entity name, or the error for an entity
/// without a mapping.
pub open spec fn query_for(
    table: Seq<(Seq<char>, TableMappingView)>,
    name: Seq<char>,
    text: spec_fn(TableMappingView) -> Seq<char>,
) -> Result<Seq<char>, Failure> {
    match found_mapping(table, name) {
        Some(mapping) => Ok(text(mapping)),
        None => Err(no_mapping(name, keys_of(table))),
    }
}

/// A text result with its error as kind and message.
pub open spec fn text_result(result: Result<String, DataSourceError>) -> Result<
    Seq<char>,
    Failure,
> {
    match result {
        Ok(text) => Ok(text@),
        Err(error) => Err(error@),
    }
}

impl MariaDbDatasource {
    /// Generates a SQL SELECT query to retrieve all entities of a given type.
    pub fn generate_select_query(&self, entity_name: &str) -> (r: Result<String, DataSourceError>)
        ensures
            text_result(r) == query_for(
                self.table(),
                entity_name@,
                |m: TableMappingView| select_text(m),
            ),
    {
        match self.require_mapping(entity_name) {
            Ok(mapping) => Ok(select_query(mapping)),
            Err(error) => Err(error),
        }
    }

    /// Generates a SQL SELECT query to retrieve a single entity by its ID.
    pub fn generate_select_by_id_query(&self, entity_name: &str) -> (r: Result<
        String,
        DataSourceError,
    >)
        ensures
            text_result(r) == query_for(
                self.table(),
                entity_name@,
                |m: TableMappingView| select_by_id_text(m),
            ),
    {
        match self.require_mapping(entity_name) {
            Ok(mapping) => Ok(select_by_id_query(mapping)),
            Err(error) => Err(error),
        }
    }

    /// Generates a SQL INSERT query to create a new entity.
    pub fn generate_insert_query(&self, entity_name: &str) -> (r: Result<String, DataSourceError>)
        ensures
            text_result(r) == query_for(
                self.table(),
                entity_name@,
                |m: TableMappingView| insert_text(m),
            ),
    {
        match self.require_mapping(entity_name) {
            Ok(mapping) => Ok(insert_query(mapping)),
            Err(error) => Err(error),
        }
    }

    /// Generates a SQL UPDATE query to modify an existing entity.
    pub fn generate_update_query(&self, entity_name: &str) -> (r: Result<String, DataSourceError>)
        ensures
            text_result(r) == query_for(
                self.table(),
                entity_name@,
                |m: TableMappingView| update_text(m),
            ),
    {
        match self.require_mapping(entity_name) {
            Ok(mapping) => Ok(update_query(mapping)),
            Err(error) => Err(error),
        }
    }

    /// Generates a SQL DELETE query to remove an entity by its ID.
    pub fn generate_delete_query(&self, entity_name: &str) -> (r: Result<String, DataSourceError>)
        ensures
            text_result(r) == query_for(
                self.table(),
                entity_name@,
                |m: TableMappingView| delete_text(m),
            ),
    {
        match self.require_mapping(entity_name) {
            Ok(mapping) => Ok(delete_query(mapping)),
            Err(error) => Err(error),
        }
    }
}

} // verus!
