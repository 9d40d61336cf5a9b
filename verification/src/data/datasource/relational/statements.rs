//! Prepared statements, and what the server made of them.

use crate::api::common::api_entity::ApiEntity;
use crate::data::datasource::base::{
    stored_view, DataSourceError, DataSourceErrorKind, Failure,
};
use crate::data::datasource::relational::base::TableMappingView;
use crate::data::datasource::relational::mariadb::{
    connection_failed, found_mapping, no_mapping, MariaDbDatasource,
};
use crate::data::datasource::relational::queries::{
    delete_query, delete_text, insert_query, insert_text, select_by_id_query, select_by_id_text,
    select_query, select_text, update_query, update_text,
};
use crate::data::datasource::relational::rows::{SqlValue, SqlValueView};
use crate::data::datasource::relational::values::{
    bind_values, bound_values, document_to_update_values, document_to_values, document_values,
    parameters_view, update_values, validate_document, validation_of,
};
use crate::json::{JsonModel, JsonValue};
use crate::string_map::keys_of;
use crate::text::{concat2, concat3, decimal, decimal_text};
use vstd::prelude::*;

verus! {

/// The number of seconds after which a statement that has not come back counts
/// as failed.
pub const DEFAULT_QUERY_TIMEOUT_SECONDS: u64 = 10;

/// A statement with the values of its positional parameters, in order.
#[derive(Debug, PartialEq, Eq)]
pub struct PreparedStatement {
    pub sql: String,
    pub parameters: Vec<SqlValue>,
}

/// The mathematical content of a [`PreparedStatement`].
pub ghost struct StatementView {
    pub sql: Seq<char>,
    pub parameters: Seq<SqlValueView>,
}

impl View for PreparedStatement {
    type V = StatementView;

    open spec fn view(&self) -> StatementView {
        StatementView { sql: self.sql@, parameters: parameters_view(self.parameters@) }
    }
}

/// A statement, or an error, with their mathematical content.
pub open spec fn statement_result(result: Result<PreparedStatement, DataSourceError>) -> Result<
    StatementView,
    Failure,
> {
    match result {
        Ok(statement) => Ok(statement@),
        Err(error) => Err(error@),
    }
}

/// The statement that reads every record of the named entity.
pub open spec fn get_all_statement(
    table: Seq<(Seq<char>, TableMappingView)>,
    name: Seq<char>,
) -> Result<StatementView, Failure> {
    match found_mapping(table, name) {
        None => Err(no_mapping(name, keys_of(table))),
        Some(mapping) => Ok(
            StatementView { sql: select_text(mapping), parameters: Seq::empty() },
        ),
    }
}

/// The statement that reads the record with the given id.
pub open spec fn get_by_id_statement(
    table: Seq<(Seq<char>, TableMappingView)>,
    name: Seq<char>,
    id: Seq<char>,
) -> Result<StatementView, Failure> {
    match found_mapping(table, name) {
        None => Err(no_mapping(name, keys_of(table))),
        Some(mapping) => Ok(
            StatementView {
                sql: select_by_id_text(mapping),
                parameters: seq![SqlValueView::Text(id)],
            },
        ),
    }
}

/// The statement that removes the record with the given id.
pub open spec fn delete_statement(
    table: Seq<(Seq<char>, TableMappingView)>,
    name: Seq<char>,
    id: Seq<char>,
) -> Result<StatementView, Failure> {
    match found_mapping(table, name) {
        None => Err(no_mapping(name, keys_of(table))),
        Some(mapping) => Ok(
            StatementView { sql: delete_text(mapping), parameters: seq![SqlValueView::Text(id)] },
        ),
    }
}

/// The statement that stores a record: the record is validated, then its
/// values are bound in mapping order.
pub open spec fn create_statement(
    table: Seq<(Seq<char>, TableMappingView)>,
    name: Seq<char>,
    document: JsonModel,
) -> Result<StatementView, Failure> {
    match found_mapping(table, name) {
        None => Err(no_mapping(name, keys_of(table))),
        Some(mapping) => match validation_of(mapping.fields, document) {
            Err(error) => Err(error),
            Ok(_) => match bound_values(document_values(mapping.fields, document)) {
                Err(error) => Err(error),
                Ok(parameters) => Ok(StatementView { sql: insert_text(mapping), parameters }),
            },
        },
    }
}

/// The statement that replaces the record with the given id: the record is
/// validated, then the assigned values and the id are bound.
pub open spec fn update_statement(
    table: Seq<(Seq<char>, TableMappingView)>,
    name: Seq<char>,
    document: JsonModel,
    id: Seq<char>,
) -> Result<StatementView, Failure> {
    match found_mapping(table, name) {
        None => Err(no_mapping(name, keys_of(table))),
        Some(mapping) => match validation_of(mapping.fields, document) {
            Err(error) => Err(error),
            Ok(_) => match bound_values(
                update_values(mapping.fields, mapping.primary_key, document, id),
            ) {
                Err(error) => Err(error),
                Ok(parameters) => Ok(StatementView { sql: update_text(mapping), parameters }),
            },
        },
    }
}

/// The name of the entity that an operation is about: the name that was
/// handed over, or the name that the payload type reports for itself.
pub fn resolve_entity_name<T: ApiEntity>(entity_name_override: Option<&str>) -> (r: String)
    ensures
        match entity_name_override {
            Some(name) => r@ == name@,
            None => T::may_be_named(r@),
        },
{
    match entity_name_override {
        Some(name) => String::from_str(name),
        None => T::entity_name(),
    }
}

impl MariaDbDatasource {
    /// Prepares the statement that retrieves all records of an entity.
    pub fn prepare_get_all(&self, entity_name: &str) -> (r: Result<
        PreparedStatement,
        DataSourceError,
    >)
        ensures
            statement_result(r) == get_all_statement(self.table(), entity_name@),
    {
        let mapping = match self.require_mapping(entity_name) {
            Ok(mapping) => mapping,
            Err(error) => {
                return Err(error);
            },
        };
        let statement = PreparedStatement { sql: select_query(mapping), parameters: Vec::new() };
        assert(statement@.parameters =~= Seq::<SqlValueView>::empty());
        Ok(statement)
    }

    /// Prepares the statement that retrieves the record with the given id.
    pub fn prepare_get_by_id(&self, id: &str, entity_name: &str) -> (r: Result<
        PreparedStatement,
        DataSourceError,
    >)
        ensures
            statement_result(r) == get_by_id_statement(self.table(), entity_name@, id@),
    {
        let mapping = match self.require_mapping(entity_name) {
            Ok(mapping) => mapping,
            Err(error) => {
                return Err(error);
            },
        };
        let mut parameters: Vec<SqlValue> = Vec::new();
        parameters.push(SqlValue::Text(String::from_str(id)));
        let statement = PreparedStatement { sql: select_by_id_query(mapping), parameters };
        assert(statement@.parameters =~= seq![SqlValueView::Text(id@)]);
        Ok(statement)
    }

    /// Prepares the statement that removes the record with the given id.
    pub fn prepare_delete(&self, id: &str, entity_name: &str) -> (r: Result<
        PreparedStatement,
        DataSourceError,
    >)
        ensures
            statement_result(r) == delete_statement(self.table(), entity_name@, id@),
    {
        let mapping = match self.require_mapping(entity_name) {
            Ok(mapping) => mapping,
            Err(error) => {
                return Err(error);
            },
        };
        let mut parameters: Vec<SqlValue> = Vec::new();
        parameters.push(SqlValue::Text(String::from_str(id)));
        let statement = PreparedStatement { sql: delete_query(mapping), parameters };
        assert(statement@.parameters =~= seq![SqlValueView::Text(id@)]);
        Ok(statement)
    }

    /// Prepares the statement that stores a record.
    pub fn prepare_create(&self, item: &JsonValue, entity_name: &str) -> (r: Result<
        PreparedStatement,
        DataSourceError,
    >)
        ensures
            statement_result(r) == create_statement(self.table(), entity_name@, item@),
    {
        let mapping = match self.require_mapping(entity_name) {
            Ok(mapping) => mapping,
            Err(error) => {
                return Err(error);
            },
        };
        match validate_document(mapping, item) {
            Ok(_) => {},
            Err(error) => {
                return Err(error);
            },
        }
        let values = document_to_values(mapping, item);
        match bind_values(&values) {
            Ok(parameters) => Ok(PreparedStatement { sql: insert_query(mapping), parameters }),
            Err(error) => Err(error),
        }
    }

    /// Prepares the statement that replaces the record with the given id.
    pub fn prepare_update(&self, id: &str, item: &JsonValue, entity_name: &str) -> (r: Result<
        PreparedStatement,
        DataSourceError,
    >)
        ensures
            statement_result(r) == update_statement(self.table(), entity_name@, item@, id@),
    {
        let mapping = match self.require_mapping(entity_name) {
            Ok(mapping) => mapping,
            Err(error) => {
                return Err(error);
            },
        };
        match validate_document(mapping, item) {
            Ok(_) => {},
            Err(error) => {
                return Err(error);
            },
        }
        let values = document_to_update_values(mapping, item, id);
        match bind_values(&values) {
            Ok(parameters) => Ok(PreparedStatement { sql: update_query(mapping), parameters }),
            Err(error) => Err(error),
        }
    }
}

/// What the server made of a statement, as far as the engine is concerned.
#[derive(Debug)]
pub enum Execution {
    /// The statement ran; so many rows were affected.
    Done(u64),
    /// The server reported a failure.
    Failed(String),
    /// The statement did not come back in time.
    TimedOut,
}

/// The error for a statement of which the server reported a failure.
pub open spec fn query_failed(reason: Seq<char>) -> Failure {
    (DataSourceErrorKind::QueryError, "Error executing query: "@ + reason)
}

/// The error for a statement that did not come back in time.
pub open spec fn query_timed_out() -> Failure {
    (
        DataSourceErrorKind::QueryError,
        "Query timed out after "@ + decimal_text(DEFAULT_QUERY_TIMEOUT_SECONDS as nat)
            + " seconds"@,
    )
}

/// The error for a statement of which the server reported a failure.
pub fn query_failure(reason: &str) -> (r: DataSourceError)
    ensures
        r@ == query_failed(reason@),
{
    DataSourceError::QueryError(concat2("Error executing query: ", reason))
}

/// The error for a statement that did not come back in time.
pub fn query_timeout() -> (r: DataSourceError)
    ensures
        r@ == query_timed_out(),
{
    let seconds = decimal(DEFAULT_QUERY_TIMEOUT_SECONDS);
    DataSourceError::QueryError(concat3("Query timed out after ", seconds.as_str(), " seconds"))
}

/// The outcome of a statement that changes data: the number of affected rows,
/// or a query error. A timeout is told apart from a failure that the server
/// reported.
pub open spec fn execution_outcome(execution: Execution) -> Result<u64, Failure> {
    match execution {
        Execution::Done(rows) => Ok(rows),
        Execution::Failed(reason) => Err(query_failed(reason@)),
        Execution::TimedOut => Err(query_timed_out()),
    }
}

/// Reads what the server made of a statement.
pub fn check_execution(execution: Execution) -> (r: Result<u64, DataSourceError>)
    ensures
        stored_view(r) == execution_outcome(execution),
{
    match execution {
        Execution::Done(rows) => Ok(rows),
        Execution::Failed(reason) => Err(query_failure(reason.as_str())),
        Execution::TimedOut => Err(query_timeout()),
    }
}

/// The answer to a write, from what the server made of its statement: the
/// record as it was handed in, since the server echoes nothing; or the query
/// error.
pub open spec fn write_outcome<T>(item: T, execution: Execution) -> Result<T, Failure> {
    match execution_outcome(execution) {
        Ok(_) => Ok(item),
        Err(error) => Err(error),
    }
}

/// Answers a create or an update from what the server made of its statement.
pub fn written<T>(item: T, execution: Execution) -> (r: Result<T, DataSourceError>)
    ensures
        stored_view(r) == write_outcome(item, execution),
{
    match check_execution(execution) {
        Ok(_) => Ok(item),
        Err(error) => Err(error),
    }
}

/// Whether a DELETE removed a record: it did if and only if a row was
/// affected.
pub fn rows_removed(rows_affected: u64) -> (r: bool)
    ensures
        r == (rows_affected > 0),
{
    rows_affected > 0
}

/// The answer to a delete, from what the server made of its statement: a
/// record was removed if and only if a row was affected.
pub open spec fn delete_outcome(execution: Execution) -> Result<bool, Failure> {
    match execution_outcome(execution) {
        Ok(rows) => Ok(rows > 0),
        Err(error) => Err(error),
    }
}

/// Answers a delete from what the server made of its statement.
pub fn removed(execution: Execution) -> (r: Result<bool, DataSourceError>)
    ensures
        stored_view(r) == delete_outcome(execution),
{
    match check_execution(execution) {
        Ok(rows) => Ok(rows_removed(rows)),
        Err(error) => Err(error),
    }
}

/// The error for a connection that could not be made.
pub fn connection_failure(reason: &str) -> (r: DataSourceError)
    ensures
        r@ == connection_failed(reason@),
{
    DataSourceError::ConnectionError(concat2("Error connecting to MariaDB: ", reason))
}

/// The error for an operation on a datasource that is not connected.
pub fn no_connection() -> (r: DataSourceError)
    ensures
        r@ == (DataSourceErrorKind::ConnectionError, "No database connection"@),
{
    DataSourceError::ConnectionError(String::from_str("No database connection"))
}

} // verus!
