//! The capability that every storage backend offers to the handlers, and the
//! errors it reports.

use crate::text::concat2;
use vstd::prelude::*;

verus! {

/// Why a datasource operation failed.
#[derive(Clone, Debug, PartialEq, Eq)]
pub enum DataSourceError {
    ConnectionError(String),
    QueryError(String),
    NotFound(String),
    ValidationError(String),
    MappingError(String),
    SerializationError(String),
}

/// The kind of a datasource error, without its message.
#[derive(Clone, Copy, Debug, PartialEq, Eq, Structural)]
pub enum DataSourceErrorKind {
    ConnectionError,
    QueryError,
    NotFound,
    ValidationError,
    MappingError,
    SerializationError,
}

/// The mathematical content of a datasource error: its kind and its message.
pub type Failure = (DataSourceErrorKind, Seq<char>);

impl View for DataSourceError {
    type V = Failure;

    open spec fn view(&self) -> Failure {
        match self {
            DataSourceError::ConnectionError(m) => (DataSourceErrorKind::ConnectionError, m@),
            DataSourceError::QueryError(m) => (DataSourceErrorKind::QueryError, m@),
            DataSourceError::NotFound(m) => (DataSourceErrorKind::NotFound, m@),
            DataSourceError::ValidationError(m) => (DataSourceErrorKind::ValidationError, m@),
            DataSourceError::MappingError(m) => (DataSourceErrorKind::MappingError, m@),
            DataSourceError::SerializationError(m) => (
                DataSourceErrorKind::SerializationError,
                m@,
            ),
        }
    }
}

/// The words that introduce the message of a datasource error.
pub open spec fn datasource_error_label(kind: DataSourceErrorKind) -> Seq<char> {
    match kind {
        DataSourceErrorKind::ConnectionError => "Connection error: "@,
        DataSourceErrorKind::QueryError => "Query error: "@,
        DataSourceErrorKind::NotFound => "Not found: "@,
        DataSourceErrorKind::ValidationError => "Validation error: "@,
        DataSourceErrorKind::MappingError => "Mapping error: "@,
        DataSourceErrorKind::SerializationError => "Serialization error: "@,
    }
}

/// The text of a datasource error: the label of its kind, then its message.
pub open spec fn datasource_error_text(error: Failure) -> Seq<char> {
    datasource_error_label(error.0) + error.1
}

impl DataSourceError {
    /// The text of the error.
    pub fn to_text(&self) -> (r: String)
        ensures
            r@ == datasource_error_text(self@),
    {
        match self {
            DataSourceError::ConnectionError(m) => concat2("Connection error: ", m.as_str()),
            DataSourceError::QueryError(m) => concat2("Query error: ", m.as_str()),
            DataSourceError::NotFound(m) => concat2("Not found: ", m.as_str()),
            DataSourceError::ValidationError(m) => concat2("Validation error: ", m.as_str()),
            DataSourceError::MappingError(m) => concat2("Mapping error: ", m.as_str()),
            DataSourceError::SerializationError(m) => concat2(
                "Serialization error: ",
                m.as_str(),
            ),
        }
    }
}

/// The result of a datasource call, with its error as kind and message.
pub open spec fn stored_view<A>(stored: Result<A, DataSourceError>) -> Result<A, Failure> {
    match stored {
        Ok(value) => Ok(value),
        Err(error) => Err(error@),
    }
}

/// The entity name that is handed to a datasource, as characters.
pub open spec fn hint_view(entity_name: Option<&str>) -> Option<Seq<char>> {
    match entity_name {
        Some(name) => Some(name@),
        None => None,
    }
}

/// The CRUD capability of a storage backend for records of type `T`.
///
/// `entity_name` tells the backend which configured entity is meant; where it
/// is absent the backend falls back to the name that `T` reports for itself.
///
/// What an operation returns depends on the state of the backend, so nothing
/// is promised of it here. A backend that knows more about its answers says
/// so in the `may_` predicates: each operation returns only what the
/// predicate of that operation admits for the arguments it was called with.
/// A backend that says nothing admits every answer.
pub trait DataSource<T>: Sized {
    /// Whether `get_all` may return `listed`.
    open spec fn may_list(
        &self,
        entity_name: Option<Seq<char>>,
        listed: Result<Vec<T>, Failure>,
    ) -> bool {
        true
    }

    /// Whether `get_by_id` may return `found`.
    open spec fn may_find(
        &self,
        id: Seq<char>,
        entity_name: Option<Seq<char>>,
        found: Result<Option<T>, Failure>,
    ) -> bool {
        true
    }

    /// Whether `create` may return `stored`.
    open spec fn may_create(
        &self,
        item: T,
        entity_name: Option<Seq<char>>,
        stored: Result<T, Failure>,
    ) -> bool {
        true
    }

    /// Whether `update` may return `written`.
    open spec fn may_update(
        &self,
        id: Seq<char>,
        item: T,
        entity_name: Option<Seq<char>>,
        written: Result<T, Failure>,
    ) -> bool {
        true
    }

    /// Whether `delete` may return `removed`.
    open spec fn may_delete(
        &self,
        id: Seq<char>,
        entity_name: Option<Seq<char>>,
        removed: Result<bool, Failure>,
    ) -> bool {
        true
    }

    /// Whether `box_clone` may return `copy`.
    open spec fn may_copy(&self, copy: Self) -> bool {
        true
    }

    /// All records.
    fn get_all(&self, entity_name: Option<&str>) -> (r: Result<Vec<T>, DataSourceError>)
        ensures
            self.may_list(hint_view(entity_name), stored_view(r)),
    ;

    /// The record with the given id, if there is one.
    fn get_by_id(&self, id: &str, entity_name: Option<&str>) -> (r: Result<
        Option<T>,
        DataSourceError,
    >)
        ensures
            self.may_find(id@, hint_view(entity_name), stored_view(r)),
    ;

    /// Stores a new record and returns it as stored.
    fn create(&self, item: T, entity_name: Option<&str>) -> (r: Result<T, DataSourceError>)
        ensures
            self.may_create(item, hint_view(entity_name), stored_view(r)),
    ;

    /// Replaces the record with the given id. The caller has checked that it
    /// exists.
    fn update(&self, id: &str, item: T, entity_name: Option<&str>) -> (r: Result<
        T,
        DataSourceError,
    >)
        ensures
            self.may_update(id@, item, hint_view(entity_name), stored_view(r)),
    ;

    /// Removes the record with the given id; `true` if and only if one was
    /// removed.
    fn delete(&self, id: &str, entity_name: Option<&str>) -> (r: Result<bool, DataSourceError>)
        ensures
            self.may_delete(id@, hint_view(entity_name), stored_view(r)),
    ;

    /// An independent handle on the same backend.
    fn box_clone(&self) -> (r: Self)
        ensures
            self.may_copy(r),
    ;
}

/// What database backends have in common.
pub trait DatabaseCommon {
    /// Checks that the connection to the database stands.
    fn connect(&self) -> Result<(), DataSourceError>;

    /// Releases the connection.
    fn disconnect(&self) -> Result<(), DataSourceError>;
}

/// Backends that map entities to tables or collections.
pub trait EntityMapper {
    /// Sets up the mappings between entities and their stored form.
    fn configure_entity_mappings(&mut self) -> Result<(), DataSourceError>;
}

} // verus!
