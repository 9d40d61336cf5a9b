//! Document stores and how entities map to their collections.

use crate::data::datasource::base::{DataSource, DataSourceError, DatabaseCommon};
use vstd::prelude::*;

verus! {

/// A document store such as MongoDB or CouchDB.
pub trait DocumentSource<T>: DataSource<T> + DatabaseCommon {
    /// Runs a query with its parameters.
    fn execute_query(&self, query: &str, params: &Vec<String>) -> Result<Vec<T>, DataSourceError>;
}

/// How an entity maps to a collection.
#[derive(Clone, Debug)]
pub struct CollectionMapping {
    /// Name of the collection.
    pub collection_name: String,
    /// Field used as the id.
    pub id_field: String,
    /// Indexes of the collection.
    pub indexes: Vec<IndexDefinition>,
}

/// An index of a collection.
#[derive(Clone, Debug)]
pub struct IndexDefinition {
    /// Name of the index.
    pub name: String,
    /// Fields in the index.
    pub fields: Vec<String>,
    /// Whether the index is unique.
    pub unique: bool,
}

} // verus!
