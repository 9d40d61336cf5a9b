//! A relational database described by its configuration alone. It holds no
//! records: it answers as an empty store that accepts every write.

use crate::config::specific::database_config::DatabaseConfig;
use crate::data::datasource::base::{DataSource, DataSourceError, DatabaseCommon, Failure};
use vstd::prelude::*;

verus! {

/// A relational database that has to be reached through a connection.
///
/// Which description a source gives of its database is the source's own
/// business. A source that knows says so in `describes`: `get_db_structure`
/// returns only what `describes` admits. A source that says nothing admits
/// every description.
pub trait DatabaseSource<T>: DataSource<T> + DatabaseCommon {
    /// Whether `get_db_structure` may return `structure`.
    open spec fn describes(&self, structure: RelationalDatabase) -> bool {
        true
    }

    /// The description of the database.
    fn get_db_structure(&self) -> (r: &RelationalDatabase)
        ensures
            self.describes(*r),
    ;
}

/// The description of a relational database.
#[derive(Debug)]
pub struct RelationalDatabase {
    /// The configuration that points to the database.
    pub config: DatabaseConfig,
}

impl RelationalDatabase {
    /// The description of the database that `config` points to.
    pub fn new(config: DatabaseConfig) -> (r: Self)
        ensures
            r.config == config,
    {
        RelationalDatabase { config }
    }
}

/// As a datasource the description is an empty store: it lists nothing, finds
/// nothing, and hands every record that is written back as it came.
impl<T> DataSource<T> for RelationalDatabase {
    open spec fn may_list(
        &self,
        entity_name: Option<Seq<char>>,
        listed: Result<Vec<T>, Failure>,
    ) -> bool {
        listed matches Ok(items) && items@.len() == 0
    }

    open spec fn may_find(
        &self,
        id: Seq<char>,
        entity_name: Option<Seq<char>>,
        found: Result<Option<T>, Failure>,
    ) -> bool {
        found == Ok::<Option<T>, Failure>(None)
    }

    open spec fn may_create(
        &self,
        item: T,
        entity_name: Option<Seq<char>>,
        stored: Result<T, Failure>,
    ) -> bool {
        stored == Ok::<T, Failure>(item)
    }

    open spec fn may_update(
        &self,
        id: Seq<char>,
        item: T,
        entity_name: Option<Seq<char>>,
        written: Result<T, Failure>,
    ) -> bool {
        written == Ok::<T, Failure>(item)
    }

    open spec fn may_delete(
        &self,
        id: Seq<char>,
        entity_name: Option<Seq<char>>,
        removed: Result<bool, Failure>,
    ) -> bool {
        removed == Ok::<bool, Failure>(true)
    }

    open spec fn may_copy(&self, copy: Self) -> bool {
        copy.config == self.config
    }

    fn get_all(&self, entity_name: Option<&str>) -> (r: Result<Vec<T>, DataSourceError>) {
        Ok(Vec::new())
    }

    fn get_by_id(&self, id: &str, entity_name: Option<&str>) -> (r: Result<
        Option<T>,
        DataSourceError,
    >) {
        Ok(None)
    }

    fn create(&self, item: T, entity_name: Option<&str>) -> (r: Result<T, DataSourceError>) {
        Ok(item)
    }

    fn update(&self, id: &str, item: T, entity_name: Option<&str>) -> (r: Result<
        T,
        DataSourceError,
    >) {
        Ok(item)
    }

    fn delete(&self, id: &str, entity_name: Option<&str>) -> (r: Result<bool, DataSourceError>) {
        Ok(true)
    }

    fn box_clone(&self) -> (r: Self) {
        RelationalDatabase { config: self.config.clone() }
    }
}

impl<T> DatabaseSource<T> for RelationalDatabase {
    fn get_db_structure(&self) -> &RelationalDatabase {
        self
    }

    /// The description of a database describes itself, and nothing else.
    open spec fn describes(&self, structure: RelationalDatabase) -> bool {
        structure == *self
    }
}

impl DatabaseCommon for RelationalDatabase {
    fn connect(&self) -> (r: Result<(), DataSourceError>)
        ensures
            r is Ok,
    {
        Ok(())
    }

    fn disconnect(&self) -> (r: Result<(), DataSourceError>)
        ensures
            r is Ok,
    {
        Ok(())
    }
}

} // verus!
