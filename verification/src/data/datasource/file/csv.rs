//! A datasource over a CSV file. It knows its file and format; the CRUD
//! operations are not provided yet and say so.

use crate::data::datasource::base::{DataSource, DataSourceError, DataSourceErrorKind, Failure};
use crate::data::datasource::file::base::{FileFormat, FileMapping};
use crate::text::concat3;
use std::marker::PhantomData;
use vstd::prelude::*;

verus! {

/// Datasource implementation for CSV files.
pub struct CsvDatasource<T> {
    file_mapping: FileMapping,
    _phantom: PhantomData<T>,
}

impl<T> CsvDatasource<T> {
    /// A datasource over the file at `file_path`; records are identified by
    /// their `id` field.
    pub fn new(file_path: String, delimiter: char, has_header: bool) -> (r: Self)
        ensures
            r.file_path() == file_path@,
            r.id_field() == "id"@,
            r.format() == (FileFormat::CSV { delimiter, has_header }),
    {
        CsvDatasource {
            file_mapping: FileMapping {
                file_path,
                id_field: String::from_str("id"),
                format: FileFormat::CSV { delimiter, has_header },
            },
            _phantom: PhantomData,
        }
    }

    /// The path of the file.
    pub closed spec fn file_path(&self) -> Seq<char> {
        self.file_mapping.file_path@
    }

    /// The field by which records are identified.
    pub closed spec fn id_field(&self) -> Seq<char> {
        self.file_mapping.id_field@
    }

    /// The format of the file.
    pub closed spec fn format(&self) -> FileFormat {
        self.file_mapping.format
    }

    /// The path of the file.
    pub fn get_file_path(&self) -> (r: &str)
        ensures
            r@ == self.file_path(),
    {
        self.file_mapping.file_path.as_str()
    }

    /// Points the datasource at another file.
    pub fn set_file_path(&mut self, path: String)
        ensures
            final(self).file_path() == path@,
            final(self).id_field() == old(self).id_field(),
            final(self).format() == old(self).format(),
    {
        self.file_mapping.file_path = path;
    }
}

/// The error with which an operation that is not provided answers.
pub open spec fn not_complete(operation: Seq<char>) -> Failure {
    (
        DataSourceErrorKind::QueryError,
        "The "@ + operation + "() implementation for CSV is not complete"@,
    )
}

fn not_complete_error(operation: &str) -> (r: DataSourceError)
    ensures
        r@ == not_complete(operation@),
{
    DataSourceError::QueryError(
        concat3("The ", operation, "() implementation for CSV is not complete"),
    )
}

impl<T> DataSource<T> for CsvDatasource<T> {
    open spec fn may_list(
        &self,
        entity_name: Option<Seq<char>>,
        listed: Result<Vec<T>, Failure>,
    ) -> bool {
        listed == Err::<Vec<T>, Failure>(not_complete("get_all"@))
    }

    open spec fn may_find(
        &self,
        id: Seq<char>,
        entity_name: Option<Seq<char>>,
        found: Result<Option<T>, Failure>,
    ) -> bool {
        found == Err::<Option<T>, Failure>(not_complete("get_by_id"@))
    }

    open spec fn may_create(
        &self,
        item: T,
        entity_name: Option<Seq<char>>,
        stored: Result<T, Failure>,
    ) -> bool {
        stored == Err::<T, Failure>(not_complete("create"@))
    }

    open spec fn may_update(
        &self,
        id: Seq<char>,
        item: T,
        entity_name: Option<Seq<char>>,
        written: Result<T, Failure>,
    ) -> bool {
        written == Err::<T, Failure>(not_complete("update"@))
    }

    open spec fn may_delete(
        &self,
        id: Seq<char>,
        entity_name: Option<Seq<char>>,
        removed: Result<bool, Failure>,
    ) -> bool {
        removed == Err::<bool, Failure>(not_complete("delete"@))
    }

    open spec fn may_copy(&self, copy: Self) -> bool {
        &&& copy.file_path() == self.file_path()
        &&& copy.id_field() == self.id_field()
        &&& copy.format() == self.format()
    }

    fn get_all(&self, entity_name: Option<&str>) -> (r: Result<Vec<T>, DataSourceError>) {
        Err(not_complete_error("get_all"))
    }

    fn get_by_id(&self, id: &str, entity_name: Option<&str>) -> (r: Result<
        Option<T>,
        DataSourceError,
    >) {
        Err(not_complete_error("get_by_id"))
    }

    fn create(&self, item: T, entity_name: Option<&str>) -> (r: Result<T, DataSourceError>) {
        Err(not_complete_error("create"))
    }

    fn update(&self, id: &str, item: T, entity_name: Option<&str>) -> (r: Result<
        T,
        DataSourceError,
    >) {
        Err(not_complete_error("update"))
    }

    fn delete(&self, id: &str, entity_name: Option<&str>) -> (r: Result<bool, DataSourceError>) {
        Err(not_complete_error("delete"))
    }

    fn box_clone(&self) -> (r: Self) {
        CsvDatasource { file_mapping: self.file_mapping.clone(), _phantom: PhantomData }
    }
}

} // verus!
