//! File-backed datasources and how entities map to their files.

use crate::data::datasource::base::{DataSource, DataSourceError};
use vstd::prelude::*;

verus! {

/// A datasource that keeps its records in one file.
pub trait FileSource<T>: DataSource<T> {
    /// The path of the file.
    fn get_file_path(&self) -> &str;

    /// Points the datasource at another file.
    fn set_file_path(&mut self, path: String);

    /// The whole content of the file.
    fn read_file_contents(&self) -> Result<String, DataSourceError>;

    /// Replaces the content of the file.
    fn write_file_contents(&self, contents: &str) -> Result<(), DataSourceError>;
}

/// How an entity maps to a file.
#[derive(Debug)]
pub struct FileMapping {
    /// Path of the file.
    pub file_path: String,
    /// Field used as the id.
    pub id_field: String,
    /// Format of the file.
    pub format: FileFormat,
}

/// Supported file formats.
#[derive(Debug)]
pub enum FileFormat {
    /// Comma-separated values.
    CSV { delimiter: char, has_header: bool },
    /// A JSON file.
    JSON { is_array: bool },
    /// An XML file.
    XML { root_element: String, item_element: String },
    /// Another format, by name.
    Custom(String),
}

impl Clone for FileFormat {
    fn clone(&self) -> (r: Self)
        ensures
            r == *self,
    {
        match self {
            FileFormat::CSV { delimiter, has_header } => FileFormat::CSV {
                delimiter: *delimiter,
                has_header: *has_header,
            },
            FileFormat::JSON { is_array } => FileFormat::JSON { is_array: *is_array },
            FileFormat::XML { root_element, item_element } => FileFormat::XML {
                root_element: root_element.clone(),
                item_element: item_element.clone(),
            },
            FileFormat::Custom(name) => FileFormat::Custom(name.clone()),
        }
    }
}

impl Clone for FileMapping {
    fn clone(&self) -> (r: Self)
        ensures
            r == *self,
    {
        FileMapping {
            file_path: self.file_path.clone(),
            id_field: self.id_field.clone(),
            format: self.format.clone(),
        }
    }
}

} // verus!
