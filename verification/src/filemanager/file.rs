//! The paths of the files in a user's folder.

use crate::text::concat3;
use vstd::prelude::*;

verus! {

/// The name of the configuration file.
pub open spec fn config_file_name() -> Seq<char> {
    "config.json"@
}

/// The path of a file in a folder: the folder, a slash, the file name.
pub open spec fn path_in(folder: Seq<char>, file_name: Seq<char>) -> Seq<char> {
    folder + "/"@ + file_name
}

/// The path of a file in a folder.
pub fn file_path(file_name: &str, folder: &str) -> (r: String)
    ensures
        r@ == path_in(folder@, file_name@),
{
    concat3(folder, "/", file_name)
}

/// The path of the configuration file in a folder.
pub fn config_file_path(folder: &str) -> (r: String)
    ensures
        r@ == path_in(folder@, config_file_name()),
{
    concat3(folder, "/", "config.json")
}

/// What has to be created before the configuration file can be used.
#[derive(Clone, Copy, Debug, PartialEq, Eq, Structural)]
pub enum Preparation {
    /// Folder and file are there.
    Nothing,
    /// The folder is there, the file is not.
    File,
    /// The folder is missing, and with it the file.
    FolderAndFile,
}

/// Decides what has to be created: a missing folder is created with the file
/// in it; in a folder that is there, the file is created if it is missing.
pub fn preparation(folder_exists: bool, file_exists: bool) -> (r: Preparation)
    ensures
        r == if !folder_exists {
            Preparation::FolderAndFile
        } else if !file_exists {
            Preparation::File
        } else {
            Preparation::Nothing
        },
{
    if !folder_exists {
        Preparation::FolderAndFile
    } else if !file_exists {
        Preparation::File
    } else {
        Preparation::Nothing
    }
}

} // verus!
