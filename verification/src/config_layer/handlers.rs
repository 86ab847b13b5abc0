use crate::file_finder::file_extension::FileExtension;
use vstd::prelude::*;

verus! {

/// Reads and writes layers kept in JSON files.
#[derive(Debug, Clone, Copy)]
pub struct JsonFileHandler;

/// Reads and writes layers kept in TOML files.
#[derive(Debug, Clone, Copy)]
pub struct TomlFileHandler;

impl JsonFileHandler {
    /// The extension of the files that the handler reads.
    pub fn extension() -> (extension: FileExtension)
        ensures
            extension == FileExtension::Json,
    {
        FileExtension::Json
    }
}

impl TomlFileHandler {
    /// The extension of the files that the handler reads.
    pub fn extension() -> (extension: FileExtension)
        ensures
            extension == FileExtension::Toml,
    {
        FileExtension::Toml
    }
}

} // verus!
