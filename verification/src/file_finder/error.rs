use vstd::prelude::*;

verus! {

/// What can go wrong in a search for files.
#[derive(Debug)]
pub enum FileFinderError {
    /// No folders were defined.
    NoFoldersDefined,
    /// No files were found.
    NoFilesFound,
    /// A directory could not be read; the text says why.
    ReadDirectoryError(String),
    /// No extensions were defined.
    NoExtensionsDefined,
}

} // verus!
