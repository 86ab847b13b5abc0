use crate::file_finder::file_extension::{extension_named, FileExtension};
use vstd::prelude::*;

verus! {

/// One file of a search. Depending on how it was searched for, the file may
/// not be there.
#[derive(Debug, Clone)]
pub struct FindResult {
    /// The path of the file.
    pub path: String,
    /// The extension it was looked for with.
    pub extension: FileExtension,
    /// Where the file stands in the results of the search.
    pub index: u16,
    /// Whether the file was there when it was looked for.
    pub exists: bool,
}

impl FindResult {
    /// The result for a path that was looked for with an extension and was
    /// found or not.
    pub fn new(path: String, extension: &'static str, exists: bool) -> (found: FindResult)
        ensures
            found.path == path,
            found.extension == extension_named(extension),
            found.index == 0,
            found.exists == exists,
    {
        FindResult { path, extension: FileExtension::of(extension), index: 0, exists }
    }

    /// The same result at another place among the results.
    pub fn with_index(self, index: u16) -> (found: FindResult)
        ensures
            found.path == self.path,
            found.extension == self.extension,
            found.index == index,
            found.exists == self.exists,
    {
        let mut found = self;
        found.index = index;
        found
    }
}

} // verus!
