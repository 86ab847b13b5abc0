use crate::file_finder::error::FileFinderError;
use crate::paths::{is_plain, plain};
use vstd::prelude::*;

verus! {

/// Searches the given folders for a file of the given name with one of the
/// given extensions.
#[derive(Debug)]
pub struct FileFinder {
    pub folders: Vec<String>,
    pub file_name: &'static str,
    pub extensions: Vec<&'static str>,
}

/// Whether a list of folders is another with the path given put behind it;
/// with no path, whether the two are one.
pub open spec fn grown_by(after: Seq<String>, before: Seq<String>, path: Option<Seq<char>>) -> bool {
    match path {
        Some(text) => after.len() == before.len() + 1 && after.drop_last() == before
            && after.last()@ == text,
        None => after == before,
    }
}

impl FileFinder {
    /// A finder for files of the given name, with no folder and no
    /// extension yet.
    pub fn new(name: &'static str) -> (finder: FileFinder)
        ensures
            finder.file_name == name,
            finder.folders@ == Seq::<String>::empty(),
            finder.extensions@ == Seq::<&'static str>::empty(),
    {
        FileFinder { file_name: name, extensions: Vec::new(), folders: Vec::new() }
    }

    /// The name of the files looked for.
    pub fn get_file_name(&self) -> (name: &'static str)
        ensures
            name == self.file_name,
    {
        self.file_name
    }

    /// Also looks for the extension given, which has no leading dot.
    pub fn with_extension(self, ext: &'static str) -> (finder: FileFinder)
        ensures
            finder.file_name == self.file_name,
            finder.folders == self.folders,
            finder.extensions@ == self.extensions@.push(ext),
    {
        let mut finder = self;
        finder.extensions.push(ext);
        finder
    }

    /// Also looks in the folder given.
    pub fn with_folder(self, folder: String) -> (finder: FileFinder)
        ensures
            finder.file_name == self.file_name,
            finder.extensions == self.extensions,
            finder.folders@ == self.folders@.push(folder),
    {
        let mut finder = self;
        finder.folders.push(folder);
        finder
    }

    /// Whether every extension can be the extension of a file: none holds a
    /// character that parts the components of a path. A search asks for
    /// it, since no path can be made with another extension.
    pub open spec fn plain_extensions(&self) -> bool {
        forall|j: int| 0 <= j < self.extensions@.len() ==> plain((#[trigger] self.extensions@[j])@)
    }

    /// Whether a search can make its paths: it has no folder, and so makes
    /// none, or every extension can be the extension of a file.
    pub open spec fn searchable(&self) -> bool {
        self.folders@.len() == 0 || self.plain_extensions()
    }

    /// Whether a search can make its paths.
    pub fn is_searchable(&self) -> (yes: bool)
        ensures
            yes == self.searchable(),
    {
        self.folders.len() == 0 || self.has_plain_extensions()
    }

    /// Whether every extension can be the extension of a file.
    pub fn has_plain_extensions(&self) -> (yes: bool)
        ensures
            yes == self.plain_extensions(),
    {
        let mut j: usize = 0;
        while j < self.extensions.len()
            invariant
                j <= self.extensions@.len(),
                forall|k: int| 0 <= k < j ==> plain((#[trigger] self.extensions@[k])@),
            decreases self.extensions@.len() - j,
        {
            if !is_plain(self.extensions[j]) {
                return false;
            }
            j += 1;
        }
        true
    }

    /// What `validate` gives: a search needs a folder, and then an extension.
    pub open spec fn validate_spec(&self) -> Result<(), FileFinderError> {
        if self.folders@.len() == 0 {
            Err(FileFinderError::NoFoldersDefined)
        } else if self.extensions@.len() == 0 {
            Err(FileFinderError::NoExtensionsDefined)
        } else {
            Ok(())
        }
    }

    /// Whether a search can start: it needs a folder and an extension.
    pub fn validate(&self) -> (r: Result<(), FileFinderError>)
        ensures
            r == self.validate_spec(),
    {
        if self.folders.len() == 0 {
            return Err(FileFinderError::NoFoldersDefined);
        }
        if self.extensions.len() == 0 {
            return Err(FileFinderError::NoExtensionsDefined);
        }
        Ok(())
    }
}

} // verus!
