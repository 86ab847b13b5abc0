use crate::file_finder::finder::FileFinder;
use crate::paths::{extension_of, path_extension};
use crate::text::text_eq;
use vstd::prelude::*;
use vstd::string::*;

verus! {

/// The extension of a configuration file, without the leading dot.
#[derive(Debug, Clone)]
pub enum FileExtension {
    Custom(&'static str),
    Toml,
    Json,
}

/// The extension that a text names: `.toml` and `.json` name the two known
/// ones, every other text is an extension of its own.
pub open spec fn extension_named(ext: &'static str) -> FileExtension {
    if ext@ == ".toml"@ {
        FileExtension::Toml
    } else if ext@ == ".json"@ {
        FileExtension::Json
    } else {
        FileExtension::Custom(ext)
    }
}

impl FileExtension {
    /// The text of the extension.
    pub open spec fn text(self) -> Seq<char> {
        match self {
            FileExtension::Custom(ext) => ext@,
            FileExtension::Toml => "toml"@,
            FileExtension::Json => "json"@,
        }
    }

    /// The extension that a text names.
    pub fn of(ext: &'static str) -> (extension: FileExtension)
        ensures
            extension == extension_named(ext),
    {
        if text_eq(ext, ".toml") {
            FileExtension::Toml
        } else if text_eq(ext, ".json") {
            FileExtension::Json
        } else {
            FileExtension::Custom(ext)
        }
    }

    /// The text of the extension.
    pub fn as_str(&self) -> (text: &'static str)
        ensures
            text@ == self.text(),
    {
        match self {
            FileExtension::Custom(ext) => ext,
            FileExtension::Toml => "toml",
            FileExtension::Json => "json",
        }
    }

    /// Whether a path ends in this extension. Only the two known extensions
    /// match a path: a custom one matches none.
    pub fn match_path(&self, path: &str) -> (yes: bool)
        ensures
            yes == match self {
                FileExtension::Custom(_) => false,
                _ => extension_of(path@) == Some(self.text()),
            },
    {
        match self {
            FileExtension::Custom(_) => false,
            _ => match path_extension(path) {
                Some(found) => text_eq(found.as_str(), self.as_str()),
                None => false,
            },
        }
    }
}

impl From<&'static str> for FileExtension {
    fn from(ext: &'static str) -> (extension: FileExtension) {
        FileExtension::of(ext)
    }
}

impl vstd::std_specs::convert::FromSpecImpl<&'static str> for FileExtension {
    open spec fn obeys_from_spec() -> bool {
        true
    }

    open spec fn from_spec(ext: &'static str) -> FileExtension {
        extension_named(ext)
    }
}

impl FileFinder {
    /// Also looks for TOML files.
    pub fn with_toml(self) -> (finder: FileFinder)
        ensures
            finder.file_name == self.file_name,
            finder.folders == self.folders,
            finder.extensions@.len() == self.extensions@.len() + 1,
            finder.extensions@.drop_last() == self.extensions@,
            finder.extensions@.last()@ == "toml"@,
    {
        self.with_extension(FileExtension::Toml.as_str())
    }

    /// Also looks for JSON files.
    pub fn with_json(self) -> (finder: FileFinder)
        ensures
            finder.file_name == self.file_name,
            finder.folders == self.folders,
            finder.extensions@.len() == self.extensions@.len() + 1,
            finder.extensions@.drop_last() == self.extensions@,
            finder.extensions@.last()@ == "json"@,
    {
        self.with_extension(FileExtension::Json.as_str())
    }

    /// Also looks for every extension the library knows: TOML, then JSON.
    pub fn with_supported_extensions(self) -> (finder: FileFinder)
        ensures
            finder.file_name == self.file_name,
            finder.folders == self.folders,
            finder.extensions@.len() == self.extensions@.len() + 2,
            finder.extensions@.take(self.extensions@.len() as int) == self.extensions@,
            finder.extensions@[self.extensions@.len() as int]@ == "toml"@,
            finder.extensions@[self.extensions@.len() as int + 1]@ == "json"@,
    {
        let finder = self.with_toml();
        let finder = finder.with_json();
        assert(finder.extensions@.take(self.extensions@.len() as int) =~= self.extensions@);
        finder
    }
}

} // verus!
