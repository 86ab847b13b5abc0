use crate::file_finder::file_extension::FileExtension;
use vstd::prelude::*;

verus! {

/// A layer kept in a file: where the file lies and in which format it is
/// read and written.
#[derive(Debug, Clone)]
pub struct FileConfigLayer {
    pub path: String,
    pub format: FileExtension,
}

impl FileConfigLayer {
    /// A layer kept in the file at the path given, in the format given.
    pub fn new(path: String, format: FileExtension) -> (layer: FileConfigLayer)
        ensures
            layer.path == path,
            layer.format == format,
    {
        FileConfigLayer { path, format }
    }

    /// The path of the file.
    pub fn get_path(&self) -> (path: &String)
        ensures
            *path == self.path,
    {
        &self.path
    }

    /// The kind of layer.
    pub fn get_name(&self) -> (name: &'static str)
        ensures
            name@ == "File"@,
    {
        "File"
    }

    /// A file layer is not written to on its own.
    pub fn can_write(&self) -> (yes: bool)
        ensures
            !yes,
    {
        false
    }
}

} // verus!
