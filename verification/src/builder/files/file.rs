use crate::model::value::Value;
use crate::paths::{extension_of, path_extension};
use crate::text::text_eq;
use vstd::prelude::*;
use vstd::string::*;

verus! {

/// A configuration file: where it lies, whether it must be there, and the
/// value to write where it is not.
#[derive(Clone, Debug, PartialEq)]
pub struct ConfigFile {
    pub path: String,
    pub initial_value: Option<Value>,
    pub required: bool,
}

/// What is to be done to read a configuration file.
#[derive(Debug)]
pub enum ReadPlan {
    /// The file is there: it is to be parsed.
    Parse,
    /// The file is not there: the value is to be written to it, and is the
    /// value read.
    WriteInitial(Value),
    /// The file is not there and must be: reading fails.
    FailRequired,
    /// The file is not there and need not be: an empty mapping is read.
    Empty,
}

/// The formats of configuration files.
#[derive(Debug, Clone, Copy, PartialEq, Eq)]
pub enum FileFormat {
    Json,
    Toml,
    Yaml,
    Json5,
}

/// The format that reads files of an extension: JSON for `json`, TOML for
/// `toml`, YAML for `yaml` and `yml`, JSON5 for `json5`.
pub open spec fn format_named(extension: Seq<char>) -> Option<FileFormat> {
    if extension == "json"@ {
        Some(FileFormat::Json)
    } else if extension == "toml"@ {
        Some(FileFormat::Toml)
    } else if extension == "yaml"@ || extension == "yml"@ {
        Some(FileFormat::Yaml)
    } else if extension == "json5"@ {
        Some(FileFormat::Json5)
    } else {
        None
    }
}

/// The format that reads files of an extension.
pub fn format_for_extension(extension: &str) -> (format: Option<FileFormat>)
    ensures
        format == format_named(extension@),
{
    if text_eq(extension, "json") {
        Some(FileFormat::Json)
    } else if text_eq(extension, "toml") {
        Some(FileFormat::Toml)
    } else if text_eq(extension, "yaml") || text_eq(extension, "yml") {
        Some(FileFormat::Yaml)
    } else if text_eq(extension, "json5") {
        Some(FileFormat::Json5)
    } else {
        None
    }
}

/// Why a file has no format.
#[derive(Debug)]
pub enum NoFormat {
    /// The path has no extension.
    NoExtension,
    /// No format reads the extension.
    UnknownExtension(String),
}

impl ConfigFile {
    /// A file at the path given that must be there and has no initial value.
    pub fn new(path: String) -> (file: ConfigFile)
        ensures
            file.path == path,
            file.initial_value is None,
            file.required,
    {
        ConfigFile { path, initial_value: None, required: true }
    }

    /// The file with the initial value given, and required.
    pub fn with_init(self, value: Value) -> (file: ConfigFile)
        ensures
            file.path == self.path,
            file.required,
            file.initial_value == if value@ is Mapping {
                Some(value)
            } else {
                None
            },
    {
        let mut file = self;
        file.set_initial_value(value);
        file.required = true;
        file
    }

    /// Says whether the file must be there.
    pub fn set_required(&mut self, required: bool)
        ensures
            final(self).path == old(self).path,
            final(self).initial_value == old(self).initial_value,
            final(self).required == required,
    {
        self.required = required;
    }

    /// The file, required.
    pub fn required(self) -> (file: ConfigFile)
        ensures
            file.path == self.path,
            file.initial_value == self.initial_value,
            file.required,
    {
        let mut file = self;
        file.set_required(true);
        file
    }

    /// Sets the initial value; a value that is no mapping takes it away.
    pub fn set_initial_value(&mut self, value: Value)
        ensures
            final(self).path == old(self).path,
            final(self).required == old(self).required,
            final(self).initial_value == if value@ is Mapping {
                Some(value)
            } else {
                None
            },
    {
        let val = if value.is_map() {
            Some(value)
        } else {
            None
        };
        self.initial_value = val;
    }

    /// Whether the file must be there.
    pub fn is_required(&self) -> (yes: bool)
        ensures
            yes == self.required,
    {
        self.required
    }

    /// The initial value, if there is one.
    pub fn get_initial_value(&self) -> (value: Option<&Value>)
        ensures
            match value {
                Some(v) => self.initial_value == Some(*v),
                None => self.initial_value is None,
            },
    {
        self.initial_value.as_ref()
    }

    /// What is to be done to read the file, given whether it is there.
    pub fn read_plan(&self, available: bool) -> (plan: ReadPlan)
        ensures
            match plan {
                ReadPlan::Parse => available,
                ReadPlan::WriteInitial(value) => !available && self.initial_value is Some
                    && value@ == self.initial_value->Some_0@,
                ReadPlan::FailRequired => !available && self.initial_value is None
                    && self.required,
                ReadPlan::Empty => !available && self.initial_value is None && !self.required,
            },
    {
        if available {
            return ReadPlan::Parse;
        }
        match &self.initial_value {
            Some(value) => ReadPlan::WriteInitial(value.clone()),
            None => if self.required {
                ReadPlan::FailRequired
            } else {
                ReadPlan::Empty
            },
        }
    }

    /// The format that reads the file, by the extension of its path.
    pub fn format(&self) -> (r: Result<FileFormat, NoFormat>)
        ensures
            match r {
                Ok(format) => extension_of(self.path@) is Some && format_named(
                    extension_of(self.path@)->Some_0,
                ) == Some(format),
                Err(NoFormat::NoExtension) => extension_of(self.path@) is None,
                Err(NoFormat::UnknownExtension(ext)) => extension_of(self.path@) == Some(ext@)
                    && format_named(ext@) is None,
            },
    {
        match path_extension(self.path.as_str()) {
            Some(ext) => match format_for_extension(ext.as_str()) {
                Some(format) => Ok(format),
                None => Err(NoFormat::UnknownExtension(ext)),
            },
            None => Err(NoFormat::NoExtension),
        }
    }
}

impl From<String> for ConfigFile {
    fn from(path: String) -> (file: ConfigFile) {
        ConfigFile::new(path)
    }
}

impl vstd::std_specs::convert::FromSpecImpl<String> for ConfigFile {
    open spec fn obeys_from_spec() -> bool {
        true
    }

    open spec fn from_spec(path: String) -> ConfigFile {
        ConfigFile { path, initial_value: None, required: true }
    }
}

} // verus!
