use crate::model::errors::{Failure, ModelError};
use crate::text::text_eq;
use vstd::prelude::*;
use vstd::string::*;

verus! {

/// What went wrong while layers were gathered and merged.
#[derive(Debug)]
pub enum ConfigError {
    /// A value that could not become the target named.
    ConversionError { target: String, value: String },
    /// A value could not be turned into a typed structure.
    DeserializeError(String),
    /// A typed structure could not be turned into a value.
    SerializeError(String),
    /// A value of one type did not fit another.
    CastingError { from: String, to: String, why: String },
    /// No conversion exists between the two types.
    UnsupportedConversion { from: String, to: String },
    /// A mapping was required.
    NotMapValue,
    /// An array was required.
    NotArrayValue,
    /// The operation does not exist for the value.
    NotSupported { value: String },
    /// A configuration source failed.
    Source { name: String, error: String },
    /// A file could not be read or written.
    FileOperation(String),
    /// The environment could not be read.
    Environment(String),
    /// A source could not be taken in.
    ImportingSource(String),
    /// The slot asked for holds a layer already.
    BuilderPriorityInUse(u64),
    /// Slot 0 was asked for: it holds the base value.
    BuilderPriorityReserved,
    /// No slot meets the placement asked for.
    BuilderPriorityNotFound,
}

/// Mathematical model of a `ConfigError`: the same cases over character sequences.
pub enum ConfigFailure {
    /// A value that could not become the target named.
    ConversionError { target: Seq<char>, value: Seq<char> },
    /// A value could not be turned into a typed structure.
    DeserializeError(Seq<char>),
    /// A typed structure could not be turned into a value.
    SerializeError(Seq<char>),
    /// A value of one type did not fit another.
    CastingError { from: Seq<char>, to: Seq<char>, why: Seq<char> },
    /// No conversion exists between the two types.
    UnsupportedConversion { from: Seq<char>, to: Seq<char> },
    /// A mapping was required.
    NotMapValue,
    /// An array was required.
    NotArrayValue,
    /// The operation does not exist for the value.
    NotSupported { value: Seq<char> },
    /// A configuration source failed.
    Source { name: Seq<char>, error: Seq<char> },
    /// A file could not be read or written.
    FileOperation(Seq<char>),
    /// The environment could not be read.
    Environment(Seq<char>),
    /// A source could not be taken in.
    ImportingSource(Seq<char>),
    /// The slot asked for holds a layer already.
    BuilderPriorityInUse(u64),
    /// Slot 0 was asked for: it holds the base value.
    BuilderPriorityReserved,
    /// No slot meets the placement asked for.
    BuilderPriorityNotFound,
}

impl View for ConfigError {
    type V = ConfigFailure;

    open spec fn view(&self) -> ConfigFailure {
        match self {
            ConfigError::ConversionError { target, value } => ConfigFailure::ConversionError {
                target: target@,
                value: value@,
            },
            ConfigError::DeserializeError(text) => ConfigFailure::DeserializeError(text@),
            ConfigError::SerializeError(text) => ConfigFailure::SerializeError(text@),
            ConfigError::CastingError { from, to, why } => ConfigFailure::CastingError {
                from: from@,
                to: to@,
                why: why@,
            },
            ConfigError::UnsupportedConversion { from, to } => ConfigFailure::UnsupportedConversion {
                from: from@,
                to: to@,
            },
            ConfigError::NotMapValue => ConfigFailure::NotMapValue,
            ConfigError::NotArrayValue => ConfigFailure::NotArrayValue,
            ConfigError::NotSupported { value } => ConfigFailure::NotSupported {
                value: value@,
            },
            ConfigError::Source { name, error } => ConfigFailure::Source {
                name: name@,
                error: error@,
            },
            ConfigError::FileOperation(text) => ConfigFailure::FileOperation(text@),
            ConfigError::Environment(text) => ConfigFailure::Environment(text@),
            ConfigError::ImportingSource(text) => ConfigFailure::ImportingSource(text@),
            ConfigError::BuilderPriorityInUse(slot) => ConfigFailure::BuilderPriorityInUse(*slot),
            ConfigError::BuilderPriorityReserved => ConfigFailure::BuilderPriorityReserved,
            ConfigError::BuilderPriorityNotFound => ConfigFailure::BuilderPriorityNotFound,
        }
    }
}

impl PartialEq for ConfigError {
    fn eq(&self, other: &ConfigError) -> (same: bool) {
        match (self, other) {
            (ConfigError::ConversionError { target: target1, value: value1 }, ConfigError::ConversionError { target: target2, value: value2 }) => text_eq(target1.as_str(), target2.as_str()) && text_eq(value1.as_str(), value2.as_str()),
            (ConfigError::DeserializeError(a), ConfigError::DeserializeError(b)) => text_eq(a.as_str(), b.as_str()),
            (ConfigError::SerializeError(a), ConfigError::SerializeError(b)) => text_eq(a.as_str(), b.as_str()),
            (ConfigError::CastingError { from: from1, to: to1, why: why1 }, ConfigError::CastingError { from: from2, to: to2, why: why2 }) => text_eq(from1.as_str(), from2.as_str()) && text_eq(to1.as_str(), to2.as_str()) && text_eq(why1.as_str(), why2.as_str()),
            (ConfigError::UnsupportedConversion { from: from1, to: to1 }, ConfigError::UnsupportedConversion { from: from2, to: to2 }) => text_eq(from1.as_str(), from2.as_str()) && text_eq(to1.as_str(), to2.as_str()),
            (ConfigError::NotMapValue, ConfigError::NotMapValue) => true,
            (ConfigError::NotArrayValue, ConfigError::NotArrayValue) => true,
            (ConfigError::NotSupported { value: value1 }, ConfigError::NotSupported { value: value2 }) => text_eq(value1.as_str(), value2.as_str()),
            (ConfigError::Source { name: name1, error: error1 }, ConfigError::Source { name: name2, error: error2 }) => text_eq(name1.as_str(), name2.as_str()) && text_eq(error1.as_str(), error2.as_str()),
            (ConfigError::FileOperation(a), ConfigError::FileOperation(b)) => text_eq(a.as_str(), b.as_str()),
            (ConfigError::Environment(a), ConfigError::Environment(b)) => text_eq(a.as_str(), b.as_str()),
            (ConfigError::ImportingSource(a), ConfigError::ImportingSource(b)) => text_eq(a.as_str(), b.as_str()),
            (ConfigError::BuilderPriorityInUse(a), ConfigError::BuilderPriorityInUse(b)) => *a == *b,
            (ConfigError::BuilderPriorityReserved, ConfigError::BuilderPriorityReserved) => true,
            (ConfigError::BuilderPriorityNotFound, ConfigError::BuilderPriorityNotFound) => true,
            _ => false,
        }
    }
}

impl vstd::std_specs::cmp::PartialEqSpecImpl for ConfigError {
    open spec fn obeys_eq_spec() -> bool {
        true
    }

    open spec fn eq_spec(&self, other: &ConfigError) -> bool {
        self@ == other@
    }
}

/// The failure of the builder that stands for a failure of a value.
pub open spec fn failure_of(f: Failure) -> ConfigFailure {
    match f {
        Failure::OnlyForMap => ConfigFailure::NotMapValue,
        Failure::OnlyForArray => ConfigFailure::NotArrayValue,
        Failure::Serialization(text) => ConfigFailure::SerializeError(text),
        Failure::Deserialization(text) => ConfigFailure::DeserializeError(text),
        Failure::Conversion { from, to, why } => ConfigFailure::CastingError { from, to, why },
        Failure::Casting { value, to, why } => ConfigFailure::ConversionError { target: to, value },
    }
}

impl From<ModelError> for ConfigError {
    fn from(error: ModelError) -> (e: ConfigError)
        ensures
            e@ == failure_of(error@),
    {
        match error {
            ModelError::OperationOnlyForMapValue => ConfigError::NotMapValue,
            ModelError::OperationOnlyForArrayValue => ConfigError::NotArrayValue,
            ModelError::SerializationError(text) => ConfigError::SerializeError(text),
            ModelError::DeserializationError(text) => ConfigError::DeserializeError(text),
            ModelError::ConversionError { from, to, why } => ConfigError::CastingError {
                from: String::from_str(from),
                to: String::from_str(to),
                why: String::from_str(why),
            },
            ModelError::CastingError { value, to, why: _ } => ConfigError::ConversionError {
                target: String::from_str(to),
                value,
            },
        }
    }
}

impl vstd::std_specs::convert::FromSpecImpl<ModelError> for ConfigError {
    open spec fn obeys_from_spec() -> bool {
        false
    }

    open spec fn from_spec(error: ModelError) -> ConfigError {
        arbitrary()
    }
}

} // verus!
