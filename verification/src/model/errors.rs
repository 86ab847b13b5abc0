use crate::text::text_eq;
use vstd::prelude::*;
use vstd::string::*;

verus! {

/// What went wrong in an operation on a `Value`.
#[derive(Debug)]
pub enum ModelError {
    /// `set` was called on a value that is no mapping.
    OperationOnlyForMapValue,
    /// `push` was called on a value that is no array.
    OperationOnlyForArrayValue,
    /// A typed structure could not be turned into a value.
    SerializationError(String),
    /// A value could not be turned into a typed structure.
    DeserializationError(String),
    /// A value of kind `from` has no counterpart of type `to`.
    ConversionError { from: &'static str, to: &'static str, why: &'static str },
    /// The text `value` does not read as a `to`.
    CastingError { value: String, to: &'static str, why: &'static str },
}

/// Mathematical model of a `ModelError`: the same cases over character sequences.
pub enum Failure {
    OnlyForMap,
    OnlyForArray,
    Serialization(Seq<char>),
    Deserialization(Seq<char>),
    Conversion { from: Seq<char>, to: Seq<char>, why: Seq<char> },
    Casting { value: Seq<char>, to: Seq<char>, why: Seq<char> },
}

impl View for ModelError {
    type V = Failure;

    open spec fn view(&self) -> Failure {
        match self {
            ModelError::OperationOnlyForMapValue => Failure::OnlyForMap,
            ModelError::OperationOnlyForArrayValue => Failure::OnlyForArray,
            ModelError::SerializationError(msg) => Failure::Serialization(msg@),
            ModelError::DeserializationError(msg) => Failure::Deserialization(msg@),
            ModelError::ConversionError { from, to, why } => Failure::Conversion {
                from: from@,
                to: to@,
                why: why@,
            },
            ModelError::CastingError { value, to, why } => Failure::Casting {
                value: value@,
                to: to@,
                why: why@,
            },
        }
    }
}

/// The text of a deserialization failure: which value could not become what.
pub open spec fn deserialization_text(from: Seq<char>, to: Seq<char>) -> Seq<char> {
    "Can't deserialize "@ + from + " to "@ + to
}

impl ModelError {
    /// The error as a failed result.
    pub fn to_result<T>(self) -> (r: Result<T, ModelError>)
        ensures
            r == Err::<T, ModelError>(self),
    {
        Err(self)
    }

    /// The failure to turn the value rendered as `from` into a `to`.
    pub fn deserialization(from: String, to: &'static str) -> (e: ModelError)
        ensures
            e@ == Failure::Deserialization(deserialization_text(from@, to@)),
    {
        let mut msg = String::from_str("Can't deserialize ");
        msg.append(from.as_str());
        msg.append(" to ");
        msg.append(to);
        ModelError::DeserializationError(msg)
    }
}

impl PartialEq for ModelError {
    fn eq(&self, other: &ModelError) -> (same: bool) {
        match (self, other) {
            (ModelError::OperationOnlyForMapValue, ModelError::OperationOnlyForMapValue) => true,
            (
                ModelError::OperationOnlyForArrayValue,
                ModelError::OperationOnlyForArrayValue,
            ) => true,
            (ModelError::SerializationError(a), ModelError::SerializationError(b)) => text_eq(
                a.as_str(),
                b.as_str(),
            ),
            (ModelError::DeserializationError(a), ModelError::DeserializationError(b)) => text_eq(
                a.as_str(),
                b.as_str(),
            ),
            (
                ModelError::ConversionError { from: f1, to: t1, why: w1 },
                ModelError::ConversionError { from: f2, to: t2, why: w2 },
            ) => text_eq(f1, f2) && text_eq(t1, t2) && text_eq(w1, w2),
            (
                ModelError::CastingError { value: v1, to: t1, why: w1 },
                ModelError::CastingError { value: v2, to: t2, why: w2 },
            ) => text_eq(v1.as_str(), v2.as_str()) && text_eq(t1, t2) && text_eq(w1, w2),
            _ => false,
        }
    }
}

impl vstd::std_specs::cmp::PartialEqSpecImpl for ModelError {
    open spec fn obeys_eq_spec() -> bool {
        true
    }

    open spec fn eq_spec(&self, other: &ModelError) -> bool {
        self@ == other@
    }
}

} // verus!
