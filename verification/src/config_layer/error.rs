use vstd::prelude::*;

verus! {

/// What can go wrong in a layer.
#[derive(Debug)]
pub enum ConfigLayerError {
    /// The layer cannot be written to.
    WriteNotSupported,
    /// The value of the layer could not be read; the text says why.
    ErrorReadingValue(String),
    /// The value could not be written; the text says why.
    ErrorWritingValue(String),
    /// What was read is no value; the text says why.
    ParseError(String),
    /// The value could not be put into the layer's format; the text says why.
    SerializeError(String),
    /// Reading or writing failed; the text says why.
    IOError(String),
    /// No format is known for the extension.
    UnsupportedExtension(String),
}

} // verus!
