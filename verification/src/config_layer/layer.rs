use crate::bak_error::BakuninError;
use crate::model::value::Value;
use vstd::prelude::*;

verus! {

/// A source of configuration: it can be read, and some can be written to.
pub trait ConfigLayer {
    /// The kind of layer.
    fn get_name(&self) -> &'static str;

    /// Whether the layer has a value to read.
    fn has_value(&self) -> bool;

    /// Reads the value of the layer.
    fn read_value(&self) -> Result<Value, BakuninError>;

    /// Whether the layer can be written to.
    fn can_write(&self) -> bool;

    /// Writes a value to the layer.
    fn write_value(&self, value: &Value) -> Result<(), BakuninError>;
}

} // verus!
