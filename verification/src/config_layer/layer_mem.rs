use crate::bak_error::BakuninError;
use crate::config_layer::error::ConfigLayerError;
use crate::config_layer::layer::ConfigLayer;
use crate::model::value::Value;
use vstd::prelude::*;

verus! {

/// A layer that holds its value in memory.
#[derive(Debug, Clone)]
pub struct MemoryConfigLayer {
    pub value: Value,
}

impl MemoryConfigLayer {
    /// A layer with the value given.
    pub fn new(value: Value) -> (layer: MemoryConfigLayer)
        ensures
            layer.value == value,
    {
        MemoryConfigLayer { value }
    }
}

impl ConfigLayer for MemoryConfigLayer {
    fn get_name(&self) -> (name: &'static str)
        ensures
            name@ == "Memory"@,
    {
        "Memory"
    }

    fn has_value(&self) -> (yes: bool)
        ensures
            yes,
    {
        true
    }

    fn can_write(&self) -> (yes: bool)
        ensures
            !yes,
    {
        false
    }

    fn write_value(&self, _value: &Value) -> (r: Result<(), BakuninError>)
        ensures
            r == Err::<(), BakuninError>(
                BakuninError::ConfigLayerError(ConfigLayerError::WriteNotSupported),
            ),
    {
        Err(BakuninError::ConfigLayerError(ConfigLayerError::WriteNotSupported))
    }

    fn read_value(&self) -> (r: Result<Value, BakuninError>)
        ensures
            r is Ok,
            r->Ok_0@ == self.value@,
    {
        Ok(self.value.clone())
    }
}

} // verus!
