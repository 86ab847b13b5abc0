use crate::builder::priority::{resolve, Priority};
use crate::errors::ConfigError;
use crate::model::value::{Tree, Value};
use crate::traits::{ConfigReader, PriorityHandler};
use vstd::prelude::*;
use vstd::string::*;

verus! {

/// A source that holds its value in memory.
#[derive(Debug)]
pub struct MemoryConfigBuilder {
    pub value: Value,
    pub priority: Priority,
}

impl MemoryConfigBuilder {
    /// A source with an empty mapping, to be placed anywhere.
    pub fn new() -> (source: MemoryConfigBuilder)
        ensures
            source.value@ == Tree::Mapping(Map::empty()),
            source.priority == Priority::Any,
    {
        MemoryConfigBuilder { value: Value::new_map(), priority: Priority::Any }
    }

    /// The same source with another placement.
    pub fn set_priority(self, priority: Priority) -> (source: MemoryConfigBuilder)
        ensures
            source.value == self.value,
            source.priority == priority,
    {
        let mut source = self;
        source.priority = priority;
        source
    }

    /// The same source with another value.
    pub fn set_value(self, value: Value) -> (source: MemoryConfigBuilder)
        ensures
            source.value == value,
            source.priority == self.priority,
    {
        let mut source = self;
        source.value = value;
        source
    }
}

impl ConfigReader for MemoryConfigBuilder {
    open spec fn placement(&self, used: Seq<u64>, last: u64) -> Option<u64> {
        resolve(self.priority, used, last)
    }

    fn name(&self) -> (name: String)
        ensures
            name@ == "Memory"@,
    {
        String::from_str("Memory")
    }

    fn read(&self) -> (r: Result<Value, ConfigError>)
        ensures
            match r {
                Ok(value) => self.value@ is Mapping && value@ == self.value@,
                Err(e) => !(self.value@ is Mapping) && e == ConfigError::NotMapValue,
            },
    {
        if self.value.is_map() {
            Ok(self.value.clone())
        } else {
            Err(ConfigError::NotMapValue)
        }
    }

    fn get_priority<T: PriorityHandler>(&self, handler: &T) -> (slot: Option<u64>) {
        self.priority.get_priority(handler)
    }
}

} // verus!
