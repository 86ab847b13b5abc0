use crate::builder::config_builder::{taken_in, validated, ConfigBuilder};
use crate::builder::priority::{resolve, Priority};
use crate::config_layer::layer_env::{collect_env, env_entries};
use crate::errors::ConfigError;
use crate::model::value::{Tree, Value};
use crate::text::{chars_of, text_between, trim, trim_bounds, trimmed};
use crate::traits::PriorityHandler;
use vstd::prelude::*;
use vstd::string::*;

verus! {

/// A source that takes its values from the environment.
#[derive(Debug)]
pub struct EnvironmentConfigBuilder {
    pub prefix: String,
    pub priority: Priority,
    pub value: Value,
}

/// The prefix as a source keeps it: without the white space at its ends,
/// and with an underscore at its end unless it is empty or has one.
pub open spec fn built_prefix(prefix: Seq<char>) -> Seq<char> {
    let bare = trimmed(prefix);
    if bare.len() > 0 && bare.last() != '_' {
        bare.push('_')
    } else {
        bare
    }
}

impl EnvironmentConfigBuilder {
    /// The prefix as a source keeps it.
    pub fn build_prefix(prefix: &str) -> (built: String)
        ensures
            built@ == built_prefix(prefix@),
    {
        let chars = chars_of(prefix);
        let (start, end) = trim_bounds(&chars);
        let mut built = text_between(&chars, start, end);
        if end > start && chars[end - 1] != '_' {
            built.append("_");
            proof {
                reveal_strlit("_");
                assert(built@ =~= trimmed(prefix@).push('_'));
            }
        }
        built
    }

    /// A source for the prefix given, to be placed anywhere, with nothing
    /// read yet.
    pub fn new(prefix: String) -> (source: EnvironmentConfigBuilder)
        ensures
            source.prefix@ == built_prefix(prefix@),
            source.priority == Priority::Any,
            source.value == Value::Null,
    {
        EnvironmentConfigBuilder {
            prefix: EnvironmentConfigBuilder::build_prefix(prefix.as_str()),
            priority: Priority::Any,
            value: Value::Null,
        }
    }

    /// The same source with another prefix.
    pub fn set_prefix(self, prefix: &str) -> (source: EnvironmentConfigBuilder)
        ensures
            source.prefix@ == built_prefix(prefix@),
            source.priority == self.priority,
            source.value == self.value,
    {
        let mut source = self;
        source.prefix = EnvironmentConfigBuilder::build_prefix(prefix);
        source
    }

    /// The same source with another placement.
    pub fn set_priority(self, priority: Priority) -> (source: EnvironmentConfigBuilder)
        ensures
            source.prefix == self.prefix,
            source.priority == priority,
            source.value == self.value,
    {
        let mut source = self;
        source.priority = priority;
        source
    }

    /// What a reading of the variables gives: the mapping kept from an
    /// earlier reading if there is one, else the mapping of the variables
    /// under the prefix; an error where the prefix is empty.
    pub open spec fn reading(&self, vars: Seq<(String, String)>) -> Option<Tree> {
        if self.value@ is Mapping {
            Some(self.value@)
        } else if trimmed(self.prefix@).len() == 0 {
            None
        } else {
            Some(Tree::Mapping(env_entries(vars, trimmed(self.prefix@))))
        }
    }

    /// Reads the variables given, each a name and a text.
    pub fn read(&self, vars: &Vec<(String, String)>) -> (r: Result<Value, ConfigError>)
        ensures
            match self.reading(vars@) {
                Some(tree) => r is Ok && r->Ok_0@ == tree,
                None => r is Err && (r->Err_0 matches ConfigError::Environment(why) && why@
                    == "Environment prefix cannot be empty"@),
            },
    {
        if self.value.is_map() {
            return Ok(self.value.clone());
        }
        let prefix = trim(self.prefix.as_str());
        if prefix.unicode_len() == 0 {
            return Err(
                ConfigError::Environment(String::from_str("Environment prefix cannot be empty")),
            );
        }
        Ok(Value::Mapping(collect_env(vars, prefix)))
    }

    /// Reads the variables given and keeps the mapping for later readings.
    pub fn load_mut(&mut self, vars: &Vec<(String, String)>) -> (r: Result<(), ConfigError>)
        ensures
            final(self).prefix == old(self).prefix,
            final(self).priority == old(self).priority,
            match old(self).reading(vars@) {
                Some(tree) => r is Ok && final(self).value@ == tree,
                None => r is Err && final(self).value == old(self).value,
            },
    {
        match self.read(vars) {
            Ok(value) => {
                self.value = value;
                Ok(())
            },
            Err(e) => Err(e),
        }
    }

    /// The mapping kept from the last reading; `Null` before the first.
    pub fn cache(&self) -> (value: &Value)
        ensures
            value == self.value,
    {
        &self.value
    }

    /// The name of the source.
    pub fn name(&self) -> (name: String)
        ensures
            name@ == "Environment["@ + self.prefix@ + "]"@,
    {
        let mut name = String::from_str("Environment[");
        name.append(self.prefix.as_str());
        name.append("]");
        name
    }

    /// The slot that the source asks for.
    pub fn get_priority<T: PriorityHandler>(&self, handler: &T) -> (slot: Option<u64>)
        ensures
            slot == resolve(self.priority, handler.slots(), handler.last_slot()),
    {
        self.priority.get_priority(handler)
    }
}

impl ConfigBuilder {
    /// Takes the variables under a prefix in as a layer at the placement
    /// given. `vars` holds the variables of the environment, each a name
    /// and a text.
    pub fn add_environment(
        &mut self,
        priority: Priority,
        prefix: &str,
        vars: &Vec<(String, String)>,
    ) -> (r: Result<u64, ConfigError>)
        ensures
            match validated(
                old(self).priority_list@,
                resolve(priority, old(self).priority_list@, old(self).priority_last),
            ) {
                Err(e) => r == Err::<u64, ConfigError>(e) && *final(self) == *old(self),
                Ok(_) => if trimmed(built_prefix(prefix@)).len() == 0 {
                    &&& r is Err
                    &&& r->Err_0 matches ConfigError::Environment(why) && why@
                        == "Environment prefix cannot be empty"@
                    &&& *final(self) == *old(self)
                } else {
                    exists|value: Value|
                        value@ == Tree::Mapping(
                            env_entries(vars@, trimmed(built_prefix(prefix@))),
                        ) && #[trigger] taken_in(
                            *old(self),
                            resolve(priority, old(self).priority_list@, old(self).priority_last),
                            Ok(value),
                            r,
                            *final(self),
                        )
                },
            },
            old(self).well_formed() ==> final(self).well_formed(),
    {
        let source = EnvironmentConfigBuilder::new(prefix.to_owned()).set_priority(priority);
        let asked = source.get_priority(&*self);
        let slot = match self.validate_priority(asked) {
            Ok(slot) => slot,
            Err(e) => {
                return Err(e);
            },
        };
        let read = source.read(vars);
        self.place(Some(slot), read)
    }

    /// Takes the variables under a prefix in as the last layer to merge.
    pub fn environment(&mut self, prefix: &str, vars: &Vec<(String, String)>) -> (r: Result<
        u64,
        ConfigError,
    >)
        ensures
            match validated(
                old(self).priority_list@,
                resolve(Priority::LastAvailable, old(self).priority_list@, old(self).priority_last),
            ) {
                Err(e) => r == Err::<u64, ConfigError>(e) && *final(self) == *old(self),
                Ok(_) => if trimmed(built_prefix(prefix@)).len() == 0 {
                    &&& r is Err
                    &&& r->Err_0 matches ConfigError::Environment(why) && why@
                        == "Environment prefix cannot be empty"@
                    &&& *final(self) == *old(self)
                } else {
                    exists|value: Value|
                        value@ == Tree::Mapping(
                            env_entries(vars@, trimmed(built_prefix(prefix@))),
                        ) && #[trigger] taken_in(
                            *old(self),
                            resolve(Priority::LastAvailable, old(self).priority_list@, old(self).priority_last),
                            Ok(value),
                            r,
                            *final(self),
                        )
                },
            },
            old(self).well_formed() ==> final(self).well_formed(),
    {
        self.add_environment(Priority::LastAvailable, prefix, vars)
    }
}

} // verus!
