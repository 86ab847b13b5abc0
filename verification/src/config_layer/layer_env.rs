use crate::bak_error::BakuninError;
use crate::config_layer::error::ConfigLayerError;
use crate::model::value::{Tree, Value, ValueMap};
use crate::text::{key_under, strip_key, trim, trimmed};
use vstd::prelude::*;
use vstd::string::*;

verus! {

/// A layer that takes its values from the environment: every variable
/// whose name begins with the prefix gives one text, under its name without
/// the prefix.
#[derive(Debug, Clone)]
pub struct EnvironmentConfigLayer {
    pub prefix: &'static str,
}

/// The mapping that a list of variables gives under a prefix. Of two
/// variables that give one key the later one counts.
pub open spec fn env_entries(vars: Seq<(String, String)>, prefix: Seq<char>) -> Map<
    Seq<char>,
    Tree,
>
    decreases vars.len(),
{
    if vars.len() == 0 {
        Map::empty()
    } else {
        let front = env_entries(vars.drop_last(), prefix);
        match key_under(vars.last().0@, prefix) {
            Some(key) => front.insert(key, Tree::String(vars.last().1@)),
            None => front,
        }
    }
}

/// A key is in the mapping of a list of variables exactly when one of the
/// variables gives it: a variable whose name does not begin with the prefix
/// gives none, and the others give their names without the prefix.
pub proof fn lemma_env_keys(vars: Seq<(String, String)>, prefix: Seq<char>, key: Seq<char>)
    ensures
        env_entries(vars, prefix).contains_key(key) <==> exists|i: int|
            0 <= i < vars.len() && #[trigger] key_under(vars[i].0@, prefix) == Some(key),
    decreases vars.len(),
{
    if vars.len() > 0 {
        let front = vars.drop_last();
        lemma_env_keys(front, prefix, key);
        if env_entries(vars, prefix).contains_key(key) {
            if key_under(vars.last().0@, prefix) == Some(key) {
                assert(key_under(vars[vars.len() - 1].0@, prefix) == Some(key));
            } else {
                let i = choose|i: int|
                    0 <= i < front.len() && #[trigger] key_under(front[i].0@, prefix) == Some(key);
                assert(key_under(vars[i].0@, prefix) == Some(key));
            }
        }
        if exists|i: int|
            0 <= i < vars.len() && #[trigger] key_under(vars[i].0@, prefix) == Some(key) {
            let i = choose|i: int|
                0 <= i < vars.len() && #[trigger] key_under(vars[i].0@, prefix) == Some(key);
            if i < front.len() {
                assert(key_under(front[i].0@, prefix) == Some(key));
            }
        }
    }
}

/// Under the key that a variable gives, the mapping holds the text of that
/// variable, unless a later variable gives the same key.
pub proof fn lemma_env_value(vars: Seq<(String, String)>, prefix: Seq<char>, at: int)
    requires
        0 <= at < vars.len(),
        key_under(vars[at].0@, prefix) is Some,
        forall|j: int|
            at < j < vars.len() ==> #[trigger] key_under(vars[j].0@, prefix) != key_under(
                vars[at].0@,
                prefix,
            ),
    ensures
        env_entries(vars, prefix).contains_key(key_under(vars[at].0@, prefix)->Some_0),
        env_entries(vars, prefix)[key_under(vars[at].0@, prefix)->Some_0] == Tree::String(
            vars[at].1@,
        ),
    decreases vars.len(),
{
    let front = vars.drop_last();
    if at < vars.len() - 1 {
        assert(key_under(vars[vars.len() - 1].0@, prefix) != key_under(vars[at].0@, prefix));
        assert forall|j: int| at < j < front.len() implies #[trigger] key_under(
            front[j].0@,
            prefix,
        ) != key_under(front[at].0@, prefix) by {
            assert(key_under(vars[j].0@, prefix) != key_under(vars[at].0@, prefix));
        }
        lemma_env_value(front, prefix, at);
    }
}

/// Collects the variables that begin with the prefix into a mapping.
pub fn collect_env(vars: &Vec<(String, String)>, prefix: &str) -> (map: ValueMap)
    ensures
        map@ == env_entries(vars@, prefix@),
{
    let mut map = ValueMap::new();
    let mut i: usize = 0;
    while i < vars.len()
        invariant
            i <= vars@.len(),
            map@ == env_entries(vars@.take(i as int), prefix@),
        decreases vars@.len() - i,
    {
        proof {
            assert(vars@.take(i + 1).drop_last() =~= vars@.take(i as int));
            assert(vars@.take(i + 1).last() == vars@[i as int]);
        }
        match strip_key(vars[i].0.as_str(), prefix) {
            Some(key) => {
                map.insert(key, Value::String(vars[i].1.clone()));
            },
            None => {},
        }
        i += 1;
    }
    assert(vars@.take(vars@.len() as int) =~= vars@);
    map
}

impl EnvironmentConfigLayer {
    /// A layer for the prefix given, taken without the white space at its
    /// ends.
    pub fn new(prefix: &'static str) -> (layer: EnvironmentConfigLayer)
        ensures
            layer.prefix@ == trimmed(prefix@),
    {
        EnvironmentConfigLayer { prefix: trim(prefix) }
    }

    /// The prefix.
    pub fn get_prefix(&self) -> (prefix: &'static str)
        ensures
            prefix == self.prefix,
    {
        self.prefix
    }

    /// The layer as a text: its kind, with the prefix in brackets.
    pub fn to_text(&self) -> (text: String)
        ensures
            text@ == "EnvironmentConfigLayer["@ + self.prefix@ + "]"@,
    {
        let mut text = String::from_str("EnvironmentConfigLayer[");
        text.append(self.prefix);
        text.append("]");
        text
    }

    /// The kind of layer.
    pub fn get_name(&self) -> (name: &'static str)
        ensures
            name@ == "Environment"@,
    {
        "Environment"
    }

    /// The environment always has a value.
    pub fn has_value(&self) -> (yes: bool)
        ensures
            yes,
    {
        true
    }

    /// The environment is not written to.
    pub fn can_write(&self) -> (yes: bool)
        ensures
            !yes,
    {
        false
    }

    /// Writing fails: the environment is not written to.
    pub fn write_value(&self, _value: &Value) -> (r: Result<(), BakuninError>)
        ensures
            r == Err::<(), BakuninError>(
                BakuninError::ConfigLayerError(ConfigLayerError::WriteNotSupported),
            ),
    {
        Err(BakuninError::ConfigLayerError(ConfigLayerError::WriteNotSupported))
    }

    /// The value of the layer for the variables given, each a name and a
    /// text: a mapping of the variables under the prefix. An empty prefix is
    /// an error.
    pub fn read_value(&self, vars: &Vec<(String, String)>) -> (r: Result<Value, BakuninError>)
        ensures
            match r {
                Ok(value) => self.prefix@.len() > 0 && value@ == Tree::Mapping(
                    env_entries(vars@, self.prefix@),
                ),
                Err(e) => self.prefix@.len() == 0 && (e matches BakuninError::ConfigLayerError(
                    ConfigLayerError::ErrorReadingValue(why),
                ) && why@ == "Environment prefix cannot be empty"@),
            },
    {
        if self.prefix.unicode_len() == 0 {
            return Err(
                BakuninError::ConfigLayerError(
                    ConfigLayerError::ErrorReadingValue(
                        String::from_str("Environment prefix cannot be empty"),
                    ),
                ),
            );
        }
        Ok(Value::Mapping(collect_env(vars, self.prefix)))
    }
}

} // verus!
