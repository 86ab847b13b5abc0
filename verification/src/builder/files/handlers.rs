use vstd::prelude::*;
use vstd::string::*;

verus! {

/// Reads and writes configuration files in JSON.
#[derive(Debug, Clone, Copy)]
pub struct JsonConfigHandler {}

/// Reads and writes configuration files in JSON5.
#[derive(Debug, Clone, Copy)]
pub struct Json5ConfigHandler {}

/// Reads and writes configuration files in TOML.
#[derive(Debug, Clone, Copy)]
pub struct TomlConfigHandler {}

/// Reads and writes configuration files in YAML.
#[derive(Debug, Clone, Copy)]
pub struct YamlConfigHandler {}

/// The texts of a list of extensions.
pub open spec fn texts(list: Seq<String>) -> Seq<Seq<char>> {
    Seq::new(list.len(), |i: int| list[i]@)
}

impl JsonConfigHandler {
    /// The name of the format.
    pub fn name(&self) -> (name: String)
        ensures
            name@ == "json"@,
    {
        String::from_str("json")
    }

    /// The extensions of files in the format.
    pub fn extensions() -> (list: Vec<String>)
        ensures
            texts(list@) == seq!["json"@],
    {
        let mut list: Vec<String> = Vec::new();
        list.push(String::from_str("json"));
        assert(texts(list@) =~= seq!["json"@]);
        list
    }
}

impl Json5ConfigHandler {
    /// The name of the format.
    pub fn name(&self) -> (name: String)
        ensures
            name@ == "json5"@,
    {
        String::from_str("json5")
    }

    /// The extensions of files in the format.
    pub fn extensions() -> (list: Vec<String>)
        ensures
            texts(list@) == seq!["json"@, "json5"@],
    {
        let mut list: Vec<String> = Vec::new();
        list.push(String::from_str("json"));
        list.push(String::from_str("json5"));
        assert(texts(list@) =~= seq!["json"@, "json5"@]);
        list
    }
}

impl TomlConfigHandler {
    /// The name of the format.
    pub fn name(&self) -> (name: String)
        ensures
            name@ == "toml"@,
    {
        String::from_str("toml")
    }

    /// The extensions of files in the format.
    pub fn extensions() -> (list: Vec<String>)
        ensures
            texts(list@) == seq!["toml"@],
    {
        let mut list: Vec<String> = Vec::new();
        list.push(String::from_str("toml"));
        assert(texts(list@) =~= seq!["toml"@]);
        list
    }
}

impl YamlConfigHandler {
    /// The name of the format.
    pub fn name(&self) -> (name: String)
        ensures
            name@ == "yaml"@,
    {
        String::from_str("yaml")
    }

    /// The extensions of files in the format.
    pub fn extensions() -> (list: Vec<String>)
        ensures
            texts(list@) == seq!["yaml"@, "yml"@],
    {
        let mut list: Vec<String> = Vec::new();
        list.push(String::from_str("yaml"));
        list.push(String::from_str("yml"));
        assert(texts(list@) =~= seq!["yaml"@, "yml"@]);
        list
    }
}

/// The extensions of all formats: TOML, JSON, YAML, JSON5, in this order.
pub open spec fn supported_extensions() -> Seq<Seq<char>> {
    seq!["toml"@, "json"@, "yaml"@, "yml"@, "json"@, "json5"@]
}

/// Appends the extensions of a format to a list.
pub fn extend_with(list: &mut Vec<String>, more: Vec<String>)
    ensures
        texts(final(list)@) == texts(old(list)@) + texts(more@),
{
    let mut i: usize = 0;
    while i < more.len()
        invariant
            i <= more@.len(),
            texts(list@) == texts(old(list)@) + texts(more@).take(i as int),
        decreases more@.len() - i,
    {
        let ghost before = list@;
        list.push(more[i].clone());
        assert(texts(list@) =~= texts(before).push(more@[i as int]@));
        assert(texts(more@).take(i + 1) =~= texts(more@).take(i as int).push(more@[i as int]@));
        i += 1;
    }
    assert(texts(more@).take(more@.len() as int) =~= texts(more@));
}

} // verus!
