use crate::bak_error::BakuninError;
use crate::config_layer::error::ConfigLayerError;
use crate::config_layer::layer::ConfigLayer;
use crate::config_layer::layer_env::EnvironmentConfigLayer;
use crate::config_layer::layer_file::FileConfigLayer;
use crate::config_layer::layer_mem::MemoryConfigLayer;
use crate::file_finder::file_extension::FileExtension;
use crate::model::merge::merged;
use crate::model::value::{Tree, Value};
use crate::paths::{extension_of, path_extension};
use crate::text::{text_eq, trimmed};
use vstd::prelude::*;
use vstd::string::*;

verus! {

/// Named layers in the order in which they were added, to be read and
/// merged into one value.
///
/// `L` is the kind of layer held. A program that mixes kinds of layers
/// takes for `L` a type that stands for any of them.
pub struct BakuninConfig<L> {
    layers: Vec<NamedLayer<L>>,
}

/// A layer with the name it was added under.
pub struct NamedLayer<L> {
    pub name: &'static str,
    pub layer: L,
}

/// The value that a run of readings merges to, starting from a mapping
/// without keys: every value read is merged in, in order. A reading that
/// failed is passed over where failures are skipped; else it ends the run
/// and is the outcome.
pub open spec fn fold_reads(reads: Seq<Result<Value, BakuninError>>, skip_on_error: bool) -> Result<
    Tree,
    BakuninError,
>
    decreases reads.len(),
{
    if reads.len() == 0 {
        Ok(Tree::Mapping(Map::empty()))
    } else {
        match fold_reads(reads.drop_last(), skip_on_error) {
            Err(e) => Err(e),
            Ok(value) => match reads.last() {
                Ok(layer) => Ok(merged(value, layer@)),
                Err(e) => if skip_on_error {
                    Ok(value)
                } else {
                    Err(e)
                },
            },
        }
    }
}

/// The format of a file by the extension of its path: TOML, else JSON.
pub open spec fn format_of(path: Seq<char>) -> Option<FileExtension> {
    if extension_of(path) == Some("toml"@) {
        Some(FileExtension::Toml)
    } else if extension_of(path) == Some("json"@) {
        Some(FileExtension::Json)
    } else {
        None
    }
}

/// The extension of a path as a failure reports it: empty where the path
/// has none.
pub open spec fn reported_extension(path: Seq<char>) -> Seq<char> {
    match extension_of(path) {
        Some(ext) => ext,
        None => Seq::empty(),
    }
}

/// The format in which a file layer is read and written, by the extension
/// of its path. A path whose extension names no format is an error that
/// carries the extension.
pub fn file_layer_format(path: &str) -> (r: Result<FileExtension, BakuninError>)
    ensures
        match format_of(path@) {
            Some(format) => r == Ok::<FileExtension, BakuninError>(format),
            None => r is Err && (r->Err_0 matches BakuninError::ConfigLayerError(
                ConfigLayerError::UnsupportedExtension(ext),
            ) && ext@ == reported_extension(path@)),
        },
{
    if FileExtension::Toml.match_path(path) {
        return Ok(FileExtension::Toml);
    }
    if FileExtension::Json.match_path(path) {
        return Ok(FileExtension::Json);
    }
    let ext = match path_extension(path) {
        Some(ext) => ext,
        None => String::new(),
    };
    Err(BakuninError::ConfigLayerError(ConfigLayerError::UnsupportedExtension(ext)))
}

/// Takes one reading into the value merged so far. Gives the failure that
/// ends the run, if the reading is one and failures are not skipped.
pub fn absorb(value: &mut Value, read: Result<Value, BakuninError>, skip_on_error: bool) -> (stop:
    Option<BakuninError>)
    ensures
        match read {
            Ok(layer) => stop is None && final(value)@ == merged(old(value)@, layer@),
            Err(e) => *final(value) == *old(value) && stop == if skip_on_error {
                None
            } else {
                Some(e)
            },
        },
{
    match read {
        Ok(layer) => {
            value.merge(&layer);
            None
        },
        Err(e) => {
            if skip_on_error {
                None
            } else {
                Some(e)
            }
        },
    }
}

/// Merges a run of readings into one value.
pub fn merge_reads(reads: Vec<Result<Value, BakuninError>>, skip_on_error: bool) -> (r: Result<
    Value,
    BakuninError,
>)
    ensures
        match fold_reads(reads@, skip_on_error) {
            Ok(tree) => r is Ok && r->Ok_0@ == tree,
            Err(e) => r == Err::<Value, BakuninError>(e),
        },
{
    let mut value = Value::new_map();
    let mut rest = reads;
    let mut turned: Vec<Result<Value, BakuninError>> = Vec::new();
    while rest.len() > 0
        invariant
            rest@.len() + turned@.len() == reads@.len(),
            rest@ == reads@.take(rest@.len() as int),
            forall|j: int|
                0 <= j < turned@.len() ==> (#[trigger] turned@[j]) == reads@[reads@.len() - 1 - j],
        decreases rest@.len(),
    {
        let last = rest.pop().unwrap();
        turned.push(last);
    }
    let ghost done: int = 0;
    while turned.len() > 0
        invariant
            0 <= done,
            done + turned@.len() == reads@.len(),
            forall|j: int|
                0 <= j < turned@.len() ==> (#[trigger] turned@[j]) == reads@[reads@.len() - 1 - j],
            fold_reads(reads@.take(done), skip_on_error) == Ok::<Tree, BakuninError>(value@),
        decreases turned@.len(),
    {
        let read = turned.pop().unwrap();
        proof {
            assert(read == reads@[done]);
            assert(reads@.take(done + 1).drop_last() =~= reads@.take(done));
            assert(reads@.take(done + 1).last() == read);
        }
        match absorb(&mut value, read, skip_on_error) {
            Some(e) => {
                proof {
                    lemma_fold_stops(reads@, done + 1, skip_on_error);
                }
                return Err(e);
            },
            None => {},
        }
        proof {
            done = done + 1;
        }
    }
    assert(reads@.take(done) =~= reads@);
    Ok(value)
}

/// A run that has failed stays failed, whatever is read after.
pub proof fn lemma_fold_stops(
    reads: Seq<Result<Value, BakuninError>>,
    upto: int,
    skip_on_error: bool,
)
    requires
        0 <= upto <= reads.len(),
        fold_reads(reads.take(upto), skip_on_error) is Err,
    ensures
        fold_reads(reads, skip_on_error) == fold_reads(reads.take(upto), skip_on_error),
    decreases reads.len() - upto,
{
    if upto < reads.len() {
        assert(reads.take(upto + 1).drop_last() =~= reads.take(upto));
        lemma_fold_stops(reads, upto + 1, skip_on_error);
    } else {
        assert(reads.take(upto) =~= reads);
    }
}

impl<L: ConfigLayer> BakuninConfig<L> {
    /// The names of the layers, in the order in which they were added.
    pub closed spec fn names(&self) -> Seq<Seq<char>> {
        Seq::new(self.layers@.len(), |i: int| self.layers@[i].name@)
    }

    /// The layers, in the order in which they were added.
    pub closed spec fn held(&self) -> Seq<L> {
        Seq::new(self.layers@.len(), |i: int| self.layers@[i].layer)
    }

    /// A configuration without layers.
    pub fn new() -> (config: BakuninConfig<L>)
        ensures
            config.names() == Seq::<Seq<char>>::empty(),
            config.held() == Seq::<L>::empty(),
    {
        let config = BakuninConfig::<L> { layers: Vec::new() };
        assert(config.names() =~= Seq::<Seq<char>>::empty());
        assert(config.held() =~= Seq::<L>::empty());
        config
    }

    /// Where the layer of a name stands, if there is one.
    pub fn position(&self, name: &str) -> (at: Option<usize>)
        ensures
            self.names().len() == self.held().len(),
            match at {
                Some(i) => i < self.names().len() && self.names()[i as int] == name@ && forall|
                    j: int,
                | 0 <= j < i ==> self.names()[j] != name@,
                None => !self.names().contains(name@),
            },
    {
        let mut i: usize = 0;
        while i < self.layers.len()
            invariant
                i <= self.layers@.len(),
                forall|j: int| 0 <= j < i ==> self.layers@[j].name@ != name@,
            decreases self.layers@.len() - i,
        {
            if text_eq(self.layers[i].name, name) {
                return Some(i);
            }
            i += 1;
        }
        None
    }

    /// Adds a layer under a name. A name that has a layer keeps it: the
    /// new layer is dropped.
    pub fn push_layer(&mut self, name: &'static str, layer: L)
        ensures
            final(self).names() == if old(self).names().contains(name@) {
                old(self).names()
            } else {
                old(self).names().push(name@)
            },
            final(self).held() == if old(self).names().contains(name@) {
                old(self).held()
            } else {
                old(self).held().push(layer)
            },
    {
        let at = self.position(name);
        if at.is_none() {
            self.layers.push(NamedLayer { name, layer });
            assert(self.names() =~= old(self).names().push(name@));
            assert(self.held() =~= old(self).held().push(layer));
        }
    }

    /// As `push_layer`, on a configuration that is handed on.
    pub fn with_layer(self, name: &'static str, layer: L) -> (config:
        BakuninConfig<L>)
        ensures
            config.names() == if self.names().contains(name@) {
                self.names()
            } else {
                self.names().push(name@)
            },
            config.held() == if self.names().contains(name@) {
                self.held()
            } else {
                self.held().push(layer)
            },
    {
        let mut config = self;
        config.push_layer(name, layer);
        config
    }

    /// The layer of a name, if there is one.
    pub fn get_layer(&self, name: &'static str) -> (layer: Option<&L>)
        ensures
            match layer {
                Some(found) => exists|i: int|
                    0 <= i < self.names().len() && self.names()[i] == name@ && (forall|j: int|
                        0 <= j < i ==> self.names()[j] != name@) && *found == #[trigger] self.held()[i],
                None => !self.names().contains(name@),
            },
    {
        match self.position(name) {
            Some(i) => {
                assert(self.held()[i as int] == self.layers@[i as int].layer);
                Some(&self.layers[i].layer)
            },
            None => None,
        }
    }

    /// The layers by name and kind, in the order in which they were added.
    pub fn describe(&self) -> (list: Vec<(&'static str, &'static str)>)
        ensures
            list@.len() == self.names().len(),
            forall|i: int| 0 <= i < list@.len() ==> (#[trigger] list@[i]).0@ == self.names()[i],
    {
        let mut list: Vec<(&'static str, &'static str)> = Vec::new();
        let mut i: usize = 0;
        while i < self.layers.len()
            invariant
                i <= self.layers@.len(),
                list@.len() == i,
                forall|j: int| 0 <= j < i ==> (#[trigger] list@[j]).0@ == self.layers@[j].name@,
            decreases self.layers@.len() - i,
        {
            list.push((self.layers[i].name, self.layers[i].layer.get_name()));
            i += 1;
        }
        list
    }

    /// Whether a run of readings is what the first layers gave when they
    /// were read, one for one and in the order in which they were added.
    pub open spec fn read_in_order(&self, reads: Seq<Result<Value, BakuninError>>) -> bool {
        &&& reads.len() <= self.held().len()
        &&& forall|j: int|
            0 <= j < reads.len() ==> call_ensures(
                L::read_value,
                (&self.held()[j],),
                #[trigger] reads[j],
            )
    }

    /// Reads every layer, in the order in which they were added, and merges
    /// what was read. A layer that fails to read is passed over if
    /// `skip_on_error` is true; else it ends the run and its failure is the
    /// result.
    pub fn build_value(&self, skip_on_error: bool) -> (r: Result<Value, BakuninError>)
        ensures
            self.held().len() == self.names().len(),
            exists|reads: Seq<Result<Value, BakuninError>>|
                self.read_in_order(reads) && match #[trigger] fold_reads(reads, skip_on_error) {
                    Ok(tree) => r is Ok && r->Ok_0@ == tree && reads.len() == self.held().len(),
                    Err(e) => r == Err::<Value, BakuninError>(e),
                },
            skip_on_error ==> r is Ok,
    {
        let mut value = Value::new_map();
        let ghost mut reads: Seq<Result<Value, BakuninError>> = Seq::empty();
        let mut i: usize = 0;
        while i < self.layers.len()
            invariant
                i <= self.layers@.len(),
                self.layers@.len() == self.names().len(),
                self.layers@.len() == self.held().len(),
                reads.len() == i,
                self.read_in_order(reads),
                fold_reads(reads, skip_on_error) == Ok::<Tree, BakuninError>(value@),
            decreases self.layers@.len() - i,
        {
            let read = self.layers[i].layer.read_value();
            proof {
                let before = reads;
                reads = reads.push(read);
                assert(reads.drop_last() =~= before);
                assert(self.held()[i as int] == self.layers@[i as int].layer);
                assert forall|j: int| 0 <= j < reads.len() implies call_ensures(
                    L::read_value,
                    (&self.held()[j],),
                    #[trigger] reads[j],
                ) by {
                    if j < i {
                        assert(reads[j] == before[j]);
                    }
                }
            }
            match absorb(&mut value, read, skip_on_error) {
                Some(e) => {
                    return Err(e);
                },
                None => {},
            }
            i += 1;
        }
        Ok(value)
    }
}

impl<L: ConfigLayer + From<MemoryConfigLayer>> BakuninConfig<L> {
    /// Whether a configuration is another with a memory layer for the value
    /// added under the name: with a known name nothing is added, else the
    /// name goes last, and with it the layer that is made of the memory
    /// layer that holds the value.
    pub open spec fn with_memory(self, before: BakuninConfig<L>, name: Seq<char>, value: Value) -> bool {
        if before.names().contains(name) {
            self.names() == before.names() && self.held() == before.held()
        } else {
            &&& self.names() == before.names().push(name)
            &&& exists|layer: L| #[trigger]
                call_ensures(
                    <L as From<MemoryConfigLayer>>::from,
                    (MemoryConfigLayer { value },),
                    layer,
                ) && self.held() == before.held().push(layer)
        }
    }

    /// Adds a layer that holds the value given.
    pub fn add_memory_layer(&mut self, name: &'static str, value: Value)
        ensures
            final(self).with_memory(*old(self), name@, value),
    {
        self.push_layer(name, L::from(MemoryConfigLayer::new(value)));
    }

    /// As `add_memory_layer`, on a configuration that is handed on.
    pub fn with_memory_layer(self, name: &'static str, value: Value) -> (config: BakuninConfig<L>)
        ensures
            config.with_memory(self, name@, value),
    {
        let mut config = self;
        config.add_memory_layer(name, value);
        config
    }
}

impl<L: ConfigLayer + From<FileConfigLayer>> BakuninConfig<L> {
    /// Whether a configuration is another with a file layer for the path
    /// added under the name, in the format given: with a known name nothing
    /// is added, else the name goes last, and with it the layer that is
    /// made of the file layer for the path and the format.
    pub open spec fn with_file(
        self,
        before: BakuninConfig<L>,
        name: Seq<char>,
        path: String,
        format: FileExtension,
    ) -> bool {
        if before.names().contains(name) {
            self.names() == before.names() && self.held() == before.held()
        } else {
            &&& self.names() == before.names().push(name)
            &&& exists|layer: L| #[trigger]
                call_ensures(
                    <L as From<FileConfigLayer>>::from,
                    (FileConfigLayer { path, format },),
                    layer,
                ) && self.held() == before.held().push(layer)
        }
    }

    /// Adds a file as a layer, read and written in the format that the
    /// extension of its path names. A path whose extension names no format
    /// is an error, and nothing is added.
    pub fn add_file_layer(&mut self, name: &'static str, path: String) -> (r: Result<
        (),
        BakuninError,
    >)
        ensures
            match format_of(path@) {
                Some(format) => r is Ok && final(self).with_file(*old(self), name@, path, format),
                None => r is Err && (r->Err_0 matches BakuninError::ConfigLayerError(
                    ConfigLayerError::UnsupportedExtension(ext),
                ) && ext@ == reported_extension(path@)) && final(self).names() == old(self).names()
                    && final(self).held() == old(self).held(),
            },
    {
        match file_layer_format(path.as_str()) {
            Ok(format) => {
                self.push_layer(name, L::from(FileConfigLayer::new(path, format)));
                Ok(())
            },
            Err(e) => Err(e),
        }
    }

    /// As `add_file_layer`, on a configuration that is handed on.
    pub fn with_file_layer(self, name: &'static str, path: String) -> (r: Result<
        BakuninConfig<L>,
        BakuninError,
    >)
        ensures
            match format_of(path@) {
                Some(format) => r is Ok && r->Ok_0.with_file(self, name@, path, format),
                None => r is Err && (r->Err_0 matches BakuninError::ConfigLayerError(
                    ConfigLayerError::UnsupportedExtension(ext),
                ) && ext@ == reported_extension(path@)),
            },
    {
        let mut config = self;
        match config.add_file_layer(name, path) {
            Ok(_) => Ok(config),
            Err(e) => Err(e),
        }
    }
}

impl<L: ConfigLayer + From<EnvironmentConfigLayer>> BakuninConfig<L> {
    /// Whether a configuration is another with an environment layer for the
    /// prefix added under the name: with a known name nothing is added,
    /// else the name goes last, and with it the layer that is made of an
    /// environment layer for the prefix without the white space at its ends.
    pub open spec fn with_environment(
        self,
        before: BakuninConfig<L>,
        name: Seq<char>,
        prefix: Seq<char>,
    ) -> bool {
        if before.names().contains(name) {
            self.names() == before.names() && self.held() == before.held()
        } else {
            &&& self.names() == before.names().push(name)
            &&& exists|made: EnvironmentConfigLayer, layer: L|
                made.prefix@ == trimmed(prefix) && #[trigger] call_ensures(
                    <L as From<EnvironmentConfigLayer>>::from,
                    (made,),
                    layer,
                ) && self.held() == before.held().push(layer)
        }
    }

    /// Adds a layer that reads the variables of the environment under a
    /// prefix.
    pub fn add_environment_layer(&mut self, name: &'static str, prefix: &'static str)
        ensures
            final(self).with_environment(*old(self), name@, prefix@),
    {
        self.push_layer(name, L::from(EnvironmentConfigLayer::new(prefix)));
    }

    /// As `add_environment_layer`, on a configuration that is handed on.
    pub fn with_environment_layer(self, name: &'static str, prefix: &'static str) -> (config:
        BakuninConfig<L>)
        ensures
            config.with_environment(self, name@, prefix@),
    {
        let mut config = self;
        config.add_environment_layer(name, prefix);
        config
    }
}

} // verus!
