use crate::builder::files::handlers::{
    extend_with, supported_extensions, texts, Json5ConfigHandler, JsonConfigHandler,
    TomlConfigHandler, YamlConfigHandler,
};
use crate::file_finder::candidates::{first_present, kept, lemma_first_present, pairs};
use crate::paths::{join_path, joined};
use vstd::prelude::*;
use vstd::string::*;

verus! {

/// Locates configuration files in a list of folders, by a name and a list
/// of extensions.
#[derive(Debug)]
pub struct ConfigFileFinder {
    pub file_name: String,
    pub folders: Vec<String>,
    pub extensions: Vec<String>,
    /// Whether the extensions of all formats have been added already.
    pub add_supported_extensions: bool,
}

/// The name of a file: its stem, a dot and its extension.
pub open spec fn dotted(stem: Seq<char>, extension: Seq<char>) -> Seq<char> {
    stem + "."@ + extension
}

impl ConfigFileFinder {
    /// Whether the extensions of all formats have been added already.
    pub open spec fn supported_added(&self) -> bool {
        self.add_supported_extensions
    }

    /// The places of a search: pairs of a folder and an extension.
    pub open spec fn order(self) -> Seq<(int, int)> {
        pairs(self.folders@.len(), self.extensions@.len())
    }

    /// The path that a search looks at for a folder and an extension.
    pub open spec fn path_at(self, pair: (int, int)) -> Seq<char> {
        joined(self.folders@[pair.0]@, dotted(self.file_name@, self.extensions@[pair.1]@))
    }

    /// Whether a list of paths holds the paths at the given places of the
    /// search, one for one and in order.
    pub open spec fn paths_at(self, paths: Seq<String>, places: Seq<int>) -> bool {
        &&& paths.len() == places.len()
        &&& forall|i: int| 0 <= i < paths.len() ==> self.is_path(#[trigger] paths[i], places[i])
    }

    /// Whether a path is the one at a place of the search.
    pub open spec fn is_path(self, path: String, place: int) -> bool {
        0 <= place < self.order().len() && path@ == self.path_at(self.order()[place])
    }

    /// A finder for files of the given name in the given folders, with the
    /// given extensions.
    pub fn new(file_name: String, folders: Vec<String>, extensions: Vec<String>) -> (finder:
        ConfigFileFinder)
        ensures
            finder.file_name == file_name,
            finder.folders == folders,
            finder.extensions == extensions,
            !finder.supported_added(),
    {
        ConfigFileFinder { file_name, folders, extensions, add_supported_extensions: false }
    }

    /// A finder for files of the given name, with no folder and no
    /// extension yet.
    pub fn for_file(file_name: String) -> (finder: ConfigFileFinder)
        ensures
            finder.file_name == file_name,
            finder.folders@ == Seq::<String>::empty(),
            finder.extensions@ == Seq::<String>::empty(),
            !finder.supported_added(),
    {
        ConfigFileFinder {
            file_name,
            folders: Vec::new(),
            extensions: Vec::new(),
            add_supported_extensions: false,
        }
    }

    /// Also looks in the folder given.
    pub fn with_folder(self, folder: String) -> (finder: ConfigFileFinder)
        ensures
            finder.file_name == self.file_name,
            finder.extensions == self.extensions,
            finder.supported_added() == self.supported_added(),
            finder.folders@ == self.folders@.push(folder),
    {
        let mut finder = self;
        finder.folders.push(folder);
        finder
    }

    /// Also looks in the folders given.
    pub fn with_folders(self, folders: Vec<String>) -> (finder: ConfigFileFinder)
        ensures
            finder.file_name == self.file_name,
            finder.extensions == self.extensions,
            finder.supported_added() == self.supported_added(),
            texts(finder.folders@) == texts(self.folders@) + texts(folders@),
    {
        let mut finder = self;
        extend_with(&mut finder.folders, folders);
        finder
    }

    /// Also looks for the extension given.
    pub fn with_extension(self, extension: String) -> (finder: ConfigFileFinder)
        ensures
            finder.file_name == self.file_name,
            finder.folders == self.folders,
            finder.supported_added() == self.supported_added(),
            finder.extensions@ == self.extensions@.push(extension),
    {
        let mut finder = self;
        finder.extensions.push(extension);
        finder
    }

    /// Also looks for the extensions given.
    pub fn with_extensions(self, extensions: Vec<String>) -> (finder: ConfigFileFinder)
        ensures
            finder.file_name == self.file_name,
            finder.folders == self.folders,
            finder.supported_added() == self.supported_added(),
            texts(finder.extensions@) == texts(self.extensions@) + texts(extensions@),
    {
        let mut finder = self;
        extend_with(&mut finder.extensions, extensions);
        finder
    }

    /// Adds the extensions of all formats, once: a second call adds nothing.
    pub fn add_supported_extensions(&mut self)
        ensures
            final(self).file_name == old(self).file_name,
            final(self).folders == old(self).folders,
            final(self).supported_added(),
            texts(final(self).extensions@) == if old(self).supported_added() {
                texts(old(self).extensions@)
            } else {
                texts(old(self).extensions@) + supported_extensions()
            },
    {
        if self.add_supported_extensions {
            return ;
        }
        let mut extensions: Vec<String> = Vec::new();
        extend_with(&mut extensions, TomlConfigHandler::extensions());
        extend_with(&mut extensions, JsonConfigHandler::extensions());
        extend_with(&mut extensions, YamlConfigHandler::extensions());
        extend_with(&mut extensions, Json5ConfigHandler::extensions());
        assert(texts(extensions@) =~= supported_extensions());
        extend_with(&mut self.extensions, extensions);
        self.add_supported_extensions = true;
    }

    /// As `add_supported_extensions`, on a finder that is handed on.
    pub fn with_supported_extensions(self) -> (finder: ConfigFileFinder)
        ensures
            finder.file_name == self.file_name,
            finder.folders == self.folders,
            finder.supported_added(),
            texts(finder.extensions@) == if self.supported_added() {
                texts(self.extensions@)
            } else {
                texts(self.extensions@) + supported_extensions()
            },
    {
        let mut finder = self;
        finder.add_supported_extensions();
        finder
    }

    /// Every path that a search looks at, in the order of the search:
    /// folder by folder, and for each folder extension by extension.
    pub fn candidates(&self) -> (list: Vec<String>)
        ensures
            list@.len() == self.order().len(),
            forall|k: int|
                0 <= k < list@.len() ==> (#[trigger] list@[k])@ == self.path_at(self.order()[k]),
    {
        let mut list: Vec<String> = Vec::new();
        assert(pairs(0, self.extensions@.len()).len() == 0);
        let mut i: usize = 0;
        while i < self.folders.len()
            invariant
                i <= self.folders@.len(),
                list@.len() == pairs(i as nat, self.extensions@.len()).len(),
                forall|k: int|
                    0 <= k < list@.len() ==> (#[trigger] list@[k])@ == self.path_at(
                        pairs(i as nat, self.extensions@.len())[k],
                    ),
            decreases self.folders@.len() - i,
        {
            let ghost before = list@;
            let ghost row = Seq::new(self.extensions@.len(), |j: int| (i as int, j));
            let mut j: usize = 0;
            while j < self.extensions.len()
                invariant
                    i < self.folders@.len(),
                    j <= self.extensions@.len(),
                    before.len() == pairs(i as nat, self.extensions@.len()).len(),
                    forall|k: int|
                        0 <= k < before.len() ==> (#[trigger] before[k])@ == self.path_at(
                            pairs(i as nat, self.extensions@.len())[k],
                        ),
                    list@.len() == before.len() + j,
                    list@.take(before.len() as int) == before,
                    forall|k: int|
                        0 <= k < j ==> (#[trigger] list@[before.len() + k])@ == self.path_at(
                            (i as int, k),
                        ),
                decreases self.extensions@.len() - j,
            {
                let mut name = self.file_name.clone();
                name.append(".");
                name.append(self.extensions[j].as_str());
                let path = join_path(self.folders[i].as_str(), name.as_str());
                let ghost prior = list@;
                list.push(path);
                proof {
                    assert(list@.take(before.len() as int) =~= prior.take(before.len() as int));
                    assert forall|k: int| 0 <= k < j + 1 implies (#[trigger] list@[before.len()
                        + k])@ == self.path_at((i as int, k)) by {
                        if k < j {
                            assert(list@[before.len() + k] == prior[before.len() + k]);
                        }
                    }
                }
                j += 1;
            }
            proof {
                let next = pairs((i + 1) as nat, self.extensions@.len());
                assert(next == pairs(i as nat, self.extensions@.len()) + row);
                assert forall|k: int| 0 <= k < list@.len() implies (#[trigger] list@[k])@
                    == self.path_at(next[k]) by {
                    if k < before.len() {
                        assert(list@[k] == list@.take(before.len() as int)[k]);
                        assert(next[k] == pairs(i as nat, self.extensions@.len())[k]);
                        assert(before[k]@ == self.path_at(
                            pairs(i as nat, self.extensions@.len())[k],
                        ));
                    } else {
                        assert(next[k] == row[k - before.len()]);
                        assert(list@[before.len() + (k - before.len())] == list@[k]);
                    }
                }
            }
            i += 1;
        }
        list
    }

    /// The path of the first file of the search that is there. `exists`
    /// says for each candidate, in the order of `candidates`, whether the
    /// file is there.
    pub fn find(&self, exists: &Vec<bool>) -> (path: Option<String>)
        ensures
            match first_present(exists@, 0, self.order().len() as int) {
                Some(place) => path is Some && path->Some_0@ == self.path_at(self.order()[place]),
                None => path is None,
            },
    {
        let list = self.candidates();
        proof {
            lemma_first_present(exists@, 0, list@.len() as int);
        }
        let mut k: usize = 0;
        while k < list.len()
            invariant
                k <= list@.len(),
                list@.len() == self.order().len(),
                forall|j: int|
                    0 <= j < list@.len() ==> (#[trigger] list@[j])@ == self.path_at(
                        self.order()[j],
                    ),
                first_present(exists@, 0, list@.len() as int) == first_present(
                    exists@,
                    k as int,
                    list@.len() as int,
                ),
            decreases list@.len() - k,
        {
            if k < exists.len() && exists[k] {
                return Some(list[k].clone());
            }
            k += 1;
        }
        None
    }

    /// The paths of all files of the search that are there, in the order of
    /// the search.
    pub fn find_all(&self, exists: &Vec<bool>) -> (files: Vec<String>)
        ensures
            self.paths_at(files@, kept(exists@, self.order().len() as int, false)),
    {
        let list = self.candidates();
        let mut files: Vec<String> = Vec::new();
        let mut k: usize = 0;
        while k < list.len()
            invariant
                k <= list@.len(),
                list@.len() == self.order().len(),
                forall|j: int|
                    0 <= j < list@.len() ==> (#[trigger] list@[j])@ == self.path_at(
                        self.order()[j],
                    ),
                self.paths_at(files@, kept(exists@, k as int, false)),
            decreases list@.len() - k,
        {
            if k < exists.len() && exists[k] {
                let ghost before = files@;
                files.push(list[k].clone());
                proof {
                    let places = kept(exists@, k + 1, false);
                    assert(places == kept(exists@, k as int, false).push(k as int));
                    assert forall|i: int| 0 <= i < files@.len() implies self.is_path(
                        #[trigger] files@[i],
                        places[i],
                    ) by {
                        if i < before.len() {
                            assert(files@[i] == before[i]);
                        }
                    }
                }
            } else {
                assert(kept(exists@, k + 1, false) == kept(exists@, k as int, false));
            }
            k += 1;
        }
        files
    }

    /// The path of the first file that is there; where none is there, the
    /// path for the first folder and the first extension, if there are any.
    pub fn find_or_first(&self, exists: &Vec<bool>) -> (path: Option<String>)
        ensures
            match first_present(exists@, 0, self.order().len() as int) {
                Some(place) => path is Some && path->Some_0@ == self.path_at(self.order()[place]),
                None => if self.folders@.len() > 0 && self.extensions@.len() > 0 {
                    path is Some && path->Some_0@ == self.path_at((0, 0))
                } else {
                    path is None
                },
            },
    {
        match self.find(exists) {
            Some(path) => Some(path),
            None => {
                if self.folders.len() > 0 && self.extensions.len() > 0 {
                    let mut name = self.file_name.clone();
                    name.append(".");
                    name.append(self.extensions[0].as_str());
                    Some(join_path(self.folders[0].as_str(), name.as_str()))
                } else {
                    None
                }
            },
        }
    }
}

} // verus!
