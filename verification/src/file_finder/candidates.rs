use crate::file_finder::file_extension::extension_named;
use crate::file_finder::find_result::FindResult;
use crate::file_finder::finder::FileFinder;
use crate::paths::{join_path, joined, set_extension, with_extension};
use vstd::prelude::*;
use vstd::string::*;

verus! {

/// A path that a search looks at, with the extension that gave it.
#[derive(Debug, Clone)]
pub struct Candidate {
    pub path: String,
    pub extension: &'static str,
}

/// The pairs of a folder and an extension, by their positions, in the order
/// of a search: folder by folder, and for each folder extension by extension.
pub open spec fn pairs(folders: nat, extensions: nat) -> Seq<(int, int)>
    decreases folders,
{
    if folders == 0 {
        Seq::empty()
    } else {
        pairs((folders - 1) as nat, extensions) + Seq::new(
            extensions,
            |j: int| ((folders - 1) as int, j),
        )
    }
}

/// Whether the file at a place of the search was reported as being there.
/// A place without a report counts as not there.
pub open spec fn present(exists: Seq<bool>, place: int) -> bool {
    0 <= place < exists.len() && exists[place]
}

/// The first place from `from` on, below `count`, whose file is there.
pub open spec fn first_present(exists: Seq<bool>, from: int, count: int) -> Option<int>
    decreases count - from,
{
    if from >= count {
        None
    } else if present(exists, from) {
        Some(from)
    } else {
        first_present(exists, from + 1, count)
    }
}

/// The last place below `count` whose file is there.
pub open spec fn last_present(exists: Seq<bool>, count: int) -> Option<int>
    decreases count,
{
    if count <= 0 {
        None
    } else if present(exists, count - 1) {
        Some(count - 1)
    } else {
        last_present(exists, count - 1)
    }
}

/// The places below `count` that a search for all files keeps, in order:
/// every place where missing files are allowed, else those whose file is there.
pub open spec fn kept(exists: Seq<bool>, count: int, allow_missing: bool) -> Seq<int>
    decreases count,
{
    if count <= 0 {
        Seq::empty()
    } else if allow_missing || present(exists, count - 1) {
        kept(exists, count - 1, allow_missing).push(count - 1)
    } else {
        kept(exists, count - 1, allow_missing)
    }
}

/// `first_present` gives a place whose file is there, with none before it
/// from `from` on; it gives none only where no file from `from` on is there.
pub proof fn lemma_first_present(exists: Seq<bool>, from: int, count: int)
    ensures
        match first_present(exists, from, count) {
            Some(k) => from <= k < count && present(exists, k) && forall|j: int|
                from <= j < k ==> !present(exists, j),
            None => forall|j: int| from <= j < count ==> !present(exists, j),
        },
    decreases count - from,
{
    if from < count && !present(exists, from) {
        lemma_first_present(exists, from + 1, count);
    }
}

/// `last_present` gives a place whose file is there, with none behind it;
/// it gives none only where no file is there.
pub proof fn lemma_last_present(exists: Seq<bool>, count: int)
    ensures
        match last_present(exists, count) {
            Some(k) => 0 <= k < count && present(exists, k) && forall|j: int|
                k < j < count ==> !present(exists, j),
            None => forall|j: int| 0 <= j < count ==> !present(exists, j),
        },
    decreases count,
{
    if count > 0 && !present(exists, count - 1) {
        lemma_last_present(exists, count - 1);
    }
}

impl FileFinder {
    /// The places of a search: pairs of a folder and an extension.
    pub open spec fn order(self) -> Seq<(int, int)> {
        pairs(self.folders@.len(), self.extensions@.len())
    }

    /// The path that a search looks at for a folder and an extension: the
    /// file name in the folder, with the extension set.
    pub open spec fn path_at(self, pair: (int, int)) -> Seq<char> {
        with_extension(joined(self.folders@[pair.0]@, self.file_name@), self.extensions@[pair.1]@)
    }

    /// Whether a candidate is the one for a folder below `limit` and an
    /// extension, given by their positions.
    pub open spec fn fits(self, candidate: Candidate, pair: (int, int), limit: int) -> bool {
        &&& 0 <= pair.0 < limit
        &&& 0 <= pair.1 < self.extensions@.len()
        &&& candidate.path@ == self.path_at(pair)
        &&& candidate.extension == self.extensions@[pair.1]
    }

    /// Whether a candidate is the one at a place of the search.
    pub open spec fn is_candidate(self, candidate: Candidate, place: int) -> bool {
        &&& 0 <= place < self.order().len()
        &&& candidate.path@ == self.path_at(self.order()[place])
        &&& candidate.extension == self.extensions@[self.order()[place].1]
    }

    /// Whether a result reports the candidate at a place of the search, at
    /// the given position among the results.
    pub open spec fn reports(
        self,
        found: FindResult,
        place: int,
        index: int,
        exists: Seq<bool>,
    ) -> bool {
        &&& 0 <= place < self.order().len()
        &&& found.path@ == self.path_at(self.order()[place])
        &&& found.extension == extension_named(self.extensions@[self.order()[place].1])
        &&& found.index == index
        &&& found.exists == present(exists, place)
    }

    /// Every path that a search looks at, in the order of the search.
    pub fn candidates(&self) -> (list: Vec<Candidate>)
        requires
            self.searchable(),
        ensures
            list@.len() == self.order().len(),
            forall|k: int| 0 <= k < list@.len() ==> self.is_candidate(#[trigger] list@[k], k),
    {
        assert(pairs(0, self.extensions@.len()).len() == 0);
        let mut list: Vec<Candidate> = Vec::new();
        let mut i: usize = 0;
        while i < self.folders.len()
            invariant
                self.searchable(),
                i <= self.folders@.len(),
                list@.len() == pairs(i as nat, self.extensions@.len()).len(),
                forall|k: int|
                    0 <= k < list@.len() ==> self.fits(
                        #[trigger] list@[k],
                        pairs(i as nat, self.extensions@.len())[k],
                        i as int,
                    ),
            decreases self.folders@.len() - i,
        {
            let base = join_path(self.folders[i].as_str(), self.file_name);
            let ghost before = list@;
            let ghost row = Seq::new(self.extensions@.len(), |j: int| (i as int, j));
            let mut j: usize = 0;
            while j < self.extensions.len()
                invariant
                    self.plain_extensions(),
                    i < self.folders@.len(),
                    j <= self.extensions@.len(),
                    base@ == joined(self.folders@[i as int]@, self.file_name@),
                    before.len() == pairs(i as nat, self.extensions@.len()).len(),
                    forall|k: int|
                        0 <= k < before.len() ==> self.fits(
                            #[trigger] before[k],
                            pairs(i as nat, self.extensions@.len())[k],
                            i as int,
                        ),
                    list@.len() == before.len() + j,
                    list@.take(before.len() as int) == before,
                    forall|k: int|
                        0 <= k < j ==> (#[trigger] list@[before.len() + k]).path@ == self.path_at(
                            (i as int, k),
                        ) && list@[before.len() + k].extension == self.extensions@[k],
                decreases self.extensions@.len() - j,
            {
                let ext = self.extensions[j];
                let path = set_extension(base.as_str(), ext);
                let ghost prior = list@;
                list.push(Candidate { path, extension: ext });
                proof {
                    assert(list@.take(before.len() as int) =~= prior.take(before.len() as int));
                    assert forall|k: int| 0 <= k < j + 1 implies (#[trigger] list@[before.len()
                        + k]).path@ == self.path_at((i as int, k)) && list@[before.len()
                        + k].extension == self.extensions@[k] by {
                        if k < j {
                            assert(list@[before.len() + k] == prior[before.len() + k]);
                        }
                    }
                }
                j += 1;
            }
            proof {
                let next = pairs((i + 1) as nat, self.extensions@.len());
                assert(next == pairs(i as nat, self.extensions@.len()) + row);
                assert forall|k: int| 0 <= k < list@.len() implies self.fits(
                    #[trigger] list@[k],
                    next[k],
                    i + 1,
                ) by {
                    if k < before.len() {
                        assert(list@[k] == list@.take(before.len() as int)[k]);
                        assert(next[k] == pairs(i as nat, self.extensions@.len())[k]);
                        assert(self.fits(before[k], pairs(i as nat, self.extensions@.len())[k], i as int));
                    } else {
                        assert(next[k] == row[k - before.len()]);
                        assert(list@[before.len() + (k - before.len())] == list@[k]);
                    }
                }
            }
            i += 1;
        }
        list
    }
}

} // verus!
