use crate::file_finder::candidates::{kept, present};
use crate::file_finder::error::FileFinderError;
use crate::file_finder::find_result::FindResult;
use crate::file_finder::finder::FileFinder;
use vstd::prelude::*;

verus! {

/// The places that a search for all files, or else the first one, gives:
/// the places whose file is there; where none is there, the first place.
pub open spec fn all_or_first(exists: Seq<bool>, count: int) -> Seq<int> {
    if kept(exists, count, false).len() > 0 {
        kept(exists, count, false)
    } else if count > 0 {
        seq![0int]
    } else {
        Seq::empty()
    }
}

impl FileFinder {
    /// Finds all files of the search that are there. If none is there, the
    /// first candidate is the one result. `exists` says for each candidate,
    /// in the order of `candidates`, whether the file is there.
    pub fn find_all_or_first(&self, exists: &Vec<bool>) -> (r: Result<
        Vec<FindResult>,
        FileFinderError,
    >)
        requires
            self.searchable(),
            self.order().len() <= u16::MAX,
        ensures
            match self.validate_spec() {
                Err(e) => r == Err::<Vec<FindResult>, FileFinderError>(e),
                Ok(_) => {
                    let places = all_or_first(exists@, self.order().len() as int);
                    if places.len() == 0 {
                        r == Err::<Vec<FindResult>, FileFinderError>(FileFinderError::NoFilesFound)
                    } else {
                        r is Ok && self.reports_all(r->Ok_0@, places, exists@)
                    }
                },
            },
    {
        match self.validate() {
            Ok(_) => {},
            Err(e) => {
                return Err(e);
            },
        }
        let list = self.candidates();
        let mut files: Vec<FindResult> = Vec::new();
        let mut index: u16 = 0;
        let mut k: usize = 0;
        while k < list.len()
            invariant
                k <= list@.len(),
                list@.len() == self.order().len(),
                list@.len() <= u16::MAX,
                forall|j: int| 0 <= j < list@.len() ==> self.is_candidate(#[trigger] list@[j], j),
                index == files@.len(),
                files@.len() <= k,
                self.reports_all(files@, kept(exists@, k as int, false), exists@),
                files@.len() == 0 ==> forall|j: int| 0 <= j < k ==> !present(exists@, j),
            decreases list@.len() - k,
        {
            if k < exists.len() && exists[k] {
                let candidate = &list[k];
                let found = FindResult::new(
                    candidate.path.clone(),
                    candidate.extension,
                    true,
                ).with_index(index);
                let ghost before = files@;
                files.push(found);
                index += 1;
                proof {
                    let places = kept(exists@, k + 1, false);
                    assert(places == kept(exists@, k as int, false).push(k as int));
                    assert forall|i: int| 0 <= i < files@.len() implies self.reports(
                        #[trigger] files@[i],
                        places[i],
                        i,
                        exists@,
                    ) by {
                        if i < before.len() {
                            assert(files@[i] == before[i]);
                        }
                    }
                }
            }
            k += 1;
        }
        if files.len() == 0 {
            if list.len() > 0 {
                let candidate = &list[0];
                files.push(
                    FindResult::new(candidate.path.clone(), candidate.extension, false).with_index(
                        0,
                    ),
                );
            } else {
                return Err(FileFinderError::NoFilesFound);
            }
        }
        Ok(files)
    }
}

} // verus!
