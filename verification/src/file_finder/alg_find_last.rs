use crate::file_finder::candidates::{last_present, lemma_last_present, present};
use crate::file_finder::error::FileFinderError;
use crate::file_finder::find_result::FindResult;
use crate::file_finder::finder::FileFinder;
use vstd::prelude::*;

verus! {

/// The place that a search for the last file gives: the last place whose
/// file is there; where none is there, the last place of all if missing
/// files are allowed.
pub open spec fn last_place(exists: Seq<bool>, count: int, allow_missing: bool) -> Option<int> {
    match last_present(exists, count) {
        Some(place) => Some(place),
        None => if allow_missing && count > 0 {
            Some(count - 1)
        } else {
            None
        },
    }
}

impl FileFinder {
    /// Finds the last file of the search. `exists` says for each candidate,
    /// in the order of `candidates`, whether the file is there.
    ///
    /// If no file is there and `allow_missing` is true, the last candidate
    /// is the result.
    pub fn find_last(&self, allow_missing: bool, exists: &Vec<bool>) -> (r: Result<
        FindResult,
        FileFinderError,
    >)
        requires
            self.searchable(),
        ensures
            match self.validate_spec() {
                Err(e) => r == Err::<FindResult, FileFinderError>(e),
                Ok(_) => match last_place(exists@, self.order().len() as int, allow_missing) {
                    Some(place) => r is Ok && self.reports(r->Ok_0, place, 0, exists@),
                    None => r == Err::<FindResult, FileFinderError>(FileFinderError::NoFilesFound),
                },
            },
    {
        match self.validate() {
            Ok(_) => {},
            Err(e) => {
                return Err(e);
            },
        }
        let list = self.candidates();
        proof {
            lemma_last_present(exists@, list@.len() as int);
        }
        let mut k: usize = list.len();
        while k > 0
            invariant
                self.validate_spec() is Ok,
                k <= list@.len(),
                list@.len() == self.order().len(),
                forall|j: int| 0 <= j < list@.len() ==> self.is_candidate(#[trigger] list@[j], j),
                forall|j: int| k <= j < list@.len() ==> !present(exists@, j),
                last_present(exists@, list@.len() as int) == last_present(exists@, k as int),
            decreases k,
        {
            k -= 1;
            if k < exists.len() && exists[k] {
                let candidate = &list[k];
                return Ok(FindResult::new(candidate.path.clone(), candidate.extension, true));
            }
        }
        if allow_missing && list.len() > 0 {
            let candidate = &list[list.len() - 1];
            return Ok(FindResult::new(candidate.path.clone(), candidate.extension, false));
        }
        Err(FileFinderError::NoFilesFound)
    }
}

} // verus!
