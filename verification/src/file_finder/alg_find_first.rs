use crate::file_finder::candidates::{first_present, lemma_first_present, present};
use crate::file_finder::error::FileFinderError;
use crate::file_finder::find_result::FindResult;
use crate::file_finder::finder::FileFinder;
use vstd::prelude::*;

verus! {

/// The place that a search for the first file gives: the first place whose
/// file is there; where none is there, the first place of all if missing
/// files are allowed.
pub open spec fn first_place(exists: Seq<bool>, count: int, allow_missing: bool) -> Option<int> {
    match first_present(exists, 0, count) {
        Some(place) => Some(place),
        None => if allow_missing && count > 0 {
            Some(0)
        } else {
            None
        },
    }
}

impl FileFinder {
    /// Finds the first file of the search. `exists` says for each candidate,
    /// in the order of `candidates`, whether the file is there.
    ///
    /// Folders are searched in the order they were defined, and for each
    /// folder the extensions in the order they were defined. If no file is
    /// there and `allow_missing` is true, the first candidate is the result.
    pub fn find_first(&self, allow_missing: bool, exists: &Vec<bool>) -> (r: Result<
        FindResult,
        FileFinderError,
    >)
        requires
            self.searchable(),
        ensures
            match self.validate_spec() {
                Err(e) => r == Err::<FindResult, FileFinderError>(e),
                Ok(_) => match first_place(exists@, self.order().len() as int, allow_missing) {
                    Some(place) => r is Ok && self.reports(r->Ok_0, place, 0, exists@),
                    None => r == Err::<FindResult, FileFinderError>(FileFinderError::NoFilesFound),
                },
            },
    {
        match self.validate() {
            Ok(_) => {},
            Err(e) => {
                return Err(e);
            },
        }
        let list = self.candidates();
        proof {
            lemma_first_present(exists@, 0, list@.len() as int);
        }
        let mut k: usize = 0;
        while k < list.len()
            invariant
                self.validate_spec() is Ok,
                k <= list@.len(),
                list@.len() == self.order().len(),
                forall|j: int| 0 <= j < list@.len() ==> self.is_candidate(#[trigger] list@[j], j),
                forall|j: int| 0 <= j < k ==> !present(exists@, j),
                first_present(exists@, 0, list@.len() as int) == first_present(
                    exists@,
                    k as int,
                    list@.len() as int,
                ),
            decreases list@.len() - k,
        {
            if k < exists.len() && exists[k] {
                let candidate = &list[k];
                return Ok(FindResult::new(candidate.path.clone(), candidate.extension, true));
            }
            k += 1;
        }
        if allow_missing && list.len() > 0 {
            let candidate = &list[0];
            return Ok(FindResult::new(candidate.path.clone(), candidate.extension, false));
        }
        Err(FileFinderError::NoFilesFound)
    }
}

} // verus!
