use crate::file_finder::candidates::kept;
use crate::file_finder::error::FileFinderError;
use crate::file_finder::find_result::FindResult;
use crate::file_finder::finder::FileFinder;
use vstd::prelude::*;

verus! {

impl FileFinder {
    /// Whether a list of results reports the given places of the search, one
    /// for one and in order.
    pub open spec fn reports_all(
        self,
        results: Seq<FindResult>,
        places: Seq<int>,
        exists: Seq<bool>,
    ) -> bool {
        &&& results.len() == places.len()
        &&& forall|i: int|
            0 <= i < results.len() ==> self.reports(#[trigger] results[i], places[i], i, exists)
    }

    /// Finds all files of the search. `exists` says for each candidate, in
    /// the order of `candidates`, whether the file is there.
    ///
    /// If `allow_missing` is true, every candidate is a result, whether its
    /// file is there or not.
    pub fn find_all(&self, allow_missing: bool, exists: &Vec<bool>) -> (r: Result<
        Vec<FindResult>,
        FileFinderError,
    >)
        requires
            self.searchable(),
            self.order().len() <= u16::MAX,
        ensures
            match self.validate_spec() {
                Err(e) => r == Err::<Vec<FindResult>, FileFinderError>(e),
                Ok(_) => {
                    let places = kept(exists@, self.order().len() as int, allow_missing);
                    if places.len() == 0 {
                        r == Err::<Vec<FindResult>, FileFinderError>(FileFinderError::NoFilesFound)
                    } else {
                        r is Ok && self.reports_all(r->Ok_0@, places, exists@)
                    }
                },
            },
    {
        match self.validate() {
            Ok(_) => {},
            Err(e) => {
                return Err(e);
            },
        }
        let list = self.candidates();
        let mut files: Vec<FindResult> = Vec::new();
        let mut index: u16 = 0;
        let mut k: usize = 0;
        while k < list.len()
            invariant
                k <= list@.len(),
                list@.len() == self.order().len(),
                list@.len() <= u16::MAX,
                forall|j: int| 0 <= j < list@.len() ==> self.is_candidate(#[trigger] list@[j], j),
                index == files@.len(),
                files@.len() <= k,
                self.reports_all(files@, kept(exists@, k as int, allow_missing), exists@),
            decreases list@.len() - k,
        {
            let there = k < exists.len() && exists[k];
            if allow_missing || there {
                let candidate = &list[k];
                let found = FindResult::new(
                    candidate.path.clone(),
                    candidate.extension,
                    there,
                ).with_index(index);
                let ghost before = files@;
                files.push(found);
                index += 1;
                proof {
                    let places = kept(exists@, k + 1, allow_missing);
                    assert(places == kept(exists@, k as int, allow_missing).push(k as int));
                    assert forall|i: int| 0 <= i < files@.len() implies self.reports(
                        #[trigger] files@[i],
                        places[i],
                        i,
                        exists@,
                    ) by {
                        if i < before.len() {
                            assert(files@[i] == before[i]);
                        }
                    }
                }
            }
            k += 1;
        }
        if files.len() == 0 {
            return Err(FileFinderError::NoFilesFound);
        }
        Ok(files)
    }
}

} // verus!
