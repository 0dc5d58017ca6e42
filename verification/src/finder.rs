use vstd::prelude::*;

use crate::enumerate::{kept_records, list_windows, WindowProbe, WindowRecord};
use crate::errors::CaptureError;
use crate::text::{has_substring, str_contains, str_eq};

verus! {

/// The list of enumerated windows, looked up by title.
pub struct WindowFinder {
    pub windows: Vec<WindowRecord>,
}

impl WindowFinder {
    /// Builds the finder from the walk's outcome: the enumerated records of
    /// the kept probes, or the enumeration failure when the walk itself was
    /// aborted.
    pub fn new(walk_completed: bool, err: u32, probes: Vec<WindowProbe>) -> (r: Result<
        WindowFinder,
        CaptureError,
    >)
        ensures
            match r {
                Ok(f) => walk_completed && f.windows@ == kept_records(probes@),
                Err(e) => !walk_completed && e == CaptureError::EnumerationFailed(err),
            },
    {
        let windows = list_windows(walk_completed, err, probes)?;
        Ok(WindowFinder { windows })
    }

    /// The first enumerated record whose title contains `name` as a
    /// contiguous run of characters, or nothing when no title does.
    pub fn find(&self, name: &str) -> (r: Option<&WindowRecord>)
        ensures
            match r {
                Some(rec) => exists|i: int|
                    {
                        &&& 0 <= i < self.windows@.len()
                        &&& *rec == self.windows@[i]
                        &&& has_substring(#[trigger] self.windows@[i].title@, name@)
                        &&& forall|j: int|
                            0 <= j < i ==> !has_substring(
                                #[trigger] self.windows@[j].title@,
                                name@,
                            )
                    },
                None => forall|i: int|
                    0 <= i < self.windows@.len() ==> !has_substring(
                        #[trigger] self.windows@[i].title@,
                        name@,
                    ),
            },
    {
        let n: usize = self.windows.len();
        let mut i: usize = 0;
        while i < n
            invariant
                n == self.windows@.len(),
                i <= n,
                forall|j: int|
                    0 <= j < i ==> !has_substring(#[trigger] self.windows@[j].title@, name@),
            decreases n - i,
        {
            let rec = &self.windows[i];
            if str_contains(rec.title.as_str(), name) {
                return Some(rec);
            }
            i = i + 1;
        }
        None
    }

    /// The first enumerated record whose title equals `name` exactly, or
    /// nothing when no title does.
    pub fn find_exact(&self, name: &str) -> (r: Option<&WindowRecord>)
        ensures
            match r {
                Some(rec) => exists|i: int|
                    {
                        &&& 0 <= i < self.windows@.len()
                        &&& *rec == self.windows@[i]
                        &&& (#[trigger] self.windows@[i].title@) == name@
                        &&& forall|j: int|
                            0 <= j < i ==> (#[trigger] self.windows@[j].title@) != name@
                    },
                None => forall|i: int|
                    0 <= i < self.windows@.len() ==> (#[trigger] self.windows@[i].title@)
                        != name@,
            },
    {
        let n: usize = self.windows.len();
        let mut i: usize = 0;
        while i < n
            invariant
                n == self.windows@.len(),
                i <= n,
                forall|j: int| 0 <= j < i ==> (#[trigger] self.windows@[j].title@) != name@,
            decreases n - i,
        {
            let rec = &self.windows[i];
            if str_eq(rec.title.as_str(), name) {
                return Some(rec);
            }
            i = i + 1;
        }
        None
    }
}

} // verus!
