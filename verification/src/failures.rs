//! What a scan of an archive found to be broken.
use std::collections::BTreeSet;

use vstd::prelude::*;

verus! {

/// The broken parts of an archive.
#[derive(Debug)]
pub struct FailureTracker {
    /// Checkpoints with inconsistent files.
    pub checkpoints: BTreeSet<u32>,
    /// Paths of the files that could not be had.
    pub files: Vec<String>,
    /// Hashes of the buckets that could not be had.
    pub buckets: Vec<String>,
    /// Why the well-known file could not be had.
    pub well_known: Option<String>,
}

impl Default for FailureTracker {
    fn default() -> (failures: Self)
        ensures
            failures.checkpoints@ == Set::<u32>::empty(),
            failures.files@ == Seq::<String>::empty(),
            failures.buckets@ == Seq::<String>::empty(),
            failures.well_known is None,
    {
        Self {
            checkpoints: BTreeSet::new(),
            files: Vec::new(),
            buckets: Vec::new(),
            well_known: None,
        }
    }
}

impl FailureTracker {
    /// Whether nothing was found to be broken.
    pub fn is_empty(&self) -> (empty: bool)
        ensures
            empty <==> self.checkpoints@.is_empty() && self.files@.len() == 0 && self.buckets@.len()
                == 0 && self.well_known is None,
    {
        self.checkpoints.is_empty() && self.files.len() == 0 && self.buckets.len() == 0
            && self.well_known.is_none()
    }
}

} // verus!
