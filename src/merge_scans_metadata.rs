//! Provenance of a record whose spectrum merges several scans.
use vstd::prelude::*;
use crate::error::{ErrorKind, MgfError, fails_as};

verus! {

/// The scans merged into a record, and how many others were removed for low quality
/// or low cosine similarity.
#[derive(Clone, Debug)]
pub struct MergeScansMetadata {
    scans: Vec<usize>,
    removed_due_to_low_quality: usize,
    removed_due_to_low_cosine: usize,
}

impl MergeScansMetadata {
    /// The identifiers of the merged scans.
    pub closed spec fn scans_spec(self) -> Seq<usize> {
        self.scans@
    }

    /// The number of scans removed for low quality.
    pub closed spec fn low_quality_spec(self) -> usize {
        self.removed_due_to_low_quality
    }

    /// The number of scans removed for low cosine similarity.
    pub closed spec fn low_cosine_spec(self) -> usize {
        self.removed_due_to_low_cosine
    }

    /// Creates the provenance; there must be at least one scan.
    pub fn new(scans: Vec<usize>, removed_due_to_low_quality: usize, removed_due_to_low_cosine: usize) -> (r: Result<
        MergeScansMetadata,
        MgfError,
    >)
        ensures
            scans@.len() == 0 ==> fails_as(r, ErrorKind::NoScans),
            scans@.len() > 0 ==> (r matches Ok(m) && m.scans_spec() == scans@ && m.low_quality_spec()
                == removed_due_to_low_quality && m.low_cosine_spec() == removed_due_to_low_cosine),
    {
        if scans.len() == 0 {
            return Err(MgfError::of_kind(ErrorKind::NoScans));
        }
        Ok(MergeScansMetadata { scans, removed_due_to_low_quality, removed_due_to_low_cosine })
    }

    /// Returns the identifiers of the merged scans.
    pub fn scans(&self) -> (r: &[usize])
        ensures
            r@ == self.scans_spec(),
    {
        self.scans.as_slice()
    }

    /// Returns the number of scans removed for low quality.
    pub fn removed_due_to_low_quality(&self) -> (r: usize)
        ensures
            r == self.low_quality_spec(),
    {
        self.removed_due_to_low_quality
    }

    /// Returns the number of scans removed for low cosine similarity.
    pub fn removed_due_to_low_cosine(&self) -> (r: usize)
        ensures
            r == self.low_cosine_spec(),
    {
        self.removed_due_to_low_cosine
    }
}

} // verus!
