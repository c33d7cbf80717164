//! The fragmentation level of a spectrum.
use vstd::prelude::*;
use crate::error::{ErrorKind, MgfError, fails_with};
use crate::text::text_eq;

verus! {

/// The fragmentation level of a spectrum: the precursor (one) or its fragments (two).
#[derive(Clone, Copy, Debug, PartialEq, Eq, Structural, PartialOrd, Ord, Hash)]
pub enum FragmentationSpectraLevel {
    One,
    Two,
}

impl FragmentationSpectraLevel {
    /// Reads the line `MSLEVEL=1` or `MSLEVEL=2`.
    pub fn from_str(s: &str) -> (r: Result<FragmentationSpectraLevel, MgfError>)
        ensures
            s@ == "MSLEVEL=1"@ ==> r matches Ok(FragmentationSpectraLevel::One),
            s@ == "MSLEVEL=2"@ ==> r matches Ok(FragmentationSpectraLevel::Two),
            s@ != "MSLEVEL=1"@ && s@ != "MSLEVEL=2"@ ==> fails_with(r, ErrorKind::InvalidLevel, s@),
    {
        proof {
            reveal_strlit("MSLEVEL=1");
            reveal_strlit("MSLEVEL=2");
            assert("MSLEVEL=1"@[8] != "MSLEVEL=2"@[8]);
        }
        if text_eq(s, "MSLEVEL=1") {
            Ok(FragmentationSpectraLevel::One)
        } else if text_eq(s, "MSLEVEL=2") {
            Ok(FragmentationSpectraLevel::Two)
        } else {
            Err(MgfError::new(ErrorKind::InvalidLevel, s))
        }
    }
}

} // verus!
