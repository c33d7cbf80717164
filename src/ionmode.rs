//! The ion mode of an acquisition.
use vstd::prelude::*;
use crate::error::{ErrorKind, MgfError, fails_with};
use crate::text::{eq_ignoring_ascii_case, is_prefix_of, same_ignoring_ascii_case, strip_prefix, text_eq, trim, trim_spaces};

verus! {

/// The polarity in which ions were acquired.
#[derive(Clone, Copy, Debug, PartialEq, Eq, Structural, Hash)]
pub enum IonMode {
    Positive,
    Negative,
}

/// The ion mode that the text `s` names: once trimmed, and after an optional
/// `IONMODE=`, `positive` or `negative` in any ASCII case.
pub open spec fn ion_mode_of(s: Seq<char>) -> Option<IonMode> {
    let t = trim(s);
    let v = if is_prefix_of("IONMODE="@, t) {
        t.subrange("IONMODE="@.len() as int, t.len() as int)
    } else {
        t
    };
    if same_ignoring_ascii_case(v, "positive"@) {
        Some(IonMode::Positive)
    } else if same_ignoring_ascii_case(v, "negative"@) {
        Some(IonMode::Negative)
    } else {
        None
    }
}

impl IonMode {
    /// Reads an ion mode: `positive` or `negative` in any case, each also after
    /// `IONMODE=`.
    pub fn from_str(s: &str) -> (r: Result<IonMode, MgfError>)
        ensures
            match ion_mode_of(s@) {
                Some(m) => r == Ok::<IonMode, MgfError>(m),
                None => fails_with(r, ErrorKind::InvalidIonMode, s@),
            },
    {
        let t = trim_spaces(s);
        let v = match strip_prefix(t, "IONMODE=") {
            Some(v) => {
                assert(v@ =~= t@.subrange("IONMODE="@.len() as int, t@.len() as int));
                v
            },
            None => t,
        };
        if eq_ignoring_ascii_case(v, "positive") {
            Ok(IonMode::Positive)
        } else if eq_ignoring_ascii_case(v, "negative") {
            Ok(IonMode::Negative)
        } else {
            Err(MgfError::new(ErrorKind::InvalidIonMode, s))
        }
    }

    /// Returns whether `s` is the marker `N/A`, which stands for an unknown ion mode.
    pub fn is_nan_ion_mode_from_str(s: &str) -> (r: bool)
        ensures
            r == (s@ == "N/A"@),
    {
        text_eq(s, "N/A")
    }
}

} // verus!
