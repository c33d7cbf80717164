//! Identifiers of spectra in the GNPS library, such as `CCMSLIB00005463540`.
use vstd::prelude::*;
use crate::error::{ErrorKind, MgfError, fails_with};
use crate::text::{parse_usize, strip_prefix, usize_of};

verus! {

/// The number of a GNPS library spectrum.
#[derive(Clone, Copy, Debug, PartialEq, Eq, Structural, Hash)]
pub struct GNPSSpectrumID {
    id: usize,
}

/// The number that the identifier `s` holds: eighteen characters, `CCMSLIB` and then
/// the digits of the number.
pub open spec fn gnps_id_of(s: Seq<char>) -> Option<usize> {
    if s.len() == 18 && s.subrange(0, 7) == "CCMSLIB"@ {
        usize_of(s.subrange(7, 18))
    } else {
        None
    }
}

impl GNPSSpectrumID {
    /// The number of the spectrum.
    pub closed spec fn value(self) -> usize {
        self.id
    }

    /// Returns the number of the spectrum.
    pub fn id(&self) -> (r: usize)
        ensures
            r == self.value(),
    {
        self.id
    }

    /// The identifier with the number `id`.
    pub fn from_id(id: usize) -> (r: GNPSSpectrumID)
        ensures
            r.value() == id,
    {
        GNPSSpectrumID { id }
    }

    /// Reads an identifier such as `CCMSLIB00005463540`.
    pub fn from_str(s: &str) -> (r: Result<GNPSSpectrumID, MgfError>)
        ensures
            match gnps_id_of(s@) {
                Some(id) => r matches Ok(g) && g.value() == id,
                None => fails_with(r, ErrorKind::InvalidSpectrumId, s@),
            },
    {
        proof {
            reveal_strlit("CCMSLIB");
        }
        if s.unicode_len() != 18 {
            return Err(MgfError::new(ErrorKind::InvalidSpectrumId, s));
        }
        let rest = match strip_prefix(s, "CCMSLIB") {
            Some(rest) => rest,
            None => {
                return Err(MgfError::new(ErrorKind::InvalidSpectrumId, s));
            },
        };
        assert(rest@ =~= s@.subrange(7, 18));
        match parse_usize(rest) {
            Some(id) => Ok(GNPSSpectrumID { id }),
            None => Err(MgfError::new(ErrorKind::InvalidSpectrumId, s)),
        }
    }
}

impl From<usize> for GNPSSpectrumID {
    fn from(id: usize) -> (r: GNPSSpectrumID) {
        GNPSSpectrumID { id }
    }
}

impl vstd::std_specs::convert::FromSpecImpl<usize> for GNPSSpectrumID {
    closed spec fn obeys_from_spec() -> bool {
        true
    }

    closed spec fn from_spec(v: usize) -> GNPSSpectrumID {
        GNPSSpectrumID { id: v }
    }
}

} // verus!
