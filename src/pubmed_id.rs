//! PubMed identifiers, with the DOI that may come with them.
use vstd::prelude::*;
use crate::error::{ErrorKind, MgfError, fails_as};
use crate::text::{
    CharClass, in_class, is_prefix_of, leading, lemma_leading_bounds, parse_usize, skip_class,
    strip_prefix, trim, trim_spaces, usize_of,
};

verus! {

/// The text `s` in upper case, as `str::to_uppercase` gives it.
pub uninterp spec fn upper_of(s: Seq<char>) -> Seq<char>;

/// Relies on `str::to_uppercase`: its result depends on the characters of `s` alone.
#[verifier::external_body]
fn uppercase(s: &str) -> (r: String)
    ensures
        r@ == upper_of(s@),
{
    s.to_uppercase()
}

/// A PubMed identifier: a positive number, and maybe a DOI.
#[derive(Clone, Debug, PartialEq, Eq, Hash)]
pub struct PubMedID {
    id: usize,
    doi: Option<String>,
}

/// `w` without a trailing `.0`.
pub open spec fn without_point_zero(w: Seq<char>) -> Seq<char> {
    if w.len() >= 2 && w[w.len() - 2] == '.' && w[w.len() - 1] == '0' {
        w.subrange(0, w.len() - 2)
    } else {
        w
    }
}

/// The identifier and DOI after reading the word `w`: a number (maybe with a trailing
/// `.0`) is the identifier, which may be given once; `DOI:` and a non-empty text is the
/// DOI; other words are passed over.
pub open spec fn pubmed_word(
    id: usize,
    doi: Option<Seq<char>>,
    w: Seq<char>,
) -> Result<(usize, Option<Seq<char>>), ErrorKind> {
    let p = without_point_zero(w);
    match usize_of(p) {
        Some(v) => if id == 0 {
            Ok((v, doi))
        } else {
            Err(ErrorKind::InvalidPubMedId)
        },
        None => if is_prefix_of("DOI:"@, p) {
            let candidate = p.subrange("DOI:"@.len() as int, p.len() as int);
            if candidate.len() == 0 {
                Err(ErrorKind::InvalidPubMedId)
            } else {
                Ok((id, Some(candidate)))
            }
        } else {
            Ok((id, doi))
        },
    }
}

/// The identifier and DOI after reading the white-space separated words of `s`, one
/// after the other, from `id` and `doi`.
pub open spec fn pubmed_words(id: usize, doi: Option<Seq<char>>, s: Seq<char>) -> Result<
    (usize, Option<Seq<char>>),
    ErrorKind,
>
    decreases s.len(),
{
    let i = leading(s, CharClass::Space);
    let t = s.subrange(i, s.len() as int);
    let j = leading(t, CharClass::Word);
    if i < 0 || i >= s.len() || j <= 0 || j > t.len() {
        Ok((id, doi))
    } else {
        match pubmed_word(id, doi, t.subrange(0, j)) {
            Err(k) => Err(k),
            Ok((id2, doi2)) => pubmed_words(id2, doi2, t.subrange(j, t.len() as int)),
        }
    }
}

/// `s` without the prefix `p`, where it has it.
pub open spec fn drop_prefix(s: Seq<char>, p: Seq<char>) -> Seq<char> {
    if is_prefix_of(p, s) {
        s.subrange(p.len() as int, s.len() as int)
    } else {
        s
    }
}

/// The identifier and DOI that the upper-case text `u` holds: after an optional
/// `PUBMED=` and an optional `PMID:`, white-space separated words among which exactly
/// one non-zero number.
pub open spec fn pubmed_of(u: Seq<char>) -> Result<(usize, Option<Seq<char>>), ErrorKind> {
    let body = trim(drop_prefix(drop_prefix(u, "PUBMED="@), "PMID:"@));
    match pubmed_words(0, None, body) {
        Err(k) => Err(k),
        Ok((id, doi)) => if id == 0 {
            Err(ErrorKind::InvalidPubMedId)
        } else {
            Ok((id, doi))
        },
    }
}

/// The identifier and DOI that the text `s` holds, in any case: blank text holds
/// none; other text is read in upper case as [`pubmed_of`] says.
pub open spec fn pubmed_text_of(s: Seq<char>) -> Result<(usize, Option<Seq<char>>), ErrorKind> {
    if trim(s).len() == 0 {
        Err(ErrorKind::InvalidPubMedId)
    } else {
        pubmed_of(upper_of(trim(s)))
    }
}

fn drop_prefix_exec<'a>(s: &'a str, p: &str) -> (r: &'a str)
    ensures
        r@ == drop_prefix(s@, p@),
{
    match strip_prefix(s, p) {
        Some(rest) => {
            assert(rest@ =~= s@.subrange(p@.len() as int, s@.len() as int));
            rest
        },
        None => s,
    }
}

fn read_word<'a>(id: usize, doi: Option<&'a str>, w: &'a str) -> (r: Result<(usize, Option<&'a str>), ()>)
    requires
        w@.len() > 0,
    ensures
        match pubmed_word(id, opt_view(doi), w@) {
            Err(_) => r is Err,
            Ok((i, d)) => r matches Ok((x, y)) && x == i && opt_view(y) == d,
        },
{
    let n = w.unicode_len();
    let p = if n >= 2 && w.get_char(n - 2) == '.' && w.get_char(n - 1) == '0' {
        w.substring_char(0, n - 2)
    } else {
        w
    };
    match parse_usize(p) {
        Some(v) => {
            if id == 0 {
                Ok((v, doi))
            } else {
                Err(())
            }
        },
        None => match strip_prefix(p, "DOI:") {
            Some(candidate) => {
                assert(candidate@ =~= p@.subrange("DOI:"@.len() as int, p@.len() as int));
                if candidate.unicode_len() == 0 {
                    Err(())
                } else {
                    Ok((id, Some(candidate)))
                }
            },
            None => Ok((id, doi)),
        },
    }
}

/// The characters of an optional text.
pub open spec fn opt_view(o: Option<&str>) -> Option<Seq<char>> {
    match o {
        Some(s) => Some(s@),
        None => None,
    }
}

impl PubMedID {
    /// The number of the identifier.
    pub closed spec fn id_spec(self) -> usize {
        self.id
    }

    /// The DOI, if any.
    pub closed spec fn doi_spec(self) -> Option<Seq<char>> {
        match self.doi {
            Some(d) => Some(d@),
            None => None,
        }
    }

    /// Returns the number of the identifier.
    pub fn id(&self) -> (r: usize)
        ensures
            r == self.id_spec(),
    {
        self.id
    }

    /// Returns the DOI, if any.
    pub fn doi(&self) -> (r: Option<&str>)
        ensures
            opt_view(r) == self.doi_spec(),
    {
        match &self.doi {
            Some(d) => Some(d.as_str()),
            None => None,
        }
    }

    /// Creates an identifier: the number must not be zero, and a DOI must not be empty.
    pub fn new(id: usize, doi: Option<&str>) -> (r: Result<PubMedID, MgfError>)
        ensures
            id == 0 ==> fails_as(r, ErrorKind::ZeroPubMedId),
            id != 0 && (doi matches Some(d) && d@.len() == 0) ==> fails_as(r, ErrorKind::EmptyText),
            id != 0 && !(doi matches Some(d) && d@.len() == 0) ==> (r matches Ok(p) && p.id_spec()
                == id && p.doi_spec() == opt_view(doi)),
    {
        if id == 0 {
            return Err(MgfError::of_kind(ErrorKind::ZeroPubMedId));
        }
        match doi {
            Some(d) => {
                if d.unicode_len() == 0 {
                    return Err(MgfError::of_kind(ErrorKind::EmptyText));
                }
                Ok(PubMedID { id, doi: Some(d.to_owned()) })
            },
            None => Ok(PubMedID { id, doi: None }),
        }
    }

    /// Reads an identifier from upper-case text, such as `PUBMED=123456.0` or
    /// `PMID: 9873113  DOI:10.1016/S0040-4039(96)02163-6`.
    pub fn from_uppercase(u: &str) -> (r: Result<PubMedID, MgfError>)
        ensures
            match pubmed_of(u@) {
                Err(k) => fails_as(r, k),
                Ok((id, doi)) => r matches Ok(p) && p.id_spec() == id && p.doi_spec() == doi,
            },
    {
        let body = trim_spaces(drop_prefix_exec(drop_prefix_exec(u, "PUBMED="), "PMID:"));
        let mut id: usize = 0;
        let mut doi: Option<&str> = None;
        let mut rest: &str = body;
        let ghost whole = body@;
        loop
            invariant
                pubmed_words(0, None, whole) == pubmed_words(id, opt_view(doi), rest@),
                doi matches Some(d) ==> d@.len() > 0,
                whole == trim(drop_prefix(drop_prefix(u@, "PUBMED="@), "PMID:"@)),
            ensures
                pubmed_words(0, None, whole) == Ok::<(usize, Option<Seq<char>>), ErrorKind>(
                    (id, opt_view(doi)),
                ),
                doi matches Some(d) ==> d@.len() > 0,
            decreases rest@.len(),
        {
            let n = rest.unicode_len();
            let i = skip_class(rest, 0, CharClass::Space);
            assert(rest@.subrange(0, n as int) =~= rest@);
            if i >= n {
                break;
            }
            let t = rest.substring_char(i, n);
            let m = t.unicode_len();
            let j = skip_class(t, 0, CharClass::Word);
            assert(t@.subrange(0, m as int) =~= t@);
            proof {
                lemma_leading_bounds(rest@, CharClass::Space);
                assert(t@[0] == rest@[i as int]);
                assert(in_class(CharClass::Word, t@[0]));
                lemma_leading_bounds(t@, CharClass::Word);
                assert(leading(t@, CharClass::Word) >= 1);
            }
            let w = t.substring_char(0, j);
            match read_word(id, doi, w) {
                Err(()) => {
                    return Err(MgfError::new(ErrorKind::InvalidPubMedId, u));
                },
                Ok((new_id, new_doi)) => {
                    id = new_id;
                    doi = new_doi;
                },
            }
            rest = t.substring_char(j, m);
        }
        if id == 0 {
            return Err(MgfError::new(ErrorKind::InvalidPubMedId, u));
        }
        PubMedID::new(id, doi)
    }

    /// Reads an identifier, in any case, such as `PUBMED=123456`, `123456.0` or
    /// `PMID: 9873113  doi:10.1016/S0040-4039(96)02163-6`.
    pub fn from_str(s: &str) -> (r: Result<PubMedID, MgfError>)
        ensures
            match pubmed_text_of(s@) {
                Err(k) => fails_as(r, k),
                Ok((id, doi)) => r matches Ok(p) && p.id_spec() == id && p.doi_spec() == doi,
            },
    {
        let t = trim_spaces(s);
        if t.unicode_len() == 0 {
            return Err(MgfError::new(ErrorKind::InvalidPubMedId, s));
        }
        let u = uppercase(t);
        PubMedID::from_uppercase(u.as_str())
    }
}

} // verus!
