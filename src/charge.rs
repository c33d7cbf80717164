//! The charge of a parent ion.
use vstd::prelude::*;
use crate::error::{ErrorKind, MgfError, fails_with};
use crate::text::{
    CharClass, all_digits, digits_value, is_prefix_of, lemma_leading_bounds, parse_usize,
    strip_prefix, trim, trim_chars, trim_class, trim_spaces, contains_char, unsigned_digits,
};

verus! {

/// A charge: a small signed integer.
#[derive(Clone, Copy, Debug, PartialEq, Eq, Structural, Hash)]
pub struct Charge {
    charge: i8,
}

/// The charge written by the line `s`: `CHARGE=` and a magnitude from 1 to 4, with
/// signs allowed on either side of it; a `-` among those signs makes the charge
/// negative.
pub open spec fn charge_of(s: Seq<char>) -> Option<int> {
    let t = trim(s);
    if !is_prefix_of("CHARGE="@, t) {
        None
    } else {
        let v = t.subrange("CHARGE="@.len() as int, t.len() as int);
        let digits = trim_class(v, CharClass::Sign);
        if digits.len() > 0 && all_digits(digits) && 1 <= digits_value(digits) <= 4 {
            Some(
                if v.contains('-') {
                    -digits_value(digits)
                } else {
                    digits_value(digits)
                },
            )
        } else {
            None
        }
    }
}

/// A non-empty text trimmed of a class of characters begins with none of them.
pub proof fn lemma_trimmed_start(s: Seq<char>, cl: CharClass)
    ensures
        trim_class(s, cl).len() > 0 ==> !crate::text::in_class(cl, trim_class(s, cl)[0]),
{
    lemma_leading_bounds(s, cl);
    let t = s.subrange(crate::text::leading(s, cl), s.len() as int);
    crate::text::lemma_trailing_bounds(t, cl);
    if trim_class(s, cl).len() > 0 {
        assert(trim_class(s, cl)[0] == s[crate::text::leading(s, cl)]);
    }
}

impl Charge {
    /// The charge, as an integer.
    pub closed spec fn value(self) -> int {
        self.charge as int
    }

    /// Reads a line such as `CHARGE=2+`, `CHARGE=-1` or `CHARGE=4`.
    pub fn from_str(s: &str) -> (r: Result<Charge, MgfError>)
        ensures
            match charge_of(s@) {
                Some(c) => r matches Ok(ch) && ch.value() == c,
                None => fails_with(r, ErrorKind::InvalidCharge, s@),
            },
    {
        let t = trim_spaces(s);
        let v = match strip_prefix(t, "CHARGE=") {
            Some(v) => v,
            None => {
                return Err(MgfError::new(ErrorKind::InvalidCharge, s));
            },
        };
        assert(v@ == t@.subrange("CHARGE="@.len() as int, t@.len() as int));
        let digits = trim_chars(v, CharClass::Sign);
        proof {
            lemma_trimmed_start(v@, CharClass::Sign);
            assert(digits@.len() > 0 ==> unsigned_digits(digits@) == digits@);
        }
        let value = match parse_usize(digits) {
            Some(x) => x,
            None => {
                return Err(MgfError::new(ErrorKind::InvalidCharge, s));
            },
        };
        if value == 0 || value > 4 {
            return Err(MgfError::new(ErrorKind::InvalidCharge, s));
        }
        let magnitude = value as i8;
        if contains_char(v, '-') {
            Ok(Charge { charge: -magnitude })
        } else {
            Ok(Charge { charge: magnitude })
        }
    }

    /// The charge, as an integer.
    pub fn charge(&self) -> (r: i8)
        ensures
            r == self.value(),
    {
        self.charge
    }
}

impl From<i8> for Charge {
    fn from(charge: i8) -> (r: Charge) {
        Charge { charge }
    }
}

impl vstd::std_specs::convert::FromSpecImpl<i8> for Charge {
    open spec fn obeys_from_spec() -> bool {
        true
    }

    closed spec fn from_spec(v: i8) -> Charge {
        Charge { charge: v }
    }
}

} // verus!
