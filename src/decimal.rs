//! Exact decimal quantities (masses, intensities, retention times, tolerances),
//! held as a whole number of units of 10^-12.
use vstd::prelude::*;
use crate::text::{digit_value, is_digit};

verus! {

/// Number of decimal places that a [`Decimal`] holds exactly.
pub const DECIMAL_PLACES: i128 = 12;

/// Largest magnitude of a [`Decimal`], in units of 10^-12.
pub const MAX_UNITS: i128 = 1_000_000_000_000_000_000_000_000_000_000;

/// Largest value of the digit string of a number (its digits read as one integer,
/// the decimal point left out).
pub const MAX_MANTISSA: u128 = 1_000_000_000_000_000_000_000_000_000_000;

/// Largest magnitude of the exponent written after `e` or `E`.
pub const MAX_EXPONENT: u32 = 999;

/// Why a text is not a decimal number.
#[derive(Clone, Copy, Debug, PartialEq, Eq, Structural)]
pub enum NumberError {
    /// The text is the not-a-number marker `nan` (in any case).
    NotANumber,
    /// The text is not a decimal number.
    Malformed,
    /// The number is too large, or has more digits than a [`Decimal`] can read.
    Unrepresentable,
}

/// A decimal quantity with twelve decimal places.
#[derive(Clone, Copy, Debug, PartialEq, Eq, Structural)]
pub struct Decimal {
    units: i128,
}

impl Decimal {
    #[verifier::type_invariant]
    spec fn bounded(self) -> bool {
        -MAX_UNITS <= self.units <= MAX_UNITS
    }

    /// The quantity, in units of 10^-12.
    pub closed spec fn value(self) -> int {
        self.units as int
    }

    /// The decimal holding `units` units of 10^-12, where that is within the bounds.
    pub fn from_units(units: i128) -> (r: Option<Decimal>)
        ensures
            r is Some <==> -MAX_UNITS <= units <= MAX_UNITS,
            r matches Some(d) ==> d.value() == units,
    {
        if -MAX_UNITS <= units && units <= MAX_UNITS {
            Some(Decimal { units })
        } else {
            None
        }
    }

    /// The quantity, in units of 10^-12.
    pub fn units(&self) -> (r: i128)
        ensures
            r == self.value(),
            -MAX_UNITS <= r <= MAX_UNITS,
    {
        proof {
            use_type_invariant(self);
        }
        self.units
    }

    /// Parses a decimal number: an optional sign, digits with at most one decimal
    /// point, and an optional exponent (`e` or `E`, an optional sign, digits). Digits
    /// below 10^-12 are rounded to the nearest unit, halves away from zero.
    pub fn parse(s: &str) -> (r: Result<Decimal, NumberError>)
        ensures
            match decimal_of(s@) {
                Ok(v) => r matches Ok(d) && d.value() == v,
                Err(e) => r == Err::<Decimal, NumberError>(e),
            },
    {
        if is_nan_marker(s) {
            return Err(NumberError::NotANumber);
        }
        let n = s.unicode_len();
        let mut sc = Scanner {
            phase: ScanPhase::Start,
            negative: false,
            mantissa: 0,
            fraction_digits: 0,
            exponent_negative: false,
            exponent: 0,
        };
        let mut i: usize = 0;
        assert(s@.subrange(0, 0) =~= Seq::<char>::empty());
        while i < n
            invariant
                n == s@.len(),
                i <= n,
                sc.tracks(scan(s@.subrange(0, i as int))),
                sc.fraction_digits <= i,
            decreases n - i,
        {
            let c = s.get_char(i);
            let ghost before = scan(s@.subrange(0, i as int));
            assert(s@.subrange(0, i + 1).drop_last() =~= s@.subrange(0, i as int));
            sc.advance(c, Ghost(before));
            i += 1;
        }
        assert(s@.subrange(0, n as int) =~= s@);
        let ghost st = scan(s@);
        if !sc.is_complete() {
            return Err(NumberError::Malformed);
        }
        if sc.mantissa > MAX_MANTISSA || sc.exponent > MAX_EXPONENT {
            return Err(NumberError::Unrepresentable);
        }
        let exponent: i128 = if sc.exponent_negative {
            -(sc.exponent as i128)
        } else {
            sc.exponent as i128
        };
        let shift: i128 = DECIMAL_PLACES - (sc.fraction_digits as i128) + exponent;
        assert(shift == exponent_shift(st));
        let mut m: u128 = sc.mantissa;
        if shift >= 0 {
            let mut j: i128 = 0;
            while j < shift
                invariant
                    0 <= j <= shift,
                    st == scan(s@),
                    !is_nan_text(s@),
                    is_complete(st),
                    st.mantissa <= MAX_MANTISSA,
                    st.exponent <= MAX_EXPONENT,
                    shift == exponent_shift(st),
                    m <= MAX_UNITS,
                    scale_up(st.mantissa, shift as nat) == scale_up(m as int, (shift - j) as nat),
                decreases shift - j,
            {
                if m > (MAX_UNITS as u128) / 10 {
                    proof {
                        lemma_scale_up_grows(10 * m, (shift - j - 1) as nat);
                    }
                    return Err(NumberError::Unrepresentable);
                }
                m = m * 10;
                j += 1;
            }
        } else {
            let k: i128 = -shift;
            let mut p: u128 = 1;
            let mut j: i128 = 0;
            while j < k && p <= MAX_MANTISSA
                invariant
                    0 <= j <= k,
                    p == pow10(j as nat),
                    p <= 10 * MAX_MANTISSA,
                decreases k - j,
            {
                p = p * 10;
                j += 1;
            }
            let ghost big = pow10(k as nat);
            if j < k {
                proof {
                    lemma_pow10_grows((j + 1) as nat, k as nat);
                    vstd::arithmetic::div_mod::lemma_small_mod(m as nat, big as nat);
                    vstd::arithmetic::div_mod::lemma_small_div_converse(m as int, big);
                    assert(m as int / big == 0) by {
                        vstd::arithmetic::div_mod::lemma_basic_div(m as int, big);
                    }
                }
                m = 0;
            } else {
                proof {
                    lemma_pow10_grows(0, j as nat);
                }
                let q = m / p;
                let r = m % p;
                proof {
                    assert(q <= m) by {
                        vstd::arithmetic::div_mod::lemma_div_is_ordered_by_denominator(m as int, 1, p as int);
                    }
                }
                m = if 2 * r >= p {
                    q + 1
                } else {
                    q
                };
            }
        }
        if m > MAX_UNITS as u128 {
            return Err(NumberError::Unrepresentable);
        }
        let units: i128 = if sc.negative {
            -(m as i128)
        } else {
            m as i128
        };
        Ok(Decimal { units })
    }
}

/// How far a [`scan`] of a number has come.
#[derive(Clone, Copy, Debug, PartialEq, Eq, Structural)]
pub enum ScanPhase {
    /// Nothing read yet.
    Start,
    /// A sign read, no digit yet.
    Signed,
    /// Digits of the whole part read.
    Whole,
    /// A decimal point read, with no digit before it.
    Point,
    /// Digits read, and a decimal point.
    Fraction,
    /// The exponent mark read.
    ExponentMark,
    /// The exponent mark and a sign read.
    ExponentSign,
    /// Digits of the exponent read.
    Exponent,
    /// The text is no number.
    Invalid,
}

/// What a left-to-right reading of a number has gathered.
pub struct NumberScan {
    pub phase: ScanPhase,
    pub negative: bool,
    /// The digits read so far, as one integer.
    pub mantissa: int,
    /// How many of those digits stand after the decimal point.
    pub fraction_digits: int,
    pub exponent_negative: bool,
    pub exponent: int,
}

/// The state before any character.
pub open spec fn scan_start() -> NumberScan {
    NumberScan {
        phase: ScanPhase::Start,
        negative: false,
        mantissa: 0,
        fraction_digits: 0,
        exponent_negative: false,
        exponent: 0,
    }
}

/// `st` in phase `p`.
pub open spec fn in_phase(st: NumberScan, p: ScanPhase) -> NumberScan {
    NumberScan { phase: p, ..st }
}

/// `st` with the digit `c` appended to the mantissa, in phase `p`.
pub open spec fn with_digit(st: NumberScan, c: char, p: ScanPhase, fractional: bool) -> NumberScan {
    NumberScan {
        phase: p,
        mantissa: 10 * st.mantissa + digit_value(c),
        fraction_digits: if fractional { st.fraction_digits + 1 } else { st.fraction_digits },
        ..st
    }
}

/// `st` with the digit `c` appended to the exponent.
pub open spec fn with_exponent_digit(st: NumberScan, c: char) -> NumberScan {
    NumberScan { phase: ScanPhase::Exponent, exponent: 10 * st.exponent + digit_value(c), ..st }
}

pub open spec fn is_exponent_mark(c: char) -> bool {
    c == 'e' || c == 'E'
}

/// One step of the reading of a number: the state after `c`.
pub open spec fn scan_step(st: NumberScan, c: char) -> NumberScan {
    match st.phase {
        ScanPhase::Start => if c == '+' || c == '-' {
            NumberScan { phase: ScanPhase::Signed, negative: c == '-', ..st }
        } else if is_digit(c) {
            with_digit(st, c, ScanPhase::Whole, false)
        } else if c == '.' {
            in_phase(st, ScanPhase::Point)
        } else {
            in_phase(st, ScanPhase::Invalid)
        },
        ScanPhase::Signed => if is_digit(c) {
            with_digit(st, c, ScanPhase::Whole, false)
        } else if c == '.' {
            in_phase(st, ScanPhase::Point)
        } else {
            in_phase(st, ScanPhase::Invalid)
        },
        ScanPhase::Whole => if is_digit(c) {
            with_digit(st, c, ScanPhase::Whole, false)
        } else if c == '.' {
            in_phase(st, ScanPhase::Fraction)
        } else if is_exponent_mark(c) {
            in_phase(st, ScanPhase::ExponentMark)
        } else {
            in_phase(st, ScanPhase::Invalid)
        },
        ScanPhase::Point => if is_digit(c) {
            with_digit(st, c, ScanPhase::Fraction, true)
        } else {
            in_phase(st, ScanPhase::Invalid)
        },
        ScanPhase::Fraction => if is_digit(c) {
            with_digit(st, c, ScanPhase::Fraction, true)
        } else if is_exponent_mark(c) {
            in_phase(st, ScanPhase::ExponentMark)
        } else {
            in_phase(st, ScanPhase::Invalid)
        },
        ScanPhase::ExponentMark => if c == '+' || c == '-' {
            NumberScan { phase: ScanPhase::ExponentSign, exponent_negative: c == '-', ..st }
        } else if is_digit(c) {
            with_exponent_digit(st, c)
        } else {
            in_phase(st, ScanPhase::Invalid)
        },
        ScanPhase::ExponentSign | ScanPhase::Exponent => if is_digit(c) {
            with_exponent_digit(st, c)
        } else {
            in_phase(st, ScanPhase::Invalid)
        },
        ScanPhase::Invalid => st,
    }
}

/// The reading of the whole text `s`, left to right.
pub open spec fn scan(s: Seq<char>) -> NumberScan
    decreases s.len(),
{
    if s.len() == 0 {
        scan_start()
    } else {
        scan_step(scan(s.drop_last()), s.last())
    }
}

/// Whether a reading ends on a complete number.
pub open spec fn is_complete(st: NumberScan) -> bool {
    st.phase == ScanPhase::Whole || st.phase == ScanPhase::Fraction || st.phase
        == ScanPhase::Exponent
}

/// `m` times 10 to the power `n`.
pub open spec fn scale_up(m: int, n: nat) -> int
    decreases n,
{
    if n == 0 {
        m
    } else {
        scale_up(10 * m, (n - 1) as nat)
    }
}

/// 10 to the power `n`.
pub open spec fn pow10(n: nat) -> int
    decreases n,
{
    if n == 0 {
        1
    } else {
        10 * pow10((n - 1) as nat)
    }
}

/// `m` divided by 10 to the power `n`, rounded to the nearest whole number (halves
/// away from zero).
pub open spec fn round_down_by(m: int, n: nat) -> int {
    m / pow10(n) + if 2 * (m % pow10(n)) >= pow10(n) {
        1int
    } else {
        0int
    }
}

/// Powers of ten are positive and grow with the exponent.
pub proof fn lemma_pow10_grows(a: nat, b: nat)
    requires
        a <= b,
    ensures
        0 < pow10(a) <= pow10(b),
    decreases b,
{
    if b > a {
        lemma_pow10_grows(a, (b - 1) as nat);
    } else if b > 0 {
        lemma_pow10_grows((b - 1) as nat, (b - 1) as nat);
    }
}

/// The power of ten by which the mantissa is scaled to give units of 10^-12.
pub open spec fn exponent_shift(st: NumberScan) -> int {
    DECIMAL_PLACES - st.fraction_digits + if st.exponent_negative {
        -st.exponent
    } else {
        st.exponent
    }
}

/// The magnitude of the number read, in units of 10^-12, rounded to the nearest unit.
pub open spec fn magnitude_of(st: NumberScan) -> int {
    let k = exponent_shift(st);
    if k >= 0 {
        scale_up(st.mantissa, k as nat)
    } else {
        round_down_by(st.mantissa, (-k) as nat)
    }
}

/// Whether `s` is the not-a-number marker `nan`, in any case.
pub open spec fn is_nan_text(s: Seq<char>) -> bool {
    &&& s.len() == 3
    &&& (s[0] == 'n' || s[0] == 'N')
    &&& (s[1] == 'a' || s[1] == 'A')
    &&& (s[2] == 'n' || s[2] == 'N')
}

/// The number written by `s`, in units of 10^-12, or why there is none.
pub open spec fn decimal_of(s: Seq<char>) -> Result<int, NumberError> {
    let st = scan(s);
    if is_nan_text(s) {
        Err(NumberError::NotANumber)
    } else if !is_complete(st) {
        Err(NumberError::Malformed)
    } else if st.mantissa > MAX_MANTISSA || st.exponent > MAX_EXPONENT {
        Err(NumberError::Unrepresentable)
    } else {
        let m = magnitude_of(st);
        if m > MAX_UNITS {
            Err(NumberError::Unrepresentable)
        } else if st.negative {
            Ok(-m)
        } else {
            Ok(m)
        }
    }
}

/// Scaling up a non-negative number never makes it smaller.
pub proof fn lemma_scale_up_grows(m: int, n: nat)
    requires
        m >= 0,
    ensures
        scale_up(m, n) >= m,
    decreases n,
{
    if n > 0 {
        lemma_scale_up_grows(10 * m, (n - 1) as nat);
    }
}

fn is_nan_marker(s: &str) -> (r: bool)
    ensures
        r == is_nan_text(s@),
{
    if s.unicode_len() != 3 {
        return false;
    }
    let a = s.get_char(0);
    let b = s.get_char(1);
    let c = s.get_char(2);
    (a == 'n' || a == 'N') && (b == 'a' || b == 'A') && (c == 'n' || c == 'N')
}

spec fn capped_mantissa(m: int) -> int {
    if m > MAX_MANTISSA {
        MAX_MANTISSA + 1
    } else {
        m
    }
}

spec fn capped_exponent(e: int) -> int {
    if e > MAX_EXPONENT {
        MAX_EXPONENT + 1
    } else {
        e
    }
}

/// The executable reading of a number; the mantissa and the exponent stop growing
/// once past their bounds.
struct Scanner {
    phase: ScanPhase,
    negative: bool,
    mantissa: u128,
    fraction_digits: usize,
    exponent_negative: bool,
    exponent: u32,
}

impl Scanner {
    spec fn tracks(self, st: NumberScan) -> bool {
        &&& self.phase == st.phase
        &&& self.negative == st.negative
        &&& self.fraction_digits == st.fraction_digits
        &&& self.exponent_negative == st.exponent_negative
        &&& st.mantissa >= 0
        &&& st.exponent >= 0
        &&& self.mantissa == capped_mantissa(st.mantissa)
        &&& self.exponent == capped_exponent(st.exponent)
    }

    fn is_complete(&self) -> (r: bool)
        ensures
            r == (self.phase == ScanPhase::Whole || self.phase == ScanPhase::Fraction
                || self.phase == ScanPhase::Exponent),
    {
        match self.phase {
            ScanPhase::Whole | ScanPhase::Fraction | ScanPhase::Exponent => true,
            _ => false,
        }
    }

    fn push_mantissa(&mut self, c: char, fractional: bool, Ghost(m): Ghost<int>)
        requires
            m >= 0,
            old(self).mantissa == capped_mantissa(m),
            is_digit(c),
            old(self).fraction_digits < usize::MAX,
        ensures
            final(self).phase == old(self).phase,
            final(self).negative == old(self).negative,
            final(self).exponent == old(self).exponent,
            final(self).exponent_negative == old(self).exponent_negative,
            final(self).fraction_digits == old(self).fraction_digits + if fractional {
                1int
            } else {
                0
            },
            final(self).mantissa == capped_mantissa(10 * m + digit_value(c)),
    {
        let d = (c as u32 - '0' as u32) as u128;
        if self.mantissa <= MAX_MANTISSA {
            let t = self.mantissa * 10 + d;
            self.mantissa = if t > MAX_MANTISSA {
                MAX_MANTISSA + 1
            } else {
                t
            };
        }
        if fractional {
            self.fraction_digits = self.fraction_digits + 1;
        }
    }

    fn push_exponent(&mut self, c: char, Ghost(e): Ghost<int>)
        requires
            e >= 0,
            old(self).exponent == capped_exponent(e),
            is_digit(c),
        ensures
            final(self).phase == ScanPhase::Exponent,
            final(self).negative == old(self).negative,
            final(self).mantissa == old(self).mantissa,
            final(self).fraction_digits == old(self).fraction_digits,
            final(self).exponent_negative == old(self).exponent_negative,
            final(self).exponent == capped_exponent(10 * e + digit_value(c)),
    {
        let d = c as u32 - '0' as u32;
        if self.exponent <= MAX_EXPONENT {
            let t = self.exponent * 10 + d;
            self.exponent = if t > MAX_EXPONENT {
                MAX_EXPONENT + 1
            } else {
                t
            };
        }
        self.phase = ScanPhase::Exponent;
    }

    fn advance(&mut self, c: char, Ghost(st): Ghost<NumberScan>)
        requires
            old(self).tracks(st),
            old(self).fraction_digits < usize::MAX,
        ensures
            final(self).tracks(scan_step(st, c)),
            final(self).fraction_digits <= old(self).fraction_digits + 1,
    {
        let digit = '0' <= c && c <= '9';
        match self.phase {
            ScanPhase::Start | ScanPhase::Signed => {
                if (c == '+' || c == '-') && self.phase == ScanPhase::Start {
                    self.phase = ScanPhase::Signed;
                    self.negative = c == '-';
                } else if digit {
                    self.push_mantissa(c, false, Ghost(st.mantissa));
                    self.phase = ScanPhase::Whole;
                } else if c == '.' {
                    self.phase = ScanPhase::Point;
                } else {
                    self.phase = ScanPhase::Invalid;
                }
            },
            ScanPhase::Whole => {
                if digit {
                    self.push_mantissa(c, false, Ghost(st.mantissa));
                } else if c == '.' {
                    self.phase = ScanPhase::Fraction;
                } else if c == 'e' || c == 'E' {
                    self.phase = ScanPhase::ExponentMark;
                } else {
                    self.phase = ScanPhase::Invalid;
                }
            },
            ScanPhase::Point | ScanPhase::Fraction => {
                if digit {
                    self.push_mantissa(c, true, Ghost(st.mantissa));
                    self.phase = ScanPhase::Fraction;
                } else if (c == 'e' || c == 'E') && self.phase == ScanPhase::Fraction {
                    self.phase = ScanPhase::ExponentMark;
                } else {
                    self.phase = ScanPhase::Invalid;
                }
            },
            ScanPhase::ExponentMark | ScanPhase::ExponentSign | ScanPhase::Exponent => {
                if (c == '+' || c == '-') && self.phase == ScanPhase::ExponentMark {
                    self.phase = ScanPhase::ExponentSign;
                    self.exponent_negative = c == '-';
                } else if digit {
                    self.push_exponent(c, Ghost(st.exponent));
                } else {
                    self.phase = ScanPhase::Invalid;
                }
            },
            ScanPhase::Invalid => {},
        }
    }
}

} // verus!
