//! Accumulates the lines of one spectrum: its level and its peak lines.
use vstd::prelude::*;
use crate::decimal::{Decimal, decimal_of};
use crate::error::{ErrorKind, MgfError, fails_as, fails_with};
use crate::fragmentation_spectra_level::FragmentationSpectraLevel;
use crate::mascot_generic_format_data::{
    MascotGenericFormatData, SpectrumView, spectrum_error, values_of,
};
use crate::text::{CharClass, is_prefix_of, leading, skip_class, starts_with, text_eq};

verus! {

/// What a spectrum builder has gathered: its level, if given, and its peaks (ratios
/// and intensities in units of 10^-12).
pub struct SpectrumState {
    pub level: Option<FragmentationSpectraLevel>,
    pub ratios: Seq<int>,
    pub intensities: Seq<int>,
}

/// The level that an `MSLEVEL=` line names.
pub open spec fn level_line_of(line: Seq<char>) -> Option<FragmentationSpectraLevel> {
    if line == "MSLEVEL=1"@ {
        Some(FragmentationSpectraLevel::One)
    } else if line == "MSLEVEL=2"@ {
        Some(FragmentationSpectraLevel::Two)
    } else {
        None
    }
}

/// The two fields of a peak line: two runs of characters other than space and tab,
/// separated by a run of spaces and tabs.
pub open spec fn peak_fields(line: Seq<char>) -> Option<(Seq<char>, Seq<char>)> {
    let i = leading(line, CharClass::Field);
    let j = i + leading(line.subrange(i, line.len() as int), CharClass::Blank);
    let second = line.subrange(j, line.len() as int);
    if 0 < i && i < j && j < line.len() && leading(second, CharClass::Field) == second.len() {
        Some((line.subrange(0, i), second))
    } else {
        None
    }
}

/// The peak that `line` gives, after the ratio `last` (if any) on a spectrum of level
/// `level` (if known), or the error it raises.
pub open spec fn peak_of(
    line: Seq<char>,
    level: Option<FragmentationSpectraLevel>,
    last: Option<int>,
) -> Result<(int, int), ErrorKind> {
    match peak_fields(line) {
        None => Err(ErrorKind::InvalidPeak),
        Some((a, b)) => match (decimal_of(a), decimal_of(b)) {
            (Err(e), _) => Err(ErrorKind::InvalidNumber(e)),
            (Ok(_), Err(e)) => Err(ErrorKind::InvalidNumber(e)),
            (Ok(mz), Ok(intensity)) => if mz <= 0 || intensity <= 0 {
                Err(ErrorKind::NotStrictlyPositive)
            } else if level == Some(FragmentationSpectraLevel::Two) && last is Some && last->0
                > mz {
                Err(ErrorKind::Descending)
            } else {
                Ok((mz, intensity))
            },
        },
    }
}

/// The last of the values, if any.
pub open spec fn last_of(v: Seq<int>) -> Option<int> {
    if v.len() > 0 {
        Some(v.last())
    } else {
        None
    }
}

/// The state after one line, or the error that the line raises (the state then
/// stays as it was).
pub open spec fn data_digest(st: SpectrumState, line: Seq<char>) -> Result<SpectrumState, ErrorKind> {
    if is_prefix_of("MSLEVEL="@, line) {
        match level_line_of(line) {
            None => Err(ErrorKind::InvalidLevel),
            Some(l) => if st.level is Some && st.level != Some(l) {
                Err(ErrorKind::Inconsistent)
            } else {
                Ok(SpectrumState { level: Some(l), ..st })
            },
        }
    } else if is_prefix_of("SPECTYPE=CORRELATED MS"@, line) {
        Ok(st)
    } else {
        match peak_of(line, st.level, last_of(st.ratios)) {
            Err(k) => Err(k),
            Ok((mz, intensity)) => Ok(
                SpectrumState {
                    ratios: st.ratios.push(mz),
                    intensities: st.intensities.push(intensity),
                    ..st
                },
            ),
        }
    }
}

/// Whether a builder in state `st` can be built: its level is known and it has peaks.
pub open spec fn data_buildable(st: SpectrumState) -> bool {
    st.level is Some && st.ratios.len() == st.intensities.len() && st.ratios.len() > 0
}

/// What building from the state `st` gives: the spectrum, or the error.
pub open spec fn data_build_outcome(st: SpectrumState) -> Result<SpectrumView, ErrorKind> {
    match st.level {
        None => Err(ErrorKind::MissingLevel),
        Some(l) => match spectrum_error(l, st.ratios, st.intensities) {
            Some(k) => Err(k),
            None => Ok(SpectrumView { level: l, ratios: st.ratios, intensities: st.intensities }),
        },
    }
}

/// Whether `line` looks like a line of a spectrum: a level, the correlated-spectrum
/// annotation, or two numeric fields.
pub open spec fn data_line(line: Seq<char>) -> bool {
    is_prefix_of("MSLEVEL="@, line) || is_prefix_of("SPECTYPE=CORRELATED MS"@, line) || match peak_fields(
        line,
    ) {
        Some((a, b)) => decimal_of(a) != Err::<int, _>(crate::decimal::NumberError::Malformed)
            && decimal_of(b) != Err::<int, _>(crate::decimal::NumberError::Malformed),
        None => false,
    }
}

/// Builder of a [`MascotGenericFormatData`], fed one line at a time.
#[derive(Debug)]
pub struct MascotGenericFormatDataBuilder {
    level: Option<FragmentationSpectraLevel>,
    mass_divided_by_charge_ratios: Vec<Decimal>,
    fragment_intensities: Vec<Decimal>,
}

impl Default for MascotGenericFormatDataBuilder {
    fn default() -> (r: MascotGenericFormatDataBuilder)
        ensures
            r.state() == (SpectrumState {
                level: None,
                ratios: Seq::<int>::empty(),
                intensities: Seq::<int>::empty(),
            }),
    {
        let r = MascotGenericFormatDataBuilder {
            level: None,
            mass_divided_by_charge_ratios: Vec::new(),
            fragment_intensities: Vec::new(),
        };
        assert(r.state().ratios =~= Seq::<int>::empty());
        assert(r.state().intensities =~= Seq::<int>::empty());
        r
    }
}

/// Splits a peak line into its two fields.
fn split_peak(line: &str) -> (r: Option<(&str, &str)>)
    ensures
        match peak_fields(line@) {
            None => r is None,
            Some((a, b)) => r matches Some((x, y)) && x@ == a && y@ == b,
        },
{
    let n = line.unicode_len();
    assert(line@.subrange(0, n as int) =~= line@);
    let i = skip_class(line, 0, CharClass::Field);
    let j = skip_class(line, i, CharClass::Blank);
    if i == 0 || j == i || j == n {
        return None;
    }
    let k = skip_class(line, j, CharClass::Field);
    if k != n {
        return None;
    }
    Some((line.substring_char(0, i), line.substring_char(j, n)))
}

impl MascotGenericFormatDataBuilder {
    /// What the builder has gathered.
    pub closed spec fn state(self) -> SpectrumState {
        SpectrumState {
            level: self.level,
            ratios: values_of(self.mass_divided_by_charge_ratios@),
            intensities: values_of(self.fragment_intensities@),
        }
    }

    /// Returns whether `line` looks like a line of a spectrum.
    pub fn can_parse_line(line: &str) -> (r: bool)
        ensures
            r == data_line(line@),
    {
        if starts_with(line, "MSLEVEL=") || starts_with(line, "SPECTYPE=CORRELATED MS") {
            return true;
        }
        match split_peak(line) {
            None => false,
            Some((a, b)) => {
                let x = Decimal::parse(a);
                let y = Decimal::parse(b);
                !matches!(x, Err(crate::decimal::NumberError::Malformed)) && !matches!(y, Err(crate::decimal::NumberError::Malformed))
            },
        }
    }

    /// Returns whether the builder has a level and at least one peak.
    pub fn can_build(&self) -> (r: bool)
        ensures
            r == data_buildable(self.state()),
    {
        self.level.is_some() && self.mass_divided_by_charge_ratios.len()
            == self.fragment_intensities.len() && self.mass_divided_by_charge_ratios.len() > 0
    }

    /// Returns whether the builder has no peak yet.
    pub fn is_empty(&self) -> (r: bool)
        ensures
            r == (self.state().ratios.len() == 0),
    {
        self.mass_divided_by_charge_ratios.len() == 0
    }

    /// Returns whether the level is two; an error while the level is unknown.
    pub fn is_level_two(&self) -> (r: Result<bool, MgfError>)
        ensures
            match self.state().level {
                Some(l) => r matches Ok(b) && b == (l == FragmentationSpectraLevel::Two),
                None => fails_as(r, ErrorKind::MissingLevel),
            },
    {
        match self.level {
            Some(FragmentationSpectraLevel::Two) => Ok(true),
            Some(FragmentationSpectraLevel::One) => Ok(false),
            None => Err(MgfError::of_kind(ErrorKind::MissingLevel)),
        }
    }

    /// Reads one line: `MSLEVEL=1` or `MSLEVEL=2` (once, or again with the same level),
    /// the annotation `SPECTYPE=CORRELATED MS` (ignored), or a peak line
    /// `<ratio> <intensity>`.
    pub fn digest_line(&mut self, line: &str) -> (r: Result<(), MgfError>)
        ensures
            match data_digest(old(self).state(), line@) {
                Ok(st) => r is Ok && final(self).state() == st,
                Err(k) => fails_with(r, k, line@) && final(self).state() == old(self).state(),
            },
    {
        proof {
            reveal_strlit("MSLEVEL=1");
            reveal_strlit("MSLEVEL=2");
            assert("MSLEVEL=1"@[8] != "MSLEVEL=2"@[8]);
        }
        if starts_with(line, "MSLEVEL=") {
            let l = if text_eq(line, "MSLEVEL=1") {
                FragmentationSpectraLevel::One
            } else if text_eq(line, "MSLEVEL=2") {
                FragmentationSpectraLevel::Two
            } else {
                return Err(MgfError::new(ErrorKind::InvalidLevel, line));
            };
            if let Some(current) = self.level {
                if current != l {
                    return Err(MgfError::new(ErrorKind::Inconsistent, line));
                }
            }
            self.level = Some(l);
            return Ok(());
        }
        if starts_with(line, "SPECTYPE=CORRELATED MS") {
            return Ok(());
        }
        let (a, b) = match split_peak(line) {
            Some(fields) => fields,
            None => {
                return Err(MgfError::new(ErrorKind::InvalidPeak, line));
            },
        };
        let mz = match Decimal::parse(a) {
            Ok(x) => x,
            Err(e) => {
                return Err(MgfError::new(ErrorKind::InvalidNumber(e), line));
            },
        };
        let intensity = match Decimal::parse(b) {
            Ok(x) => x,
            Err(e) => {
                return Err(MgfError::new(ErrorKind::InvalidNumber(e), line));
            },
        };
        if mz.units() <= 0 || intensity.units() <= 0 {
            return Err(MgfError::new(ErrorKind::NotStrictlyPositive, line));
        }
        let n = self.mass_divided_by_charge_ratios.len();
        if n > 0 {
            let previous = self.mass_divided_by_charge_ratios[n - 1];
            if self.level == Some(FragmentationSpectraLevel::Two) && previous.units() > mz.units() {
                return Err(MgfError::new(ErrorKind::Descending, line));
            }
        }
        let ghost before = self.state();
        self.mass_divided_by_charge_ratios.push(mz);
        self.fragment_intensities.push(intensity);
        assert(self.state().ratios =~= before.ratios.push(mz.value()));
        assert(self.state().intensities =~= before.intensities.push(intensity.value()));
        Ok(())
    }

    /// Builds the spectrum: an error if the level is unknown, or if the peaks do not
    /// make a valid spectrum.
    pub fn build(self) -> (r: Result<MascotGenericFormatData, MgfError>)
        ensures
            match data_build_outcome(self.state()) {
                Err(k) => fails_as(r, k),
                Ok(v) => r matches Ok(d) && d.view() == v,
            },
    {
        let level = match self.level {
            Some(l) => l,
            None => {
                return Err(MgfError::of_kind(ErrorKind::MissingLevel));
            },
        };
        MascotGenericFormatData::new(
            level,
            self.mass_divided_by_charge_ratios,
            self.fragment_intensities,
        )
    }
}

} // verus!
