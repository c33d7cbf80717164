//! One spectrum of a record: a fragmentation level with its peaks.
use vstd::prelude::*;
use crate::decimal::Decimal;
use crate::error::{ErrorKind, MgfError, fails_as};
use crate::fragmentation_spectra_level::FragmentationSpectraLevel;

verus! {

/// The values of a sequence of decimals.
pub open spec fn values_of(v: Seq<Decimal>) -> Seq<int> {
    v.map_values(|d: Decimal| d.value())
}

/// Whether every value is strictly positive.
pub open spec fn all_positive(v: Seq<int>) -> bool {
    forall|i: int| 0 <= i < v.len() ==> #[trigger] v[i] > 0
}

/// Whether the values never decrease.
pub open spec fn ascending(v: Seq<int>) -> bool {
    forall|i: int, j: int| 0 <= i <= j < v.len() ==> v[i] <= v[j]
}

/// Whether `x` is the smallest of the values.
pub open spec fn is_min_of(x: int, v: Seq<int>) -> bool {
    v.contains(x) && forall|i: int| 0 <= i < v.len() ==> x <= #[trigger] v[i]
}

/// Whether `x` is the largest of the values.
pub open spec fn is_max_of(x: int, v: Seq<int>) -> bool {
    v.contains(x) && forall|i: int| 0 <= i < v.len() ==> #[trigger] v[i] <= x
}

/// What a valid spectrum holds: ratios and intensities of one non-zero length, all
/// strictly positive, with ratios that never decrease on the second level.
pub open spec fn valid_spectrum(
    level: FragmentationSpectraLevel,
    ratios: Seq<int>,
    intensities: Seq<int>,
) -> bool {
    &&& ratios.len() == intensities.len()
    &&& ratios.len() > 0
    &&& all_positive(ratios)
    &&& all_positive(intensities)
    &&& level == FragmentationSpectraLevel::Two ==> ascending(ratios)
}

/// The error that building a spectrum from these values gives, if any.
pub open spec fn spectrum_error(
    level: FragmentationSpectraLevel,
    ratios: Seq<int>,
    intensities: Seq<int>,
) -> Option<ErrorKind> {
    if ratios.len() != intensities.len() {
        Some(ErrorKind::LengthMismatch)
    } else if ratios.len() == 0 {
        Some(ErrorKind::NoPeaks)
    } else if !all_positive(ratios) || !all_positive(intensities) {
        Some(ErrorKind::NotStrictlyPositive)
    } else if level == FragmentationSpectraLevel::Two && !ascending(ratios) {
        Some(ErrorKind::Descending)
    } else {
        None
    }
}

/// Everything that a spectrum holds.
pub struct SpectrumView {
    pub level: FragmentationSpectraLevel,
    pub ratios: Seq<int>,
    pub intensities: Seq<int>,
}

/// A spectrum: its level, and its peaks as index-aligned mass over charge ratios and
/// intensities.
#[derive(Debug)]
pub struct MascotGenericFormatData {
    level: FragmentationSpectraLevel,
    mass_divided_by_charge_ratios: Vec<Decimal>,
    fragment_intensities: Vec<Decimal>,
}

fn all_positive_exec(v: &Vec<Decimal>) -> (r: bool)
    ensures
        r == all_positive(values_of(v@)),
{
    let mut i: usize = 0;
    while i < v.len()
        invariant
            i <= v@.len(),
            forall|k: int| 0 <= k < i ==> #[trigger] v@[k].value() > 0,
        decreases v.len() - i,
    {
        if v[i].units() <= 0 {
            assert(values_of(v@)[i as int] <= 0);
            return false;
        }
        i += 1;
    }
    true
}

fn ascending_exec(v: &Vec<Decimal>) -> (r: bool)
    ensures
        r == ascending(values_of(v@)),
{
    let ghost w = values_of(v@);
    let mut i: usize = 1;
    if v.len() == 0 {
        return true;
    }
    while i < v.len()
        invariant
            1 <= i <= v@.len(),
            w == values_of(v@),
            forall|a: int, b: int| 0 <= a <= b < i ==> w[a] <= w[b],
        decreases v.len() - i,
    {
        if v[i - 1].units() > v[i].units() {
            assert(w[i - 1] > w[i as int]);
            return false;
        }
        i += 1;
    }
    true
}

impl MascotGenericFormatData {
    #[verifier::type_invariant]
    spec fn valid(self) -> bool {
        valid_spectrum(self.level, self.ratios(), self.intensities())
    }

    /// Everything that the spectrum holds.
    pub open spec fn view(self) -> SpectrumView {
        SpectrumView { level: self.level_spec(), ratios: self.ratios(), intensities: self.intensities() }
    }

    /// The level of the spectrum.
    pub closed spec fn level_spec(self) -> FragmentationSpectraLevel {
        self.level
    }

    /// The mass over charge ratios, in units of 10^-12.
    pub closed spec fn ratios(self) -> Seq<int> {
        values_of(self.mass_divided_by_charge_ratios@)
    }

    /// The intensities, in units of 10^-12.
    pub closed spec fn intensities(self) -> Seq<int> {
        values_of(self.fragment_intensities@)
    }

    /// Creates a spectrum, checking that the two sequences have one non-zero length,
    /// that all values are strictly positive, and that second-level ratios never decrease.
    pub fn new(
        level: FragmentationSpectraLevel,
        mass_divided_by_charge_ratios: Vec<Decimal>,
        fragment_intensities: Vec<Decimal>,
    ) -> (r: Result<MascotGenericFormatData, MgfError>)
        ensures
            match spectrum_error(
                level,
                values_of(mass_divided_by_charge_ratios@),
                values_of(fragment_intensities@),
            ) {
                Some(kind) => fails_as(r, kind),
                None => r matches Ok(d) && d.level_spec() == level && d.ratios() == values_of(
                    mass_divided_by_charge_ratios@,
                ) && d.intensities() == values_of(fragment_intensities@),
            },
    {
        if mass_divided_by_charge_ratios.len() != fragment_intensities.len() {
            return Err(MgfError::of_kind(ErrorKind::LengthMismatch));
        }
        if mass_divided_by_charge_ratios.len() == 0 {
            return Err(MgfError::of_kind(ErrorKind::NoPeaks));
        }
        if !all_positive_exec(&mass_divided_by_charge_ratios) || !all_positive_exec(
            &fragment_intensities,
        ) {
            return Err(MgfError::of_kind(ErrorKind::NotStrictlyPositive));
        }
        if level == FragmentationSpectraLevel::Two && !ascending_exec(
            &mass_divided_by_charge_ratios,
        ) {
            return Err(MgfError::of_kind(ErrorKind::Descending));
        }
        Ok(MascotGenericFormatData { level, mass_divided_by_charge_ratios, fragment_intensities })
    }

    /// Returns the level of the spectrum.
    pub fn level(&self) -> (r: FragmentationSpectraLevel)
        ensures
            r == self.level_spec(),
    {
        self.level
    }

    /// Returns the mass over charge ratios, which are valid together with the intensities.
    pub fn mass_divided_by_charge_ratios(&self) -> (r: &[Decimal])
        ensures
            values_of(r@) == self.ratios(),
            valid_spectrum(self.level_spec(), self.ratios(), self.intensities()),
    {
        proof {
            use_type_invariant(self);
        }
        self.mass_divided_by_charge_ratios.as_slice()
    }

    /// Returns an iterator over the mass over charge ratios.
    pub fn mass_divided_by_charge_ratios_iter(&self) -> (r: std::slice::Iter<'_, Decimal>)
        ensures
            values_of(vstd::std_specs::slice::into_iter_elts(r)) == self.ratios(),
    {
        self.mass_divided_by_charge_ratios.as_slice().iter()
    }

    /// Returns the intensities.
    pub fn fragment_intensities(&self) -> (r: &[Decimal])
        ensures
            values_of(r@) == self.intensities(),
    {
        self.fragment_intensities.as_slice()
    }

    /// Returns an iterator over the intensities.
    pub fn fragment_intensities_iter(&self) -> (r: std::slice::Iter<'_, Decimal>)
        ensures
            values_of(vstd::std_specs::slice::into_iter_elts(r)) == self.intensities(),
    {
        self.fragment_intensities.as_slice().iter()
    }

    /// Returns whether `mass_divided_by_charge_ratio` is one of the ratios.
    pub fn has_mass_divided_by_charge_ratio(&self, mass_divided_by_charge_ratio: Decimal) -> (r:
        bool)
        ensures
            r == self.ratios().contains(mass_divided_by_charge_ratio.value()),
    {
        let v = &self.mass_divided_by_charge_ratios;
        let x = mass_divided_by_charge_ratio.units();
        let mut i: usize = 0;
        while i < v.len()
            invariant
                i <= v@.len(),
                v@ == self.mass_divided_by_charge_ratios@,
                x == mass_divided_by_charge_ratio.value(),
                forall|k: int| 0 <= k < i ==> #[trigger] v@[k].value() != x,
            decreases v.len() - i,
        {
            if v[i].units() == x {
                assert(self.ratios()[i as int] == v@[i as int].value());
                assert(self.ratios()[i as int] == x as int);
                assert(x as int == mass_divided_by_charge_ratio.value());
                assert(self.ratios().contains(mass_divided_by_charge_ratio.value()));
                return true;
            }
            i += 1;
        }
        assert(!self.ratios().contains(x as int)) by {
            if self.ratios().contains(x as int) {
                let k = choose|k: int| 0 <= k < self.ratios().len() && self.ratios()[k] == x;
                assert(v@[k].value() == x);
            }
        }
        false
    }

    /// Returns the smallest mass over charge ratio.
    pub fn min_mass_divided_by_charge_ratio(&self) -> (r: Decimal)
        ensures
            is_min_of(r.value(), self.ratios()),
    {
        proof {
            use_type_invariant(self);
        }
        let v = &self.mass_divided_by_charge_ratios;
        let mut best = v[0];
        let mut i: usize = 1;
        assert(self.ratios().subrange(0, 1)[0] == best.value());
        while i < v.len()
            invariant
                1 <= i <= v@.len(),
                v@ == self.mass_divided_by_charge_ratios@,
                self.ratios().subrange(0, i as int).contains(best.value()),
                forall|k: int| 0 <= k < i ==> best.value() <= #[trigger] self.ratios()[k],
            decreases v.len() - i,
        {
            if v[i].units() < best.units() {
                best = v[i];
                assert(self.ratios().subrange(0, i + 1)[i as int] == best.value());
            } else {
                assert(self.ratios().subrange(0, i as int) =~= self.ratios().subrange(
                    0,
                    i + 1,
                ).drop_last());
            }
            i += 1;
        }
        assert(self.ratios().subrange(0, i as int) =~= self.ratios());
        best
    }

    /// Returns the largest mass over charge ratio.
    pub fn max_mass_divided_by_charge_ratio(&self) -> (r: Decimal)
        ensures
            is_max_of(r.value(), self.ratios()),
    {
        proof {
            use_type_invariant(self);
        }
        let v = &self.mass_divided_by_charge_ratios;
        let mut best = v[0];
        let mut i: usize = 1;
        assert(self.ratios().subrange(0, 1)[0] == best.value());
        while i < v.len()
            invariant
                1 <= i <= v@.len(),
                v@ == self.mass_divided_by_charge_ratios@,
                self.ratios().subrange(0, i as int).contains(best.value()),
                forall|k: int| 0 <= k < i ==> #[trigger] self.ratios()[k] <= best.value(),
            decreases v.len() - i,
        {
            if v[i].units() > best.units() {
                best = v[i];
                assert(self.ratios().subrange(0, i + 1)[i as int] == best.value());
            } else {
                assert(self.ratios().subrange(0, i as int) =~= self.ratios().subrange(
                    0,
                    i + 1,
                ).drop_last());
            }
            i += 1;
        }
        assert(self.ratios().subrange(0, i as int) =~= self.ratios());
        best
    }
}

} // verus!
