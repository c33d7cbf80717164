//! A complete record: its metadata and its spectra, with matching of fragments
//! between two records.
use vstd::prelude::*;
use crate::charge::Charge;
use crate::decimal::Decimal;
use crate::error::{ErrorKind, MgfError, fails_as};
use crate::fragmentation_spectra_level::FragmentationSpectraLevel;
use crate::mascot_generic_format_data::{
    MascotGenericFormatData, SpectrumView, ascending, is_min_of, values_of,
};
use crate::mascot_generic_format_metadata::{MascotGenericFormatMetadata, MetadataView, decimal_view};

verus! {

/// Everything that a record holds.
pub struct RecordView {
    pub metadata: MetadataView,
    pub spectra: Seq<SpectrumView>,
}

/// The views of a sequence of spectra.
pub open spec fn spectra_view(v: Seq<MascotGenericFormatData>) -> Seq<SpectrumView> {
    v.map_values(|d: MascotGenericFormatData| d.view())
}

/// Index of the first spectrum of level `l`, or the number of spectra.
pub open spec fn first_of_level(ss: Seq<SpectrumView>, l: FragmentationSpectraLevel) -> int
    decreases ss.len(),
{
    if ss.len() == 0 || ss[0].level == l {
        0
    } else {
        1 + first_of_level(ss.drop_first(), l)
    }
}

/// Whether some spectrum has level `l`.
pub open spec fn has_level(ss: Seq<SpectrumView>, l: FragmentationSpectraLevel) -> bool {
    exists|i: int| 0 <= i < ss.len() && #[trigger] ss[i].level == l
}

/// The error that creating a record from these parts gives, if any: a record has at
/// least one spectrum, and where it has a first-level spectrum, the parent ion mass is
/// the smallest ratio of the first of them.
pub open spec fn record_error(m: MetadataView, ss: Seq<SpectrumView>) -> Option<ErrorKind> {
    let i = first_of_level(ss, FragmentationSpectraLevel::One);
    if ss.len() == 0 {
        Some(ErrorKind::NoLevels)
    } else if 0 <= i < ss.len() && !is_min_of(m.parent_ion_mass, ss[i].ratios) {
        Some(ErrorKind::ParentIonMassMismatch)
    } else {
        None
    }
}

/// Whether the shifted value `y` lies within `tolerance` of `x`.
pub open spec fn within(x: int, y: int, tolerance: int, shift: int) -> bool {
    x - tolerance <= y + shift <= x + tolerance
}

/// The pairs `(i, k)`, for `k` from `lo` up to `hi`, whose values lie within tolerance.
pub open spec fn row_matches(a: Seq<int>, b: Seq<int>, tolerance: int, shift: int, i: int, lo: int, hi: int) -> Seq<(usize, usize)>
    decreases hi - lo,
{
    if hi <= lo {
        Seq::empty()
    } else {
        row_matches(a, b, tolerance, shift, i, lo, hi - 1) + if within(a[i], b[hi - 1], tolerance, shift) {
            seq![(i as usize, (hi - 1) as usize)]
        } else {
            Seq::empty()
        }
    }
}

/// All pairs `(i, j)`, with `i` below `n`, whose values lie within tolerance: ordered by
/// `i`, then by `j`.
pub open spec fn all_matches(a: Seq<int>, b: Seq<int>, tolerance: int, shift: int, n: int) -> Seq<(usize, usize)>
    decreases n,
{
    if n <= 0 {
        Seq::empty()
    } else {
        all_matches(a, b, tolerance, shift, n - 1) + row_matches(a, b, tolerance, shift, n - 1, 0, b.len() as int)
    }
}

/// A row is empty where nothing in it lies within tolerance.
pub proof fn lemma_row_empty(a: Seq<int>, b: Seq<int>, tolerance: int, shift: int, i: int, lo: int, hi: int)
    requires
        forall|k: int| lo <= k < hi ==> !within(a[i], #[trigger] b[k], tolerance, shift),
    ensures
        row_matches(a, b, tolerance, shift, i, lo, hi) == Seq::<(usize, usize)>::empty(),
    decreases hi - lo,
{
    if hi > lo {
        lemma_row_empty(a, b, tolerance, shift, i, lo, hi - 1);
        assert(row_matches(a, b, tolerance, shift, i, lo, hi) =~= row_matches(a, b, tolerance, shift, i, lo, hi - 1));
    }
}

/// A row is the same from `lo` as from `mid` where nothing in between lies within
/// tolerance.
pub proof fn lemma_row_skip(a: Seq<int>, b: Seq<int>, tolerance: int, shift: int, i: int, lo: int, mid: int, hi: int)
    requires
        lo <= mid <= hi,
        forall|k: int| lo <= k < mid ==> !within(a[i], #[trigger] b[k], tolerance, shift),
    ensures
        row_matches(a, b, tolerance, shift, i, lo, hi) == row_matches(a, b, tolerance, shift, i, mid, hi),
    decreases hi - lo,
{
    if hi > mid {
        lemma_row_skip(a, b, tolerance, shift, i, lo, mid, hi - 1);
    } else {
        lemma_row_empty(a, b, tolerance, shift, i, lo, hi);
    }
}

/// A row splits at any point between its ends.
pub proof fn lemma_row_split(a: Seq<int>, b: Seq<int>, tolerance: int, shift: int, i: int, lo: int, mid: int, hi: int)
    requires
        lo <= mid <= hi,
    ensures
        row_matches(a, b, tolerance, shift, i, lo, hi) == row_matches(a, b, tolerance, shift, i, lo, mid)
            + row_matches(a, b, tolerance, shift, i, mid, hi),
    decreases hi - mid,
{
    if hi > mid {
        lemma_row_split(a, b, tolerance, shift, i, lo, mid, hi - 1);
        assert(row_matches(a, b, tolerance, shift, i, lo, hi) =~= row_matches(a, b, tolerance, shift, i, lo, mid)
            + row_matches(a, b, tolerance, shift, i, mid, hi));
    } else {
        assert(row_matches(a, b, tolerance, shift, i, lo, hi) =~= row_matches(a, b, tolerance, shift, i, lo, mid)
            + row_matches(a, b, tolerance, shift, i, mid, hi));
    }
}

/// A row has nothing from `lo` on where the values only grow and the first is already
/// above the tolerance.
pub proof fn lemma_row_above(a: Seq<int>, b: Seq<int>, tolerance: int, shift: int, i: int, lo: int, hi: int)
    requires
        0 <= lo < hi <= b.len(),
        ascending(b),
        b[lo] + shift > a[i] + tolerance,
    ensures
        row_matches(a, b, tolerance, shift, i, lo, hi) == Seq::<(usize, usize)>::empty(),
    decreases hi - lo,
{
    if hi - 1 > lo {
        lemma_row_above(a, b, tolerance, shift, i, lo, hi - 1);
    }
    assert(b[lo] <= b[hi - 1]);
    assert(row_matches(a, b, tolerance, shift, i, lo, hi) =~= row_matches(a, b, tolerance, shift, i, lo, hi - 1));
}

/// A record: metadata and one or more spectra, with the parent ion mass equal to the
/// smallest ratio of the first first-level spectrum, where there is one.
#[derive(Debug)]
pub struct MascotGenericFormat {
    metadata: MascotGenericFormatMetadata,
    data: Vec<MascotGenericFormatData>,
}

impl MascotGenericFormat {
    #[verifier::type_invariant]
    spec fn consistent(self) -> bool {
        record_error(self.metadata.view(), spectra_view(self.data@)) is None
    }

    /// Everything that the record holds.
    pub closed spec fn view(self) -> RecordView {
        RecordView { metadata: self.metadata.view(), spectra: spectra_view(self.data@) }
    }

    /// Creates a record, checking its parts as [`record_error`] says.
    pub fn new(metadata: MascotGenericFormatMetadata, data: Vec<MascotGenericFormatData>) -> (r: Result<
        MascotGenericFormat,
        MgfError,
    >)
        ensures
            match record_error(metadata.view(), spectra_view(data@)) {
                Some(k) => fails_as(r, k),
                None => r matches Ok(m) && m.view() == (RecordView {
                    metadata: metadata.view(),
                    spectra: spectra_view(data@),
                }),
            },
    {
        if data.len() == 0 {
            return Err(MgfError::of_kind(ErrorKind::NoLevels));
        }
        let i = first_index_of_level(&data, FragmentationSpectraLevel::One);
        if i < data.len() {
            let smallest = data[i].min_mass_divided_by_charge_ratio();
            let mass = metadata.parent_ion_mass();
            if smallest.units() != mass.units() {
                proof {
                    let v = spectra_view(data@)[i as int].ratios;
                    if is_min_of(metadata.view().parent_ion_mass, v) {
                        let a = choose|k: int| 0 <= k < v.len() && v[k] == smallest.value();
                        let b = choose|k: int| 0 <= k < v.len() && v[k] == metadata.view().parent_ion_mass;
                        assert(v[a] >= v[b] && v[b] >= v[a]);
                    }
                }
                return Err(MgfError::of_kind(ErrorKind::ParentIonMassMismatch));
            }
        }
        Ok(MascotGenericFormat { metadata, data })
    }

    /// Returns the metadata.
    pub fn metadata(&self) -> (r: &MascotGenericFormatMetadata)
        ensures
            r.view() == self.view().metadata,
    {
        &self.metadata
    }

    /// Returns the feature id.
    pub fn feature_id(&self) -> (r: usize)
        ensures
            r == self.view().metadata.feature_id,
    {
        self.metadata.feature_id()
    }

    /// Returns the parent ion mass.
    pub fn parent_ion_mass(&self) -> (r: Decimal)
        ensures
            r.value() == self.view().metadata.parent_ion_mass,
    {
        self.metadata.parent_ion_mass()
    }

    /// Returns the retention time, if known.
    pub fn retention_time(&self) -> (r: Option<Decimal>)
        ensures
            decimal_view(r) == self.view().metadata.retention_time,
    {
        self.metadata.retention_time()
    }

    /// Returns the charge.
    pub fn charge(&self) -> (r: Charge)
        ensures
            r.value() == self.view().metadata.charge,
    {
        self.metadata.charge()
    }

    /// Returns the first spectrum of level `level`, if there is one.
    pub fn get_fragmentation_level(&self, level: FragmentationSpectraLevel) -> (r: Result<
        &MascotGenericFormatData,
        MgfError,
    >)
        ensures
            ({
                let ss = self.view().spectra;
                let i = first_of_level(ss, level);
                &&& 0 <= i <= ss.len()
                &&& i < ss.len() ==> (r matches Ok(d) && d.view() == ss[i] && d.level_spec() == level)
                &&& i == ss.len() ==> fails_as(r, ErrorKind::MissingFragmentationLevel)
                &&& i == ss.len() <==> !has_level(ss, level)
            }),
    {
        let i = first_index_of_level(&self.data, level);
        if i < self.data.len() {
            Ok(&self.data[i])
        } else {
            Err(MgfError::of_kind(ErrorKind::MissingFragmentationLevel))
        }
    }

    /// Returns the first first-level spectrum, if there is one.
    pub fn get_first_fragmentation_level(&self) -> (r: Result<&MascotGenericFormatData, MgfError>)
        ensures
            ({
                let ss = self.view().spectra;
                let i = first_of_level(ss, FragmentationSpectraLevel::One);
                &&& i < ss.len() ==> (r matches Ok(d) && d.view() == ss[i])
                &&& i >= ss.len() ==> fails_as(r, ErrorKind::MissingFragmentationLevel)
            }),
    {
        self.get_fragmentation_level(FragmentationSpectraLevel::One)
    }

    /// Returns the first second-level spectrum, if there is one.
    pub fn get_second_fragmentation_level(&self) -> (r: Result<&MascotGenericFormatData, MgfError>)
        ensures
            ({
                let ss = self.view().spectra;
                let i = first_of_level(ss, FragmentationSpectraLevel::Two);
                &&& i < ss.len() ==> (r matches Ok(d) && d.view() == ss[i])
                &&& i >= ss.len() ==> fails_as(r, ErrorKind::MissingFragmentationLevel)
            }),
    {
        self.get_fragmentation_level(FragmentationSpectraLevel::Two)
    }

    /// Returns the smallest level among the spectra.
    pub fn min_fragmentation_level(&self) -> (r: FragmentationSpectraLevel)
        ensures
            r == if has_level(self.view().spectra, FragmentationSpectraLevel::One) {
                FragmentationSpectraLevel::One
            } else {
                FragmentationSpectraLevel::Two
            },
    {
        match self.get_fragmentation_level(FragmentationSpectraLevel::One) {
            Ok(_) => FragmentationSpectraLevel::One,
            Err(_) => FragmentationSpectraLevel::Two,
        }
    }

    /// Returns the largest level among the spectra.
    pub fn max_fragmentation_level(&self) -> (r: FragmentationSpectraLevel)
        ensures
            r == if has_level(self.view().spectra, FragmentationSpectraLevel::Two) {
                FragmentationSpectraLevel::Two
            } else {
                FragmentationSpectraLevel::One
            },
    {
        match self.get_fragmentation_level(FragmentationSpectraLevel::Two) {
            Ok(_) => FragmentationSpectraLevel::Two,
            Err(_) => FragmentationSpectraLevel::One,
        }
    }

    /// Returns whether the record has a first-level spectrum.
    pub fn has_first_level(&self) -> (r: bool)
        ensures
            r == has_level(self.view().spectra, FragmentationSpectraLevel::One),
    {
        self.min_fragmentation_level() == FragmentationSpectraLevel::One
    }

    /// Returns whether the record has a second-level spectrum.
    pub fn has_second_level(&self) -> (r: bool)
        ensures
            r == has_level(self.view().spectra, FragmentationSpectraLevel::Two),
    {
        self.max_fragmentation_level() == FragmentationSpectraLevel::Two
    }

    /// Returns the pairs `(i, j)` of positions in the second-level ratios of this record
    /// and of `other` whose values lie within `tolerance` of each other once `shift` is
    /// added to the second: `first[i] - tolerance <= second[j] + shift <= first[i] + tolerance`.
    /// The pairs come ordered by `i`, then by `j`; both records must have a second level.
    pub fn find_sorted_matches(&self, other: &MascotGenericFormat, tolerance: Decimal, shift: Decimal) -> (r: Result<
        Vec<(usize, usize)>,
        MgfError,
    >)
        ensures
            ({
                let ss = self.view().spectra;
                let os = other.view().spectra;
                let i = first_of_level(ss, FragmentationSpectraLevel::Two);
                let j = first_of_level(os, FragmentationSpectraLevel::Two);
                &&& (i >= ss.len() || j >= os.len()) ==> fails_as(r, ErrorKind::MissingFragmentationLevel)
                &&& (i < ss.len() && j < os.len()) ==> (r matches Ok(v) && v@ == all_matches(
                    ss[i].ratios,
                    os[j].ratios,
                    tolerance.value(),
                    shift.value(),
                    ss[i].ratios.len() as int,
                ))
            }),
    {
        let first = self.get_fragmentation_level(FragmentationSpectraLevel::Two)?;
        let second = other.get_fragmentation_level(FragmentationSpectraLevel::Two)?;
        let a = first.mass_divided_by_charge_ratios();
        let b = second.mass_divided_by_charge_ratios();
        let eps = tolerance.units();
        let d = shift.units();
        let ghost av = values_of(a@);
        let ghost bv = values_of(b@);
        let mut out: Vec<(usize, usize)> = Vec::new();
        let mut lowest: usize = 0;
        let mut i: usize = 0;
        while i < a.len()
            invariant
                i <= a@.len(),
                av == values_of(a@),
                bv == values_of(b@),
                av.len() == a@.len(),
                bv.len() == b@.len(),
                ascending(av),
                ascending(bv),
                eps == tolerance.value(),
                d == shift.value(),
                -crate::decimal::MAX_UNITS <= eps <= crate::decimal::MAX_UNITS,
                -crate::decimal::MAX_UNITS <= d <= crate::decimal::MAX_UNITS,
                lowest <= b@.len(),
                out@ == all_matches(av, bv, eps as int, d as int, i as int),
                lowest > 0 ==> i > 0,
                forall|k: int| 0 <= k < lowest ==> (#[trigger] bv[k]) + d < av[i - 1] - eps,
            decreases a.len() - i,
        {
            let x = a[i].units();
            assert(av[i as int] == x);
            let low = x - eps;
            let high = x + eps;
            proof {
                assert forall|k: int| 0 <= k < lowest implies !within(av[i as int], #[trigger] bv[k], eps as int, d as int) by {
                    assert(i > 0);
                    assert(bv[k] + d < av[i - 1] - eps);
                    assert(0 <= i - 1 <= i < av.len());
                    assert(av[i - 1] <= av[i as int]);
                }
                lemma_row_empty(av, bv, eps as int, d as int, i as int, 0, lowest as int);
            }
            let mut j: usize = lowest;
            let mut done = false;
            while j < b.len() && !done
                invariant
                    lowest <= j <= b@.len(),
                    i < a@.len(),
                    av == values_of(a@),
                    bv == values_of(b@),
                    av.len() == a@.len(),
                    bv.len() == b@.len(),
                    ascending(bv),
                    x == av[i as int],
                    low == x - eps,
                    high == x + eps,
                    -crate::decimal::MAX_UNITS <= d <= crate::decimal::MAX_UNITS,
                    -crate::decimal::MAX_UNITS <= x <= crate::decimal::MAX_UNITS,
                    -crate::decimal::MAX_UNITS <= eps <= crate::decimal::MAX_UNITS,
                    out@ == all_matches(av, bv, eps as int, d as int, i as int) + row_matches(av, bv, eps as int, d as int, i as int, 0, j as int),
                    forall|k: int| 0 <= k < lowest ==> (#[trigger] bv[k]) + d < low,
                    forall|k: int| lowest <= k < j ==> low <= (#[trigger] bv[k]) + d,
                    done ==> j < b@.len() && bv[j as int] + d > high,
                decreases b.len() - j + if done { 0int } else { 1int },
            {
                let y = b[j].units() + d;
                assert(bv[j as int] + d == y);
                if y > high {
                    done = true;
                } else if y < low {
                    assert(lowest == j) by {
                        if lowest < j {
                            assert(low <= bv[lowest as int] + d);
                            assert(bv[lowest as int] <= bv[j as int]);
                        }
                    }
                    lowest = j + 1;
                    j += 1;
                } else {
                    let ghost before = out@;
                    out.push((i, j));
                    assert(out@ =~= all_matches(av, bv, eps as int, d as int, i as int) + row_matches(av, bv, eps as int, d as int, i as int, 0, j + 1));
                    j += 1;
                }
            }
            proof {
                if done {
                    lemma_row_split(av, bv, eps as int, d as int, i as int, 0, j as int, bv.len() as int);
                    lemma_row_above(av, bv, eps as int, d as int, i as int, j as int, bv.len() as int);
                }
                assert(out@ =~= all_matches(av, bv, eps as int, d as int, i + 1));
                assert forall|k: int| 0 <= k < lowest implies (#[trigger] bv[k]) + d < av[i as int] - eps by {}
            }
            i += 1;
        }
        Ok(out)
    }

    /// Returns an iterator over the ratios of the first first-level spectrum.
    pub fn first_fragmentation_level_mass_divided_by_charge_ratios_iter(&self) -> (r: Result<
        std::slice::Iter<'_, Decimal>,
        MgfError,
    >)
        ensures
            ({
                let ss = self.view().spectra;
                let i = first_of_level(ss, FragmentationSpectraLevel::One);
                &&& i < ss.len() ==> (r matches Ok(it) && values_of(vstd::std_specs::slice::into_iter_elts(it)) == ss[i].ratios)
                &&& i >= ss.len() ==> fails_as(r, ErrorKind::MissingFragmentationLevel)
            }),
    {
        Ok(self.get_first_fragmentation_level()?.mass_divided_by_charge_ratios_iter())
    }

    /// Returns an iterator over the ratios of the first second-level spectrum.
    pub fn second_fragmentation_level_mass_divided_by_charge_ratios_iter(&self) -> (r: Result<
        std::slice::Iter<'_, Decimal>,
        MgfError,
    >)
        ensures
            ({
                let ss = self.view().spectra;
                let i = first_of_level(ss, FragmentationSpectraLevel::Two);
                &&& i < ss.len() ==> (r matches Ok(it) && values_of(vstd::std_specs::slice::into_iter_elts(it)) == ss[i].ratios)
                &&& i >= ss.len() ==> fails_as(r, ErrorKind::MissingFragmentationLevel)
            }),
    {
        Ok(self.get_second_fragmentation_level()?.mass_divided_by_charge_ratios_iter())
    }

    /// Returns an iterator over the intensities of the first first-level spectrum.
    pub fn first_fragmentation_level_intensities_iter(&self) -> (r: Result<
        std::slice::Iter<'_, Decimal>,
        MgfError,
    >)
        ensures
            ({
                let ss = self.view().spectra;
                let i = first_of_level(ss, FragmentationSpectraLevel::One);
                &&& i < ss.len() ==> (r matches Ok(it) && values_of(vstd::std_specs::slice::into_iter_elts(it)) == ss[i].intensities)
                &&& i >= ss.len() ==> fails_as(r, ErrorKind::MissingFragmentationLevel)
            }),
    {
        Ok(self.get_first_fragmentation_level()?.fragment_intensities_iter())
    }

    /// Returns an iterator over the intensities of the first second-level spectrum.
    pub fn second_fragmentation_level_intensities_iter(&self) -> (r: Result<
        std::slice::Iter<'_, Decimal>,
        MgfError,
    >)
        ensures
            ({
                let ss = self.view().spectra;
                let i = first_of_level(ss, FragmentationSpectraLevel::Two);
                &&& i < ss.len() ==> (r matches Ok(it) && values_of(vstd::std_specs::slice::into_iter_elts(it)) == ss[i].intensities)
                &&& i >= ss.len() ==> fails_as(r, ErrorKind::MissingFragmentationLevel)
            }),
    {
        Ok(self.get_second_fragmentation_level()?.fragment_intensities_iter())
    }
}

/// Index of the first spectrum of level `level`, or the number of spectra.
fn first_index_of_level(data: &Vec<MascotGenericFormatData>, level: FragmentationSpectraLevel) -> (r: usize)
    ensures
        r == first_of_level(spectra_view(data@), level),
        r <= data@.len(),
        r == data@.len() <==> !has_level(spectra_view(data@), level),
        r < data@.len() ==> spectra_view(data@)[r as int].level == level,
{
    let ghost ss = spectra_view(data@);
    let mut i: usize = 0;
    assert(ss.subrange(0, ss.len() as int) =~= ss);
    while i < data.len() && data[i].level() != level
        invariant
            i <= data@.len(),
            ss == spectra_view(data@),
            first_of_level(ss, level) == i + first_of_level(ss.subrange(i as int, ss.len() as int), level),
            forall|k: int| 0 <= k < i ==> #[trigger] ss[k].level != level,
        decreases data.len() - i,
    {
        assert(ss.subrange(i as int, ss.len() as int).drop_first() =~= ss.subrange(i + 1, ss.len() as int));
        i += 1;
    }
    if i < data.len() {
        assert(ss.subrange(i as int, ss.len() as int)[0] == ss[i as int]);
        assert(data@[i as int].view().level == level);
    } else {
        assert(ss.subrange(i as int, ss.len() as int).len() == 0);
    }
    i
}

} // verus!
