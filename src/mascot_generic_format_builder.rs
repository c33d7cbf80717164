//! The state machine that reads one record, section by section.
use vstd::prelude::*;
use crate::error::{ErrorKind, MgfError, fails_as, fails_with};
use crate::fragmentation_spectra_level::FragmentationSpectraLevel;
use crate::mascot_generic_format::{MascotGenericFormat, RecordView, record_error, spectra_view};
use crate::mascot_generic_format_data::{MascotGenericFormatData, SpectrumView};
use crate::mascot_generic_format_data_builder::{
    MascotGenericFormatDataBuilder, SpectrumState, data_build_outcome, data_buildable, data_digest,
    data_line,
};
use crate::mascot_generic_format_metadata_builder::{
    MascotGenericFormatMetadataBuilder, MetadataState, metadata_build_outcome, metadata_buildable,
    metadata_digest, metadata_line,
};
use crate::text::text_eq;

verus! {

/// Where a record builder stands.
#[derive(Clone, Copy, Debug, PartialEq, Eq, Structural)]
pub enum BuilderPhase {
    /// No `BEGIN IONS` yet.
    Idle,
    /// Inside a `BEGIN IONS` ... `END IONS` section.
    SectionOpen,
    /// After `END IONS`; more sections may follow.
    SectionClosed,
    /// A line could not be read: the record is lost.
    Corrupted,
}

/// What a record builder has gathered.
pub struct RecordState {
    pub phase: BuilderPhase,
    pub metadata: MetadataState,
    pub spectra: Seq<SpectrumState>,
}

/// Whether some spectrum has level two.
pub open spec fn record_level_two(st: RecordState) -> bool {
    exists|i: int| 0 <= i < st.spectra.len() && #[trigger] st.spectra[i].level == Some(
        FragmentationSpectraLevel::Two,
    )
}

/// Whether a record can be built from the state `st`: no section is open, nothing is
/// corrupted, the metadata can be built, and there are spectra, each of which can be
/// built.
pub open spec fn record_buildable(st: RecordState) -> bool {
    &&& st.phase != BuilderPhase::SectionOpen
    &&& st.phase != BuilderPhase::Corrupted
    &&& metadata_buildable(st.metadata)
    &&& st.spectra.len() > 0
    &&& forall|i: int| 0 <= i < st.spectra.len() ==> data_buildable(#[trigger] st.spectra[i])
}

/// Whether the builder waits for a continuation: the last `SCANS=` was -1, no section
/// is open and no second-level spectrum has come.
pub open spec fn record_partial(st: RecordState) -> bool {
    st.metadata.minus_one_scans && !record_level_two(st) && st.phase != BuilderPhase::SectionOpen
}

/// `st`, corrupted.
pub open spec fn corrupted(st: RecordState) -> RecordState {
    RecordState { phase: BuilderPhase::Corrupted, ..st }
}

/// The state after one line, and the error the line raises, if any. A corrupted
/// builder rejects every line. `BEGIN IONS` opens a section with a new spectrum;
/// `END IONS` closes the open section, whose spectrum must be buildable, and, once a
/// second-level spectrum has come, the whole record must then be buildable; metadata
/// lines go to the metadata; other lines go to the last spectrum.
pub open spec fn record_digest(st: RecordState, line: Seq<char>) -> (RecordState, Option<ErrorKind>) {
    if st.phase == BuilderPhase::Corrupted {
        (st, Some(ErrorKind::Corrupted))
    } else if line == "BEGIN IONS"@ {
        (
            RecordState {
                phase: BuilderPhase::SectionOpen,
                spectra: st.spectra.push(
                    SpectrumState {
                        level: None,
                        ratios: Seq::<int>::empty(),
                        intensities: Seq::<int>::empty(),
                    },
                ),
                ..st
            },
            None,
        )
    } else if line == "END IONS"@ {
        if st.phase != BuilderPhase::SectionOpen || st.spectra.len() == 0 {
            (corrupted(st), Some(ErrorKind::EndWithoutBegin))
        } else if !data_buildable(st.spectra.last()) {
            (
                corrupted(st),
                Some(
                    if st.spectra.last().ratios.len() == 0 {
                        ErrorKind::EmptyLevel
                    } else {
                        ErrorKind::IncompleteLevel
                    },
                ),
            )
        } else {
            let closed = RecordState { phase: BuilderPhase::SectionClosed, ..st };
            if record_level_two(closed) && !record_buildable(closed) {
                (corrupted(closed), Some(ErrorKind::IncompleteRecord))
            } else {
                (closed, None)
            }
        }
    } else if metadata_line(line) {
        match metadata_digest(st.metadata, line) {
            Ok(m) => (RecordState { metadata: m, ..st }, None),
            Err(k) => (corrupted(st), Some(k)),
        }
    } else if st.spectra.len() > 0 {
        match data_digest(st.spectra.last(), line) {
            Ok(s) => (RecordState { spectra: st.spectra.update(st.spectra.len() - 1, s), ..st }, None),
            Err(k) => (corrupted(st), Some(k)),
        }
    } else {
        (corrupted(st), Some(ErrorKind::LineOutsideSection))
    }
}

/// What building the spectra gives, the first error first.
pub open spec fn spectra_build_outcome(ss: Seq<SpectrumState>) -> Result<Seq<SpectrumView>, ErrorKind>
    decreases ss.len(),
{
    if ss.len() == 0 {
        Ok(Seq::empty())
    } else {
        match data_build_outcome(ss[0]) {
            Err(k) => Err(k),
            Ok(x) => match spectra_build_outcome(ss.drop_first()) {
                Err(k) => Err(k),
                Ok(v) => Ok(seq![x] + v),
            },
        }
    }
}

/// What building from the state `st` gives: the record, or the error.
pub open spec fn record_build_outcome(st: RecordState) -> Result<RecordView, ErrorKind> {
    if st.phase == BuilderPhase::Corrupted {
        Err(ErrorKind::Corrupted)
    } else {
        match metadata_build_outcome(st.metadata) {
            Err(k) => Err(k),
            Ok(m) => match spectra_build_outcome(st.spectra) {
                Err(k) => Err(k),
                Ok(ss) => match record_error(m, ss) {
                    Some(k) => Err(k),
                    None => Ok(RecordView { metadata: m, spectra: ss }),
                },
            },
        }
    }
}

/// Building a record keeps, exactly, the feature id, parent ion mass, retention time
/// and charge that its builder gathered.
pub proof fn lemma_build_keeps_observed_fields(st: RecordState)
    requires
        record_build_outcome(st) is Ok,
    ensures
        ({
            let v = record_build_outcome(st)->Ok_0.metadata;
            &&& st.metadata.feature_id == Some(v.feature_id)
            &&& st.metadata.parent_ion_mass == Some(v.parent_ion_mass)
            &&& st.metadata.retention_time == v.retention_time
            &&& st.metadata.charge == Some(v.charge)
        }),
{
}

/// The state of a builder that has read nothing.
pub open spec fn empty_record_state() -> RecordState {
    RecordState {
        phase: BuilderPhase::Idle,
        metadata: MetadataState {
            feature_id: None,
            parent_ion_mass: None,
            retention_time: None,
            charge: None,
            ion_mode: None,
            organism: None,
            sequence: None,
            source_instrument: None,
            filename: None,
            name: None,
            smiles: None,
            pubmed_id: None,
            spectrum_id: None,
            minus_one_scans: false,
            merged_scans: None,
        },
        spectra: Seq::empty(),
    }
}

/// The states of a sequence of spectrum builders.
pub open spec fn spectrum_states(v: Seq<MascotGenericFormatDataBuilder>) -> Seq<SpectrumState> {
    v.map_values(|b: MascotGenericFormatDataBuilder| b.state())
}

/// Builder of a [`MascotGenericFormat`], fed one line at a time.
#[derive(Debug)]
pub struct MascotGenericFormatBuilder {
    metadata_builder: MascotGenericFormatMetadataBuilder,
    data_builders: Vec<MascotGenericFormatDataBuilder>,
    phase: BuilderPhase,
}

impl Default for MascotGenericFormatBuilder {
    fn default() -> (r: MascotGenericFormatBuilder)
        ensures
            r.state() == empty_record_state(),
    {
        let r = MascotGenericFormatBuilder {
            metadata_builder: MascotGenericFormatMetadataBuilder::default(),
            data_builders: Vec::new(),
            phase: BuilderPhase::Idle,
        };
        assert(r.state().spectra =~= Seq::<SpectrumState>::empty());
        r
    }
}

impl MascotGenericFormatBuilder {
    /// What the builder has gathered.
    pub closed spec fn state(self) -> RecordState {
        RecordState {
            phase: self.phase,
            metadata: self.metadata_builder.state(),
            spectra: spectrum_states(self.data_builders@),
        }
    }

    /// A builder that has read nothing.
    pub fn new() -> (r: MascotGenericFormatBuilder)
        ensures
            r.state() == empty_record_state(),
    {
        MascotGenericFormatBuilder::default()
    }

    /// Returns whether the line opens a section.
    pub fn is_start_of_new_entry(line: &str) -> (r: bool)
        ensures
            r == (line@ == "BEGIN IONS"@),
    {
        text_eq(line, "BEGIN IONS")
    }

    /// Returns whether the line closes a section.
    pub fn is_end_of_entry(line: &str) -> (r: bool)
        ensures
            r == (line@ == "END IONS"@),
    {
        text_eq(line, "END IONS")
    }

    /// Returns whether some part of the builder recognises the line.
    pub fn can_parse_line(line: &str) -> (r: bool)
        ensures
            r == (line@ == "BEGIN IONS"@ || line@ == "END IONS"@ || metadata_line(line@) || data_line(
                line@,
            )),
    {
        Self::is_start_of_new_entry(line) || Self::is_end_of_entry(line)
            || MascotGenericFormatMetadataBuilder::can_parse_line(line)
            || MascotGenericFormatDataBuilder::can_parse_line(line)
    }

    /// Returns whether the builder is corrupted.
    pub fn is_corrupted(&self) -> (r: bool)
        ensures
            r == (self.state().phase == BuilderPhase::Corrupted),
    {
        self.phase == BuilderPhase::Corrupted
    }

    /// Returns whether some spectrum has level two.
    pub fn is_level_two(&self) -> (r: bool)
        ensures
            r == record_level_two(self.state()),
    {
        let ghost ss = self.state().spectra;
        let mut i: usize = 0;
        while i < self.data_builders.len()
            invariant
                i <= self.data_builders@.len(),
                ss == self.state().spectra,
                ss.len() == self.data_builders@.len(),
                forall|k: int| 0 <= k < i ==> #[trigger] ss[k].level != Some(FragmentationSpectraLevel::Two),
            decreases self.data_builders.len() - i,
        {
            if let Ok(true) = self.data_builders[i].is_level_two() {
                assert(ss[i as int].level == Some(FragmentationSpectraLevel::Two));
                return true;
            }
            i += 1;
        }
        false
    }

    /// Returns whether some spectrum has no peak.
    pub fn has_empty_data_builders(&self) -> (r: bool)
        ensures
            r == exists|i: int| 0 <= i < self.state().spectra.len() && #[trigger] self.state().spectra[i].ratios.len() == 0,
    {
        let ghost ss = self.state().spectra;
        let mut i: usize = 0;
        while i < self.data_builders.len()
            invariant
                i <= self.data_builders@.len(),
                ss == self.state().spectra,
                ss.len() == self.data_builders@.len(),
                forall|k: int| 0 <= k < i ==> #[trigger] ss[k].ratios.len() != 0,
            decreases self.data_builders.len() - i,
        {
            if self.data_builders[i].is_empty() {
                assert(ss[i as int].ratios.len() == 0);
                return true;
            }
            i += 1;
        }
        false
    }

    /// Returns whether the builder waits for a continuation of the record.
    pub fn is_partial(&self) -> (r: bool)
        ensures
            r == record_partial(self.state()),
    {
        self.metadata_builder.is_partial() && !self.is_level_two() && self.phase
            != BuilderPhase::SectionOpen
    }

    /// Returns the feature id, if known.
    pub fn feature_id(&self) -> (r: Option<usize>)
        ensures
            r == self.state().metadata.feature_id,
    {
        self.metadata_builder.feature_id()
    }

    /// Returns whether a record can be built.
    pub fn can_build(&self) -> (r: bool)
        ensures
            r == record_buildable(self.state()),
    {
        if self.phase == BuilderPhase::SectionOpen || self.phase == BuilderPhase::Corrupted
            || !self.metadata_builder.can_build() || self.data_builders.len() == 0 {
            return false;
        }
        let ghost ss = self.state().spectra;
        let mut i: usize = 0;
        while i < self.data_builders.len()
            invariant
                i <= self.data_builders@.len(),
                ss == self.state().spectra,
                ss.len() == self.data_builders@.len(),
                forall|k: int| 0 <= k < i ==> data_buildable(#[trigger] ss[k]),
            decreases self.data_builders.len() - i,
        {
            if !self.data_builders[i].can_build() {
                assert(!data_buildable(ss[i as int]));
                return false;
            }
            i += 1;
        }
        true
    }

    /// Reads one line of the record, as [`record_digest`] says; an error corrupts the
    /// builder.
    pub fn digest_line(&mut self, line: &str) -> (r: Result<(), MgfError>)
        ensures
            final(self).state() == record_digest(old(self).state(), line@).0,
            match record_digest(old(self).state(), line@).1 {
                None => r is Ok,
                Some(k) => fails_with(r, k, line@),
            },
    {
        let ghost st = self.state();
        if self.phase == BuilderPhase::Corrupted {
            return Err(MgfError::new(ErrorKind::Corrupted, line));
        }
        if Self::is_start_of_new_entry(line) {
            self.phase = BuilderPhase::SectionOpen;
            self.data_builders.push(MascotGenericFormatDataBuilder::default());
            assert(self.state().spectra =~= st.spectra.push(
                SpectrumState {
                    level: None,
                    ratios: Seq::<int>::empty(),
                    intensities: Seq::<int>::empty(),
                },
            ));
            return Ok(());
        }
        if Self::is_end_of_entry(line) {
            proof {
                reveal_strlit("BEGIN IONS");
                reveal_strlit("END IONS");
                assert("BEGIN IONS"@[0] != "END IONS"@[0]);
            }
            let n = self.data_builders.len();
            if self.phase != BuilderPhase::SectionOpen || n == 0 {
                self.phase = BuilderPhase::Corrupted;
                return Err(MgfError::new(ErrorKind::EndWithoutBegin, line));
            }
            if !self.data_builders[n - 1].can_build() {
                let empty = self.data_builders[n - 1].is_empty();
                self.phase = BuilderPhase::Corrupted;
                if empty {
                    return Err(MgfError::new(ErrorKind::EmptyLevel, line));
                }
                return Err(MgfError::new(ErrorKind::IncompleteLevel, line));
            }
            self.phase = BuilderPhase::SectionClosed;
            if self.is_level_two() && !self.can_build() {
                self.phase = BuilderPhase::Corrupted;
                return Err(MgfError::new(ErrorKind::IncompleteRecord, line));
            }
            return Ok(());
        }
        if MascotGenericFormatMetadataBuilder::can_parse_line(line) {
            match self.metadata_builder.digest_line(line) {
                Ok(()) => {
                    return Ok(());
                },
                Err(e) => {
                    self.phase = BuilderPhase::Corrupted;
                    return Err(e);
                },
            }
        }
        let n = self.data_builders.len();
        if n == 0 {
            self.phase = BuilderPhase::Corrupted;
            return Err(MgfError::new(ErrorKind::LineOutsideSection, line));
        }
        let mut last = self.data_builders.pop().unwrap();
        assert(last.state() == st.spectra.last());
        let outcome = last.digest_line(line);
        self.data_builders.push(last);
        assert(self.state().spectra =~= st.spectra.update(st.spectra.len() - 1, last.state()));
        match outcome {
            Ok(()) => Ok(()),
            Err(e) => {
                assert(self.state().spectra =~= st.spectra);
                self.phase = BuilderPhase::Corrupted;
                Err(e)
            },
        }
    }

    /// Builds the record, as [`record_build_outcome`] says.
    pub fn build(self) -> (r: Result<MascotGenericFormat, MgfError>)
        ensures
            match record_build_outcome(self.state()) {
                Err(k) => fails_as(r, k),
                Ok(v) => r matches Ok(m) && m.view() == v,
            },
    {
        if self.phase == BuilderPhase::Corrupted {
            return Err(MgfError::of_kind(ErrorKind::Corrupted));
        }
        let ghost whole = spectrum_states(self.data_builders@);
        let ghost st = self.state();
        let metadata = self.metadata_builder.build()?;
        let mut builders = self.data_builders;
        let mut data: Vec<MascotGenericFormatData> = Vec::new();
        while builders.len() > 0
            invariant
                spectra_build_outcome(whole) == match spectra_build_outcome(spectrum_states(builders@)) {
                    Err(k) => Err(k),
                    Ok(v) => Ok(spectra_view(data@) + v),
                },
                st.phase != BuilderPhase::Corrupted,
                st.spectra == whole,
                st == self.state(),
                metadata_build_outcome(st.metadata) == Ok::<_, ErrorKind>(metadata.view()),
            decreases builders@.len(),
        {
            let ghost before = builders@;
            let b = builders.remove(0);
            assert(spectrum_states(before).drop_first() =~= spectrum_states(builders@));
            assert(spectrum_states(before)[0] == b.state());
            let d = match b.build() {
                Ok(d) => d,
                Err(e) => {
                    assert(spectra_build_outcome(spectrum_states(before)) is Err);
                    return Err(e);
                },
            };
            let ghost old_data = data@;
            data.push(d);
            proof {
                assert(spectra_view(data@) =~= spectra_view(old_data) + seq![d.view()]);
                let t = spectra_build_outcome(spectrum_states(builders@));
                if t is Ok {
                    assert(spectra_view(old_data) + (seq![d.view()] + t->Ok_0) =~= spectra_view(data@) + t->Ok_0);
                }
            }
        }
        assert(spectra_view(data@) + Seq::<SpectrumView>::empty() =~= spectra_view(data@));
        MascotGenericFormat::new(metadata, data)
    }
}

} // verus!
