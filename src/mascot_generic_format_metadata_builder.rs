//! Accumulates the metadata lines of one record.
use vstd::prelude::*;
use crate::charge::{Charge, charge_of};
use crate::decimal::{Decimal, decimal_of};
use crate::error::{ErrorKind, MgfError, fails_as, fails_with};
use crate::gnps_spectrum_id::{GNPSSpectrumID, gnps_id_of};
use crate::ionmode::{IonMode, ion_mode_of};
use crate::mascot_generic_format_metadata::{
    MascotGenericFormatMetadata, MetadataView, decimal_view, metadata_error, pubmed_view,
    text_view,
};
use crate::merge_scans_metadata_builder::{
    MergeScansMetadataBuilder, MergeState, merge_build_outcome, merge_buildable, merge_digest,
    merge_line,
};
use crate::pubmed_id::{PubMedID, pubmed_text_of};
use crate::text::{is_prefix_of, parse_usize, starts_with, strip_prefix, text_eq, usize_of};

verus! {

/// What a metadata builder has gathered.
pub struct MetadataState {
    pub feature_id: Option<usize>,
    pub parent_ion_mass: Option<int>,
    pub retention_time: Option<int>,
    pub charge: Option<int>,
    pub ion_mode: Option<IonMode>,
    pub organism: Option<Seq<char>>,
    pub sequence: Option<Seq<char>>,
    pub source_instrument: Option<Seq<char>>,
    pub filename: Option<Seq<char>>,
    pub name: Option<Seq<char>>,
    pub smiles: Option<Seq<char>>,
    pub pubmed_id: Option<(usize, Option<Seq<char>>)>,
    pub spectrum_id: Option<usize>,
    /// Whether the last `SCANS=` line was `SCANS=-1`.
    pub minus_one_scans: bool,
    pub merged_scans: Option<MergeState>,
}

/// The state of a merged-scans builder that has read nothing.
pub open spec fn empty_merge_state() -> MergeState {
    MergeState {
        scans: Seq::<usize>::empty(),
        low_quality: None,
        low_cosine: None,
        total: None,
    }
}

/// A field given again: kept if the value is the same, set if there was none, an
/// inconsistency otherwise.
pub open spec fn keep_or_set<T>(current: Option<T>, v: T) -> Result<Option<T>, ErrorKind> {
    match current {
        Some(c) => if c == v {
            Ok(current)
        } else {
            Err(ErrorKind::Inconsistent)
        },
        None => Ok(Some(v)),
    }
}

/// The text of `line` after the key `key`.
pub open spec fn value_after(line: Seq<char>, key: Seq<char>) -> Seq<char> {
    line.subrange(key.len() as int, line.len() as int)
}

/// A strictly positive quantity, or the error its text raises.
pub open spec fn positive_of(t: Seq<char>) -> Result<int, ErrorKind> {
    match decimal_of(t) {
        Err(e) => Err(ErrorKind::InvalidNumber(e)),
        Ok(x) => if x <= 0 {
            Err(ErrorKind::NotStrictlyPositive)
        } else {
            Ok(x)
        },
    }
}

/// The texts that the metadata builder keeps as they are given.
#[derive(Clone, Copy, Debug, PartialEq, Eq, Structural)]
pub enum TextKey {
    SourceInstrument,
    Organism,
    Filename,
    Name,
    Smiles,
}

/// The text field `key` of the state `st`.
pub open spec fn text_field(st: MetadataState, key: TextKey) -> Option<Seq<char>> {
    match key {
        TextKey::SourceInstrument => st.source_instrument,
        TextKey::Organism => st.organism,
        TextKey::Filename => st.filename,
        TextKey::Name => st.name,
        TextKey::Smiles => st.smiles,
    }
}

/// The state `st` with the text field `key` set to `v`.
pub open spec fn with_text_field(st: MetadataState, key: TextKey, v: Option<Seq<char>>) -> MetadataState {
    match key {
        TextKey::SourceInstrument => MetadataState { source_instrument: v, ..st },
        TextKey::Organism => MetadataState { organism: v, ..st },
        TextKey::Filename => MetadataState { filename: v, ..st },
        TextKey::Name => MetadataState { name: v, ..st },
        TextKey::Smiles => MetadataState { smiles: v, ..st },
    }
}

/// Reading the value `v` of the text field `key`.
pub open spec fn text_step(st: MetadataState, key: TextKey, v: Seq<char>) -> Result<MetadataState, ErrorKind> {
    if key == TextKey::Smiles && v == "N/A"@ {
        Ok(st)
    } else {
        match keep_or_set(text_field(st, key), v) {
            Err(k) => Err(k),
            Ok(f) => Ok(with_text_field(st, key, f)),
        }
    }
}

/// Reading `FEATURE_ID=` and the value `v`.
pub open spec fn feature_id_step(st: MetadataState, v: Seq<char>) -> Result<MetadataState, ErrorKind> {
    match usize_of(v) {
        None => Err(ErrorKind::InvalidInteger),
        Some(id) => match keep_or_set(st.feature_id, id) {
            Err(k) => Err(k),
            Ok(f) => Ok(MetadataState { feature_id: f, ..st }),
        },
    }
}

/// Reading `PEPMASS=` and the value `v`.
pub open spec fn parent_ion_mass_step(st: MetadataState, v: Seq<char>) -> Result<MetadataState, ErrorKind> {
    match positive_of(v) {
        Err(k) => Err(k),
        Ok(x) => match keep_or_set(st.parent_ion_mass, x) {
            Err(k) => Err(k),
            Ok(f) => Ok(MetadataState { parent_ion_mass: f, ..st }),
        },
    }
}

/// Reading `RTINSECONDS=` and the value `v`.
pub open spec fn retention_time_step(st: MetadataState, v: Seq<char>) -> Result<MetadataState, ErrorKind> {
    match positive_of(v) {
        Err(k) => Err(k),
        Ok(x) => match keep_or_set(st.retention_time, x) {
            Err(k) => Err(k),
            Ok(f) => Ok(MetadataState { retention_time: f, ..st }),
        },
    }
}

/// Reading `SCANS=` and the value `v`: `-1` announces a continuation; another number
/// must be the feature id (and gives it, where it is not yet known).
pub open spec fn scans_step(st: MetadataState, v: Seq<char>) -> Result<MetadataState, ErrorKind> {
    if v == "-1"@ {
        Ok(MetadataState { minus_one_scans: true, ..st })
    } else {
        match usize_of(v) {
            None => Err(ErrorKind::InvalidInteger),
            Some(s) => match st.feature_id {
                Some(f) => if f != s {
                    Err(ErrorKind::ScanMismatch)
                } else {
                    Ok(MetadataState { minus_one_scans: false, ..st })
                },
                None => Ok(MetadataState { feature_id: Some(s), minus_one_scans: false, ..st }),
            },
        }
    }
}

/// Reading the line `line`, which begins with `CHARGE=`.
pub open spec fn charge_step(st: MetadataState, line: Seq<char>) -> Result<MetadataState, ErrorKind> {
    match charge_of(line) {
        None => Err(ErrorKind::InvalidCharge),
        Some(c) => match keep_or_set(st.charge, c) {
            Err(k) => Err(k),
            Ok(f) => Ok(MetadataState { charge: f, ..st }),
        },
    }
}

/// Reading `IONMODE=` and the value `v`; the marker `N/A` is passed over.
pub open spec fn ion_mode_step(st: MetadataState, v: Seq<char>) -> Result<MetadataState, ErrorKind> {
    if v == "N/A"@ {
        Ok(st)
    } else {
        match ion_mode_of(v) {
            None => Err(ErrorKind::InvalidIonMode),
            Some(m) => match keep_or_set(st.ion_mode, m) {
                Err(k) => Err(k),
                Ok(f) => Ok(MetadataState { ion_mode: f, ..st }),
            },
        }
    }
}

/// Reading `SEQ=` and the value `v`; the placeholder `*..*` is passed over, whether or
/// not a sequence is known.
pub open spec fn sequence_step(st: MetadataState, v: Seq<char>) -> Result<MetadataState, ErrorKind> {
    if v == "*..*"@ {
        Ok(st)
    } else {
        match st.sequence {
            Some(c) => if c == v {
                Ok(st)
            } else {
                Err(ErrorKind::Inconsistent)
            },
            None => Ok(MetadataState { sequence: Some(v), ..st }),
        }
    }
}

/// Reading the line `line`, which begins with `PUBMED=`.
pub open spec fn pubmed_step(st: MetadataState, line: Seq<char>) -> Result<MetadataState, ErrorKind> {
    match pubmed_text_of(line) {
        Err(k) => Err(k),
        Ok(p) => match keep_or_set(st.pubmed_id, p) {
            Err(k) => Err(k),
            Ok(f) => Ok(MetadataState { pubmed_id: f, ..st }),
        },
    }
}

/// Reading `SPECTRUMID=` and the value `v`.
pub open spec fn spectrum_id_step(st: MetadataState, v: Seq<char>) -> Result<MetadataState, ErrorKind> {
    match gnps_id_of(v) {
        None => Err(ErrorKind::InvalidSpectrumId),
        Some(g) => match keep_or_set(st.spectrum_id, g) {
            Err(k) => Err(k),
            Ok(f) => Ok(MetadataState { spectrum_id: f, ..st }),
        },
    }
}

/// Reading a merged-scans line, with a merged-scans builder begun on the first one.
pub open spec fn merge_step(st: MetadataState, line: Seq<char>) -> Result<MetadataState, ErrorKind> {
    let ms = match st.merged_scans {
        Some(m) => m,
        None => empty_merge_state(),
    };
    match merge_digest(ms, line) {
        Err(k) => Err(k),
        Ok(m) => Ok(MetadataState { merged_scans: Some(m), ..st }),
    }
}

/// The state after one metadata line, or the error that the line raises (the state
/// then stays as it was).
pub open spec fn metadata_digest(st: MetadataState, line: Seq<char>) -> Result<MetadataState, ErrorKind> {
    if is_prefix_of("FEATURE_ID="@, line) {
        feature_id_step(st, value_after(line, "FEATURE_ID="@))
    } else if is_prefix_of("PEPMASS="@, line) {
        parent_ion_mass_step(st, value_after(line, "PEPMASS="@))
    } else if is_prefix_of("SCANS="@, line) {
        scans_step(st, value_after(line, "SCANS="@))
    } else if is_prefix_of("CHARGE="@, line) {
        charge_step(st, line)
    } else if is_prefix_of("IONMODE="@, line) {
        ion_mode_step(st, value_after(line, "IONMODE="@))
    } else if is_prefix_of("SEQ="@, line) {
        sequence_step(st, value_after(line, "SEQ="@))
    } else if is_prefix_of("SOURCE_INSTRUMENT="@, line) {
        text_step(st, TextKey::SourceInstrument, value_after(line, "SOURCE_INSTRUMENT="@))
    } else if is_prefix_of("RTINSECONDS="@, line) {
        retention_time_step(st, value_after(line, "RTINSECONDS="@))
    } else if is_prefix_of("ORGANISM="@, line) {
        text_step(st, TextKey::Organism, value_after(line, "ORGANISM="@))
    } else if is_prefix_of("FILENAME="@, line) {
        text_step(st, TextKey::Filename, value_after(line, "FILENAME="@))
    } else if is_prefix_of("NAME="@, line) {
        text_step(st, TextKey::Name, value_after(line, "NAME="@))
    } else if is_prefix_of("SMILES="@, line) {
        text_step(st, TextKey::Smiles, value_after(line, "SMILES="@))
    } else if is_prefix_of("PUBMED="@, line) {
        pubmed_step(st, line)
    } else if is_prefix_of("SPECTRUMID="@, line) {
        spectrum_id_step(st, value_after(line, "SPECTRUMID="@))
    } else if merge_line(line) {
        merge_step(st, line)
    } else {
        Err(ErrorKind::UnexpectedLine)
    }
}

/// Whether `r`, `before` and `after` are what reading `line` gives by the outcome `o`.
pub open spec fn digested<T>(
    o: Result<T, ErrorKind>,
    r: Result<(), MgfError>,
    after: T,
    before: T,
    line: Seq<char>,
) -> bool {
    match o {
        Ok(st) => r is Ok && after == st,
        Err(k) => fails_with(r, k, line) && after == before,
    }
}

/// Reading a metadata line a second time, right after it was read without error,
/// changes nothing and raises no error.
pub proof fn lemma_digest_again(st: MetadataState, line: Seq<char>)
    requires
        metadata_digest(st, line) is Ok,
    ensures
        metadata_digest(metadata_digest(st, line)->Ok_0, line) == metadata_digest(st, line),
{
}

/// Whether `line` is a metadata line: it begins with one of the keys this builder
/// reads.
pub open spec fn metadata_line(line: Seq<char>) -> bool {
    is_prefix_of("FEATURE_ID="@, line) || is_prefix_of("PEPMASS="@, line) || is_prefix_of(
        "SCANS="@,
        line,
    ) || is_prefix_of("RTINSECONDS="@, line) || is_prefix_of("FILENAME="@, line)
        || is_prefix_of("SOURCE_INSTRUMENT="@, line) || is_prefix_of("IONMODE="@, line)
        || is_prefix_of("ORGANISM="@, line) || is_prefix_of("SEQ="@, line) || is_prefix_of(
        "CHARGE="@,
        line,
    ) || is_prefix_of("NAME="@, line) || is_prefix_of("SMILES="@, line) || is_prefix_of(
        "PUBMED="@,
        line,
    ) || is_prefix_of("SPECTRUMID="@, line) || merge_line(line)
}

/// Whether metadata can be built from the state `st`: feature id, parent ion mass,
/// retention time and charge are known, no continuation is expected, and merged-scan
/// provenance, if begun, is complete.
pub open spec fn metadata_buildable(st: MetadataState) -> bool {
    &&& st.feature_id is Some
    &&& st.parent_ion_mass is Some
    &&& st.retention_time is Some
    &&& st.charge is Some
    &&& !st.minus_one_scans
    &&& (st.merged_scans matches Some(m) ==> merge_buildable(m))
}

/// What building from the state `st` gives: the view of the metadata, or the error.
pub open spec fn metadata_build_outcome(st: MetadataState) -> Result<MetadataView, ErrorKind> {
    if st.minus_one_scans {
        Err(ErrorKind::PartialRecord)
    } else if st.feature_id is None {
        Err(ErrorKind::MissingFeatureId)
    } else if st.parent_ion_mass is None {
        Err(ErrorKind::MissingParentIonMass)
    } else if st.retention_time is None {
        Err(ErrorKind::MissingRetentionTime)
    } else if st.charge is None {
        Err(ErrorKind::MissingCharge)
    } else {
        let merged = match st.merged_scans {
            None => Ok(None),
            Some(m) => match merge_build_outcome(m) {
                Err(k) => Err(k),
                Ok(v) => Ok(Some(v)),
            },
        };
        match merged {
            Err(k) => Err(k),
            Ok(merged_scans) => {
                let v = MetadataView {
                    feature_id: st.feature_id->0,
                    parent_ion_mass: st.parent_ion_mass->0,
                    retention_time: st.retention_time,
                    charge: st.charge->0,
                    ion_mode: st.ion_mode,
                    source_instrument: st.source_instrument,
                    sequence: st.sequence,
                    organism: st.organism,
                    name: st.name,
                    smiles: st.smiles,
                    filename: st.filename,
                    pubmed_id: st.pubmed_id,
                    spectrum_id: st.spectrum_id,
                    merged_scans,
                };
                match metadata_error(v) {
                    Some(k) => Err(k),
                    None => Ok(v),
                }
            },
        }
    }
}

/// Builder of a [`MascotGenericFormatMetadata`], fed one line at a time.
#[derive(Debug)]
pub struct MascotGenericFormatMetadataBuilder {
    feature_id: Option<usize>,
    parent_ion_mass: Option<Decimal>,
    retention_time: Option<Decimal>,
    charge: Option<Charge>,
    ion_mode: Option<IonMode>,
    organism: Option<String>,
    sequence: Option<String>,
    source_instrument: Option<String>,
    filename: Option<String>,
    name: Option<String>,
    smiles: Option<String>,
    pubmed_id: Option<PubMedID>,
    spectrum_id: Option<GNPSSpectrumID>,
    minus_one_scans: bool,
    merge_scans_metadata_builder: Option<MergeScansMetadataBuilder>,
}

impl Default for MascotGenericFormatMetadataBuilder {
    fn default() -> (r: MascotGenericFormatMetadataBuilder)
        ensures
            r.state() == (MetadataState {
                feature_id: None,
                parent_ion_mass: None,
                retention_time: None,
                charge: None,
                ion_mode: None,
                organism: None,
                sequence: None,
                source_instrument: None,
                filename: None,
                name: None,
                smiles: None,
                pubmed_id: None,
                spectrum_id: None,
                minus_one_scans: false,
                merged_scans: None,
            }),
    {
        MascotGenericFormatMetadataBuilder {
            feature_id: None,
            parent_ion_mass: None,
            retention_time: None,
            charge: None,
            ion_mode: None,
            organism: None,
            sequence: None,
            source_instrument: None,
            filename: None,
            name: None,
            smiles: None,
            pubmed_id: None,
            spectrum_id: None,
            minus_one_scans: false,
            merge_scans_metadata_builder: None,
        }
    }
}

/// The text of `line` after `key`, where `line` begins with it.
fn value_of<'a>(line: &'a str, key: &str) -> (r: Option<&'a str>)
    ensures
        r is Some <==> is_prefix_of(key@, line@),
        r matches Some(v) ==> v@ == value_after(line@, key@),
{
    match strip_prefix(line, key) {
        Some(v) => {
            assert(v@ =~= value_after(line@, key@));
            Some(v)
        },
        None => None,
    }
}

/// Sets or checks a text field.
fn update_text(field: &mut Option<String>, v: &str) -> (r: bool)
    ensures
        match keep_or_set(text_view(*old(field)), v@) {
            Ok(f) => r && text_view(*final(field)) == f,
            Err(_) => !r && *final(field) == *old(field),
        },
{
    match field {
        Some(c) => text_eq(c.as_str(), v),
        None => {
            *field = Some(v.to_owned());
            true
        },
    }
}

/// Sets or checks a quantity.
fn update_decimal(field: &mut Option<Decimal>, v: Decimal) -> (r: bool)
    ensures
        match keep_or_set(decimal_view(*old(field)), v.value()) {
            Ok(f) => r && decimal_view(*final(field)) == f,
            Err(_) => !r && *final(field) == *old(field),
        },
{
    match field {
        Some(c) => c.units() == v.units(),
        None => {
            *field = Some(v);
            true
        },
    }
}

/// Reads a strictly positive quantity.
fn parse_positive(t: &str, line: &str) -> (r: Result<Decimal, MgfError>)
    ensures
        match positive_of(t@) {
            Err(k) => fails_with(r, k, line@),
            Ok(x) => r matches Ok(d) && d.value() == x,
        },
{
    match Decimal::parse(t) {
        Err(e) => Err(MgfError::new(ErrorKind::InvalidNumber(e), line)),
        Ok(x) => if x.units() <= 0 {
            Err(MgfError::new(ErrorKind::NotStrictlyPositive, line))
        } else {
            Ok(x)
        },
    }
}

fn same_pubmed(a: &PubMedID, b: &PubMedID) -> (r: bool)
    ensures
        r == (a.id_spec() == b.id_spec() && a.doi_spec() == b.doi_spec()),
{
    if a.id() != b.id() {
        return false;
    }
    match (a.doi(), b.doi()) {
        (Some(x), Some(y)) => text_eq(x, y),
        (None, None) => true,
        _ => false,
    }
}

impl MascotGenericFormatMetadataBuilder {
    /// What the builder has gathered.
    pub closed spec fn state(self) -> MetadataState {
        MetadataState {
            feature_id: self.feature_id,
            parent_ion_mass: decimal_view(self.parent_ion_mass),
            retention_time: decimal_view(self.retention_time),
            charge: match self.charge {
                Some(c) => Some(c.value()),
                None => None,
            },
            ion_mode: self.ion_mode,
            organism: text_view(self.organism),
            sequence: text_view(self.sequence),
            source_instrument: text_view(self.source_instrument),
            filename: text_view(self.filename),
            name: text_view(self.name),
            smiles: text_view(self.smiles),
            pubmed_id: pubmed_view(self.pubmed_id),
            spectrum_id: match self.spectrum_id {
                Some(g) => Some(g.value()),
                None => None,
            },
            minus_one_scans: self.minus_one_scans,
            merged_scans: match self.merge_scans_metadata_builder {
                Some(b) => Some(b.state()),
                None => None,
            },
        }
    }

    /// Returns whether `line` begins with one of the keys this builder reads.
    pub fn can_parse_line(line: &str) -> (r: bool)
        ensures
            r == metadata_line(line@),
    {
        starts_with(line, "FEATURE_ID=") || starts_with(line, "PEPMASS=") || starts_with(
            line,
            "SCANS=",
        ) || starts_with(line, "RTINSECONDS=") || starts_with(line, "FILENAME=") || starts_with(
            line,
            "SOURCE_INSTRUMENT=",
        ) || starts_with(line, "IONMODE=") || starts_with(line, "ORGANISM=") || starts_with(
            line,
            "SEQ=",
        ) || starts_with(line, "CHARGE=") || starts_with(line, "NAME=") || starts_with(
            line,
            "SMILES=",
        ) || starts_with(line, "PUBMED=") || starts_with(line, "SPECTRUMID=")
            || MergeScansMetadataBuilder::can_parse_line(line)
    }

    /// Returns whether metadata can be built.
    pub fn can_build(&self) -> (r: bool)
        ensures
            r == metadata_buildable(self.state()),
    {
        let merged_ready = match &self.merge_scans_metadata_builder {
            Some(b) => b.can_build(),
            None => true,
        };
        self.feature_id.is_some() && self.parent_ion_mass.is_some() && self.retention_time.is_some()
            && self.charge.is_some() && !self.minus_one_scans && merged_ready
    }

    /// Returns whether the last `SCANS=` line was `SCANS=-1`: a continuation of the
    /// record is expected.
    pub fn is_partial(&self) -> (r: bool)
        ensures
            r == self.state().minus_one_scans,
    {
        self.minus_one_scans
    }

    /// Returns the feature id, if known.
    pub fn feature_id(&self) -> (r: Option<usize>)
        ensures
            r == self.state().feature_id,
    {
        self.feature_id
    }

    /// Reads one metadata line. A field given twice must have the same value both
    /// times; `IONMODE=N/A`, `SMILES=N/A` and `SEQ=*..*` are passed over in every state.
    pub fn digest_line(&mut self, line: &str) -> (r: Result<(), MgfError>)
        ensures
            digested(metadata_digest(old(self).state(), line@), r, final(self).state(), old(self).state(), line@),
    {
        if let Some(v) = value_of(line, "FEATURE_ID=") {
            return self.digest_feature_id(v, line);
        }
        if let Some(v) = value_of(line, "PEPMASS=") {
            return self.digest_parent_ion_mass(v, line);
        }
        if let Some(v) = value_of(line, "SCANS=") {
            return self.digest_scans(v, line);
        }
        if starts_with(line, "CHARGE=") {
            return self.digest_charge(line);
        }
        if let Some(v) = value_of(line, "IONMODE=") {
            return self.digest_ion_mode(v, line);
        }
        if let Some(v) = value_of(line, "SEQ=") {
            return self.digest_sequence(v, line);
        }
        if let Some(v) = value_of(line, "SOURCE_INSTRUMENT=") {
            return self.digest_text(TextKey::SourceInstrument, v, line);
        }
        if let Some(v) = value_of(line, "RTINSECONDS=") {
            return self.digest_retention_time(v, line);
        }
        if let Some(v) = value_of(line, "ORGANISM=") {
            return self.digest_text(TextKey::Organism, v, line);
        }
        if let Some(v) = value_of(line, "FILENAME=") {
            return self.digest_text(TextKey::Filename, v, line);
        }
        if let Some(v) = value_of(line, "NAME=") {
            return self.digest_text(TextKey::Name, v, line);
        }
        if let Some(v) = value_of(line, "SMILES=") {
            return self.digest_text(TextKey::Smiles, v, line);
        }
        if starts_with(line, "PUBMED=") {
            return self.digest_pubmed(line);
        }
        if let Some(v) = value_of(line, "SPECTRUMID=") {
            return self.digest_spectrum_id(v, line);
        }
        if MergeScansMetadataBuilder::can_parse_line(line) {
            return self.digest_merged(line);
        }
        Err(MgfError::new(ErrorKind::UnexpectedLine, line))
    }

    fn digest_feature_id(&mut self, v: &str, line: &str) -> (r: Result<(), MgfError>)
        ensures
            digested(feature_id_step(old(self).state(), v@), r, final(self).state(), old(self).state(), line@),
    {
        let id = match parse_usize(v) {
            Some(id) => id,
            None => {
                return Err(MgfError::new(ErrorKind::InvalidInteger, line));
            },
        };
        match self.feature_id {
            Some(f) => {
                if f != id {
                    return Err(MgfError::new(ErrorKind::Inconsistent, line));
                }
            },
            None => {
                self.feature_id = Some(id);
            },
        }
        Ok(())
    }

    fn digest_parent_ion_mass(&mut self, v: &str, line: &str) -> (r: Result<(), MgfError>)
        ensures
            digested(parent_ion_mass_step(old(self).state(), v@), r, final(self).state(), old(self).state(), line@),
    {
        let x = parse_positive(v, line)?;
        if !update_decimal(&mut self.parent_ion_mass, x) {
            return Err(MgfError::new(ErrorKind::Inconsistent, line));
        }
        Ok(())
    }

    fn digest_retention_time(&mut self, v: &str, line: &str) -> (r: Result<(), MgfError>)
        ensures
            digested(retention_time_step(old(self).state(), v@), r, final(self).state(), old(self).state(), line@),
    {
        let x = parse_positive(v, line)?;
        if !update_decimal(&mut self.retention_time, x) {
            return Err(MgfError::new(ErrorKind::Inconsistent, line));
        }
        Ok(())
    }

    fn digest_scans(&mut self, v: &str, line: &str) -> (r: Result<(), MgfError>)
        ensures
            digested(scans_step(old(self).state(), v@), r, final(self).state(), old(self).state(), line@),
    {
        if text_eq(v, "-1") {
            self.minus_one_scans = true;
            return Ok(());
        }
        let s = match parse_usize(v) {
            Some(s) => s,
            None => {
                return Err(MgfError::new(ErrorKind::InvalidInteger, line));
            },
        };
        match self.feature_id {
            Some(f) => {
                if f != s {
                    return Err(MgfError::new(ErrorKind::ScanMismatch, line));
                }
            },
            None => {
                self.feature_id = Some(s);
            },
        }
        self.minus_one_scans = false;
        Ok(())
    }

    fn digest_charge(&mut self, line: &str) -> (r: Result<(), MgfError>)
        ensures
            digested(charge_step(old(self).state(), line@), r, final(self).state(), old(self).state(), line@),
    {
        let c = match Charge::from_str(line) {
            Ok(c) => c,
            Err(_) => {
                return Err(MgfError::new(ErrorKind::InvalidCharge, line));
            },
        };
        match self.charge {
            Some(o) => {
                if o.charge() != c.charge() {
                    return Err(MgfError::new(ErrorKind::Inconsistent, line));
                }
            },
            None => {
                self.charge = Some(c);
            },
        }
        Ok(())
    }

    fn digest_ion_mode(&mut self, v: &str, line: &str) -> (r: Result<(), MgfError>)
        ensures
            digested(ion_mode_step(old(self).state(), v@), r, final(self).state(), old(self).state(), line@),
    {
        if IonMode::is_nan_ion_mode_from_str(v) {
            return Ok(());
        }
        let m = match IonMode::from_str(v) {
            Ok(m) => m,
            Err(_) => {
                return Err(MgfError::new(ErrorKind::InvalidIonMode, line));
            },
        };
        match self.ion_mode {
            Some(o) => {
                if o != m {
                    return Err(MgfError::new(ErrorKind::Inconsistent, line));
                }
            },
            None => {
                self.ion_mode = Some(m);
            },
        }
        Ok(())
    }

    fn digest_sequence(&mut self, v: &str, line: &str) -> (r: Result<(), MgfError>)
        ensures
            digested(sequence_step(old(self).state(), v@), r, final(self).state(), old(self).state(), line@),
    {
        if text_eq(v, "*..*") {
            return Ok(());
        }
        match &self.sequence {
            Some(c) => {
                if !text_eq(c.as_str(), v) {
                    return Err(MgfError::new(ErrorKind::Inconsistent, line));
                }
            },
            None => {
                self.sequence = Some(v.to_owned());
            },
        }
        Ok(())
    }

    fn digest_text(&mut self, key: TextKey, v: &str, line: &str) -> (r: Result<(), MgfError>)
        ensures
            digested(text_step(old(self).state(), key, v@), r, final(self).state(), old(self).state(), line@),
    {
        if key == TextKey::Smiles && text_eq(v, "N/A") {
            return Ok(());
        }
        let ok = match key {
            TextKey::SourceInstrument => update_text(&mut self.source_instrument, v),
            TextKey::Organism => update_text(&mut self.organism, v),
            TextKey::Filename => update_text(&mut self.filename, v),
            TextKey::Name => update_text(&mut self.name, v),
            TextKey::Smiles => update_text(&mut self.smiles, v),
        };
        if !ok {
            return Err(MgfError::new(ErrorKind::Inconsistent, line));
        }
        Ok(())
    }

    fn digest_pubmed(&mut self, line: &str) -> (r: Result<(), MgfError>)
        ensures
            digested(pubmed_step(old(self).state(), line@), r, final(self).state(), old(self).state(), line@),
    {
        let p = match PubMedID::from_str(line) {
            Ok(p) => p,
            Err(e) => {
                return Err(MgfError::new(e.kind, line));
            },
        };
        match &self.pubmed_id {
            Some(o) => {
                if !same_pubmed(o, &p) {
                    return Err(MgfError::new(ErrorKind::Inconsistent, line));
                }
            },
            None => {
                self.pubmed_id = Some(p);
            },
        }
        Ok(())
    }

    fn digest_spectrum_id(&mut self, v: &str, line: &str) -> (r: Result<(), MgfError>)
        ensures
            digested(spectrum_id_step(old(self).state(), v@), r, final(self).state(), old(self).state(), line@),
    {
        let g = match GNPSSpectrumID::from_str(v) {
            Ok(g) => g,
            Err(_) => {
                return Err(MgfError::new(ErrorKind::InvalidSpectrumId, line));
            },
        };
        match self.spectrum_id {
            Some(o) => {
                if o.id() != g.id() {
                    return Err(MgfError::new(ErrorKind::Inconsistent, line));
                }
            },
            None => {
                self.spectrum_id = Some(g);
            },
        }
        Ok(())
    }

    fn digest_merged(&mut self, line: &str) -> (r: Result<(), MgfError>)
        ensures
            digested(merge_step(old(self).state(), line@), r, final(self).state(), old(self).state(), line@),
    {
        let had = self.merge_scans_metadata_builder.is_some();
        let mut b = match self.merge_scans_metadata_builder.take() {
            Some(b) => b,
            None => MergeScansMetadataBuilder::default(),
        };
        match b.digest_line(line) {
            Ok(()) => {
                self.merge_scans_metadata_builder = Some(b);
                Ok(())
            },
            Err(e) => {
                if had {
                    self.merge_scans_metadata_builder = Some(b);
                }
                Err(e)
            },
        }
    }

    /// Builds the metadata: no continuation may be expected, the required fields must
    /// be known, and merged-scan provenance, if begun, must build.
    pub fn build(self) -> (r: Result<MascotGenericFormatMetadata, MgfError>)
        ensures
            match metadata_build_outcome(self.state()) {
                Err(k) => fails_as(r, k),
                Ok(v) => r matches Ok(m) && m.view() == v,
            },
    {
        if self.minus_one_scans {
            return Err(MgfError::of_kind(ErrorKind::PartialRecord));
        }
        let feature_id = match self.feature_id {
            Some(f) => f,
            None => {
                return Err(MgfError::of_kind(ErrorKind::MissingFeatureId));
            },
        };
        let parent_ion_mass = match self.parent_ion_mass {
            Some(x) => x,
            None => {
                return Err(MgfError::of_kind(ErrorKind::MissingParentIonMass));
            },
        };
        if self.retention_time.is_none() {
            return Err(MgfError::of_kind(ErrorKind::MissingRetentionTime));
        }
        let charge = match self.charge {
            Some(c) => c,
            None => {
                return Err(MgfError::of_kind(ErrorKind::MissingCharge));
            },
        };
        let merged = match self.merge_scans_metadata_builder {
            Some(b) => match b.build() {
                Ok(m) => Some(m),
                Err(e) => {
                    return Err(e);
                },
            },
            None => None,
        };
        MascotGenericFormatMetadata::new(
            feature_id,
            parent_ion_mass,
            self.retention_time,
            self.source_instrument,
            self.sequence,
            self.organism,
            self.name,
            self.smiles,
            self.filename,
            charge,
            self.ion_mode,
            self.pubmed_id,
            self.spectrum_id,
            merged,
        )
    }
}

} // verus!
