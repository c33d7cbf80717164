//! The scalar fields of a record.
use vstd::prelude::*;
use crate::charge::Charge;
use crate::decimal::Decimal;
use crate::error::{ErrorKind, MgfError, fails_as};
use crate::gnps_spectrum_id::GNPSSpectrumID;
use crate::ionmode::IonMode;
use crate::merge_scans_metadata::MergeScansMetadata;
use crate::pubmed_id::PubMedID;
use crate::text::text_eq;

verus! {

/// The characters of an optional owned text.
pub open spec fn text_view(o: Option<String>) -> Option<Seq<char>> {
    match o {
        Some(s) => Some(s@),
        None => None,
    }
}

/// The value of an optional decimal.
pub open spec fn decimal_view(o: Option<Decimal>) -> Option<int> {
    match o {
        Some(d) => Some(d.value()),
        None => None,
    }
}

/// The number and DOI of an optional PubMed identifier.
pub open spec fn pubmed_view(o: Option<PubMedID>) -> Option<(usize, Option<Seq<char>>)> {
    match o {
        Some(p) => Some((p.id_spec(), p.doi_spec())),
        None => None,
    }
}

/// The scans and removed counts of optional merged-scans provenance.
pub open spec fn merged_view(o: Option<MergeScansMetadata>) -> Option<(Seq<usize>, usize, usize)> {
    match o {
        Some(m) => Some((m.scans_spec(), m.low_quality_spec(), m.low_cosine_spec())),
        None => None,
    }
}

/// Everything that the metadata of a record holds.
pub struct MetadataView {
    pub feature_id: usize,
    pub parent_ion_mass: int,
    pub retention_time: Option<int>,
    pub charge: int,
    pub ion_mode: Option<IonMode>,
    pub source_instrument: Option<Seq<char>>,
    pub sequence: Option<Seq<char>>,
    pub organism: Option<Seq<char>>,
    pub name: Option<Seq<char>>,
    pub smiles: Option<Seq<char>>,
    pub filename: Option<Seq<char>>,
    pub pubmed_id: Option<(usize, Option<Seq<char>>)>,
    pub spectrum_id: Option<usize>,
    pub merged_scans: Option<(Seq<usize>, usize, usize)>,
}

/// Whether an optional text is given but empty.
pub open spec fn empty_text(t: Option<Seq<char>>) -> bool {
    t matches Some(s) && s.len() == 0
}

/// The error that creating metadata from these values gives, if any: the parent ion
/// mass and a given retention time must be strictly positive, and given texts must
/// not be empty (nor, for the SMILES, the marker `N/A`).
pub open spec fn metadata_error(v: MetadataView) -> Option<ErrorKind> {
    if v.parent_ion_mass <= 0 || (v.retention_time matches Some(t) && t <= 0) {
        Some(ErrorKind::NotStrictlyPositive)
    } else if empty_text(v.source_instrument) || empty_text(v.sequence) || empty_text(v.organism)
        || empty_text(v.name) || empty_text(v.smiles) || empty_text(v.filename) || v.smiles
        == Some("N/A"@) {
        Some(ErrorKind::EmptyText)
    } else {
        None
    }
}

/// The metadata of one record.
#[derive(Clone, Debug)]
pub struct MascotGenericFormatMetadata {
    feature_id: usize,
    parent_ion_mass: Decimal,
    retention_time: Option<Decimal>,
    charge: Charge,
    ion_mode: Option<IonMode>,
    source_instrument: Option<String>,
    sequence: Option<String>,
    organism: Option<String>,
    name: Option<String>,
    smiles: Option<String>,
    filename: Option<String>,
    pubmed_id: Option<PubMedID>,
    spectrum_id: Option<GNPSSpectrumID>,
    merged_scans_metadata: Option<MergeScansMetadata>,
}

fn is_empty_text(t: &Option<String>) -> (r: bool)
    ensures
        r == empty_text(text_view(*t)),
{
    match t {
        Some(s) => s.as_str().unicode_len() == 0,
        None => false,
    }
}

impl MascotGenericFormatMetadata {
    /// Everything that the metadata holds.
    pub closed spec fn view(self) -> MetadataView {
        MetadataView {
            feature_id: self.feature_id,
            parent_ion_mass: self.parent_ion_mass.value(),
            retention_time: decimal_view(self.retention_time),
            charge: self.charge.value(),
            ion_mode: self.ion_mode,
            source_instrument: text_view(self.source_instrument),
            sequence: text_view(self.sequence),
            organism: text_view(self.organism),
            name: text_view(self.name),
            smiles: text_view(self.smiles),
            filename: text_view(self.filename),
            pubmed_id: pubmed_view(self.pubmed_id),
            spectrum_id: match self.spectrum_id {
                Some(g) => Some(g.value()),
                None => None,
            },
            merged_scans: merged_view(self.merged_scans_metadata),
        }
    }

    /// Creates the metadata of a record, checking the values as [`metadata_error`] says.
    pub fn new(
        feature_id: usize,
        parent_ion_mass: Decimal,
        retention_time: Option<Decimal>,
        source_instrument: Option<String>,
        sequence: Option<String>,
        organism: Option<String>,
        name: Option<String>,
        smiles: Option<String>,
        filename: Option<String>,
        charge: Charge,
        ion_mode: Option<IonMode>,
        pubmed_id: Option<PubMedID>,
        spectrum_id: Option<GNPSSpectrumID>,
        merged_scans_metadata: Option<MergeScansMetadata>,
    ) -> (r: Result<MascotGenericFormatMetadata, MgfError>)
        ensures
            ({
                let v = MetadataView {
                    feature_id,
                    parent_ion_mass: parent_ion_mass.value(),
                    retention_time: decimal_view(retention_time),
                    charge: charge.value(),
                    ion_mode,
                    source_instrument: text_view(source_instrument),
                    sequence: text_view(sequence),
                    organism: text_view(organism),
                    name: text_view(name),
                    smiles: text_view(smiles),
                    filename: text_view(filename),
                    pubmed_id: pubmed_view(pubmed_id),
                    spectrum_id: match spectrum_id {
                        Some(g) => Some(g.value()),
                        None => None,
                    },
                    merged_scans: merged_view(merged_scans_metadata),
                };
                match metadata_error(v) {
                    Some(k) => fails_as(r, k),
                    None => r matches Ok(m) && m.view() == v,
                }
            }),
    {
        let positive_time = match retention_time {
            Some(t) => t.units() > 0,
            None => true,
        };
        if parent_ion_mass.units() <= 0 || !positive_time {
            return Err(MgfError::of_kind(ErrorKind::NotStrictlyPositive));
        }
        let smiles_marker = match &smiles {
            Some(s) => text_eq(s.as_str(), "N/A"),
            None => false,
        };
        if is_empty_text(&source_instrument) || is_empty_text(&sequence) || is_empty_text(&organism)
            || is_empty_text(&name) || is_empty_text(&smiles) || is_empty_text(&filename)
            || smiles_marker {
            return Err(MgfError::of_kind(ErrorKind::EmptyText));
        }
        Ok(MascotGenericFormatMetadata {
            feature_id,
            parent_ion_mass,
            retention_time,
            charge,
            ion_mode,
            source_instrument,
            sequence,
            organism,
            name,
            smiles,
            filename,
            pubmed_id,
            spectrum_id,
            merged_scans_metadata,
        })
    }

    /// Returns the feature id.
    pub fn feature_id(&self) -> (r: usize)
        ensures
            r == self.view().feature_id,
    {
        self.feature_id
    }

    /// Returns the parent ion mass.
    pub fn parent_ion_mass(&self) -> (r: Decimal)
        ensures
            r.value() == self.view().parent_ion_mass,
    {
        self.parent_ion_mass
    }

    /// Returns the retention time, if known.
    pub fn retention_time(&self) -> (r: Option<Decimal>)
        ensures
            decimal_view(r) == self.view().retention_time,
    {
        self.retention_time
    }

    /// Returns the charge.
    pub fn charge(&self) -> (r: Charge)
        ensures
            r.value() == self.view().charge,
    {
        self.charge
    }

    /// Returns the number of scans removed for low quality (zero without merged-scan
    /// provenance).
    pub fn number_of_scans_removed_due_to_low_quality(&self) -> (r: usize)
        ensures
            r == match self.view().merged_scans {
                Some((_, q, _)) => q,
                None => 0,
            },
    {
        match &self.merged_scans_metadata {
            Some(m) => m.removed_due_to_low_quality(),
            None => 0,
        }
    }
}

} // verus!
