//! Errors of the readers and builders of this crate.
use vstd::prelude::*;
use crate::decimal::NumberError;

verus! {

/// What went wrong.
#[derive(Clone, Copy, Debug, PartialEq, Eq, Structural)]
pub enum ErrorKind {
    /// A `CHARGE=` value is no charge.
    InvalidCharge,
    /// An ion mode is neither positive nor negative.
    InvalidIonMode,
    /// An `MSLEVEL=` line names no level.
    InvalidLevel,
    /// An identifier (feature id, scan number) is no unsigned integer.
    InvalidInteger,
    /// A quantity is no decimal number, or not a number at all.
    InvalidNumber(NumberError),
    /// A quantity that must be strictly positive is not.
    NotStrictlyPositive,
    /// A peak line does not hold exactly two fields.
    InvalidPeak,
    /// A `MERGED_SCANS=` line is no comma-separated list of scan numbers.
    InvalidScanList,
    /// A `MERGED_STATS=` line does not have the expected layout.
    InvalidMergedStats,
    /// A PubMed identifier cannot be read.
    InvalidPubMedId,
    /// A GNPS spectrum identifier cannot be read.
    InvalidSpectrumId,
    /// A line that no builder recognises.
    UnexpectedLine,
    /// A field is given a second time with another value.
    Inconsistent,
    /// A `SCANS=` value that is neither -1 nor the feature id.
    ScanMismatch,
    /// `END IONS` without an open section.
    EndWithoutBegin,
    /// `END IONS` closing a section without peaks.
    EmptyLevel,
    /// `END IONS` closing a section that cannot be built.
    IncompleteLevel,
    /// A second-level section was closed while the record cannot be built.
    IncompleteRecord,
    /// A data line before any `BEGIN IONS`.
    LineOutsideSection,
    /// The builder is corrupted.
    Corrupted,
    /// The feature id was never given.
    MissingFeatureId,
    /// The parent ion mass was never given.
    MissingParentIonMass,
    /// The retention time was never given.
    MissingRetentionTime,
    /// The charge was never given.
    MissingCharge,
    /// A spectrum has no level.
    MissingLevel,
    /// The last `SCANS=` line was -1: a continuation is expected.
    PartialRecord,
    /// The merged-scan statistics were never given.
    MissingMergedStats,
    /// The merged-scan counts do not add up to the total.
    MergedStatsMismatch,
    /// A second-level mass over charge ratio is smaller than the one before it.
    Descending,
    /// The parent ion mass is not the smallest first-level mass over charge ratio.
    ParentIonMassMismatch,
    /// The ratios and the intensities differ in length.
    LengthMismatch,
    /// A spectrum without peaks.
    NoPeaks,
    /// A merged-scan list without scans.
    NoScans,
    /// A text field that was given empty, or as a placeholder.
    EmptyText,
    /// A PubMed identifier of zero.
    ZeroPubMedId,
    /// A record without spectra.
    NoLevels,
    /// The record has no spectrum of the level asked for.
    MissingFragmentationLevel,
    /// Records of a document share a feature id: the number of records whose feature
    /// id an earlier record already has.
    DuplicateFeatureIds(usize),
}

/// An error, with the line of text it concerns (empty where it concerns none).
#[derive(Clone, Debug)]
pub struct MgfError {
    pub kind: ErrorKind,
    pub line: String,
}

/// Whether `r` is an error of kind `kind` about the line `line`.
pub open spec fn fails_with<T>(r: Result<T, MgfError>, kind: ErrorKind, line: Seq<char>) -> bool {
    r matches Err(e) && e.kind == kind && e.line@ == line
}

/// Whether `r` is an error of kind `kind`.
pub open spec fn fails_as<T>(r: Result<T, MgfError>, kind: ErrorKind) -> bool {
    r matches Err(e) && e.kind == kind
}

impl MgfError {
    /// An error of kind `kind` about the line `line`.
    pub fn new(kind: ErrorKind, line: &str) -> (r: MgfError)
        ensures
            r.kind == kind,
            r.line@ == line@,
    {
        MgfError { kind, line: line.to_owned() }
    }

    /// An error of kind `kind` about no line in particular.
    pub fn of_kind(kind: ErrorKind) -> (r: MgfError)
        ensures
            r.kind == kind,
            r.line@ == Seq::<char>::empty(),
    {
        MgfError { kind, line: String::new() }
    }
}

} // verus!
