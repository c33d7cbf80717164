//! Reading of Mascot Generic Format (MGF) documents into validated spectral records.
//!
//! A document is a sequence of lines. [`mgf_vec::MGFVec`] feeds them, one at a time,
//! to a [`mascot_generic_format_builder::MascotGenericFormatBuilder`], which routes
//! each line to the builder of the record's metadata or of its current spectrum, and
//! becomes corrupted, for good, on the first line it cannot read. The strict reading
//! stops at the first error; the lenient reading drops corrupted records, resumes at
//! the next `BEGIN IONS`, and uses a backup builder to recover a record that begins
//! while the previous one still waits for a continuation (`SCANS=-1`).
//!
//! Quantities (ratios, intensities, masses, times, tolerances) are held as
//! [`decimal::Decimal`]s with twelve decimal places; digits below those are rounded. A record with a first-level
//! spectrum has, as parent ion mass, the smallest ratio of that spectrum.
pub mod text;
pub mod decimal;
pub mod error;
pub mod fragmentation_spectra_level;
pub mod charge;
pub mod ionmode;
pub mod gnps_spectrum_id;
pub mod mascot_generic_format_data;
pub mod mascot_generic_format_data_builder;
pub mod merge_scans_metadata;
pub mod merge_scans_metadata_builder;
pub mod pubmed_id;
pub mod mascot_generic_format_metadata;
pub mod mascot_generic_format_metadata_builder;
pub mod mascot_generic_format;
pub mod mascot_generic_format_builder;
pub mod mgf_vec;
pub mod line_parser;
pub mod strictly_positive;
pub mod zero;
pub mod prelude;
