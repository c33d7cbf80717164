//! The main types and traits of the crate, for one import.
pub use crate::charge::Charge;
pub use crate::decimal::Decimal;
pub use crate::error::{ErrorKind, MgfError};
pub use crate::fragmentation_spectra_level::FragmentationSpectraLevel;
pub use crate::gnps_spectrum_id::GNPSSpectrumID;
pub use crate::ionmode::IonMode;
pub use crate::line_parser::LineParser;
pub use crate::mascot_generic_format::MascotGenericFormat;
pub use crate::mascot_generic_format_builder::MascotGenericFormatBuilder;
pub use crate::mascot_generic_format_data::MascotGenericFormatData;
pub use crate::mascot_generic_format_data_builder::MascotGenericFormatDataBuilder;
pub use crate::mascot_generic_format_metadata::MascotGenericFormatMetadata;
pub use crate::mascot_generic_format_metadata_builder::MascotGenericFormatMetadataBuilder;
pub use crate::merge_scans_metadata::MergeScansMetadata;
pub use crate::merge_scans_metadata_builder::MergeScansMetadataBuilder;
pub use crate::mgf_vec::{Diagnostic, MGFVec};
pub use crate::pubmed_id::PubMedID;
pub use crate::strictly_positive::StrictlyPositive;
pub use crate::zero::Zero;
