use mascot_rs::charge::Charge;
use mascot_rs::decimal::Decimal;
use mascot_rs::ionmode::IonMode;
use mascot_rs::mascot_generic_format::MascotGenericFormat;
use mascot_rs::mascot_generic_format_metadata::MascotGenericFormatMetadata;
use mascot_rs::error::ErrorKind;
use mascot_rs::fragmentation_spectra_level::FragmentationSpectraLevel;
use mascot_rs::line_parser::LineParser;
use mascot_rs::mascot_generic_format_builder::MascotGenericFormatBuilder;
use mascot_rs::mascot_generic_format_data::MascotGenericFormatData;
use mascot_rs::mascot_generic_format_data_builder::MascotGenericFormatDataBuilder;
use mascot_rs::mascot_generic_format_metadata_builder::MascotGenericFormatMetadataBuilder;
use mascot_rs::merge_scans_metadata::MergeScansMetadata;
use mascot_rs::merge_scans_metadata_builder::MergeScansMetadataBuilder;

fn d(s: &str) -> Decimal {
    Decimal::parse(s).unwrap()
}

#[test]
fn merged_scans_statistics_build() {
    let mut b = MergeScansMetadataBuilder::default();
    assert!(!b.can_build());
    b.digest_line("MERGED_SCANS=1567,1540").unwrap();
    assert!(!b.can_build());
    b.digest_line("MERGED_STATS=2 / 2 (0 removed due to low quality, 0 removed due to low cosine).").unwrap();
    assert!(b.can_build());
    let m = b.build().unwrap();
    assert_eq!(m.scans(), &[1567, 1540]);
    assert_eq!(m.removed_due_to_low_quality(), 0);
    assert_eq!(m.removed_due_to_low_cosine(), 0);
}

#[test]
fn merged_scans_total_mismatch_fails() {
    let mut b = MergeScansMetadataBuilder::default();
    b.digest_line("MERGED_SCANS=1567,1540").unwrap();
    let e = b
        .digest_line("MERGED_STATS=2 / 3 (0 removed due to low quality, 0 removed due to low cosine).")
        .unwrap_err();
    assert_eq!(e.kind, ErrorKind::MergedStatsMismatch);
    assert!(!b.can_build());
}

#[test]
fn merged_scans_other_counts() {
    let mut b = MergeScansMetadataBuilder::default();
    b.digest_line("MERGED_SCANS=1,2").unwrap();
    b.digest_line("MERGED_STATS=2 / 5 (1 removed due to low quality, 2 removed due to low cosine).").unwrap();
    let m = b.build().unwrap();
    assert_eq!(m.removed_due_to_low_quality(), 1);
    assert_eq!(m.removed_due_to_low_cosine(), 2);
}

#[test]
fn merged_scans_errors() {
    let mut b = MergeScansMetadataBuilder::default();
    assert_eq!(b.digest_line("MERGED_SCANS=1,x").unwrap_err().kind, ErrorKind::InvalidScanList);
    assert_eq!(b.digest_line("MERGED_STATS=2 / 2").unwrap_err().kind, ErrorKind::InvalidMergedStats);
    assert_eq!(b.digest_line("SCANS=1").unwrap_err().kind, ErrorKind::UnexpectedLine);
    assert_eq!(MergeScansMetadataBuilder::default().build().unwrap_err().kind, ErrorKind::MissingMergedStats);
    let mut c = MergeScansMetadataBuilder::default();
    c.digest_line("MERGED_STATS=0 / 0 (0 removed due to low quality, 0 removed due to low cosine).").unwrap();
    assert_eq!(c.build().unwrap_err().kind, ErrorKind::NoScans);
    let mut e = MergeScansMetadataBuilder::default();
    e.digest_line("MERGED_SCANS=1").unwrap();
    e.digest_line("MERGED_STATS=2 / 2 (0 removed due to low quality, 0 removed due to low cosine).").unwrap();
    assert_eq!(e.build().unwrap_err().kind, ErrorKind::MergedStatsMismatch);
    assert!(MergeScansMetadataBuilder::can_parse_line("MERGED_SCANS=1567,1540"));
    assert!(!MergeScansMetadataBuilder::can_parse_line("SCANS=1567,1540"));
    assert_eq!(MergeScansMetadata::new(vec![], 4, 5).unwrap_err().kind, ErrorKind::NoScans);
    assert_eq!(MergeScansMetadata::new(vec![1, 2, 3], 4, 5).unwrap().scans(), &[1, 2, 3]);
}

#[test]
fn level_two_descending_peaks_fail() {
    let mut b = MascotGenericFormatDataBuilder::default();
    b.digest_line("MSLEVEL=2").unwrap();
    b.digest_line("10.0 5.0").unwrap();
    assert_eq!(b.digest_line("9.0 5.0").unwrap_err().kind, ErrorKind::Descending);
}

#[test]
fn level_one_descending_peaks_succeed() {
    let mut b = MascotGenericFormatDataBuilder::default();
    b.digest_line("MSLEVEL=1").unwrap();
    b.digest_line("10.0 5.0").unwrap();
    b.digest_line("9.0 5.0").unwrap();
    let data = b.build().unwrap();
    assert_eq!(data.level(), FragmentationSpectraLevel::One);
    assert_eq!(data.mass_divided_by_charge_ratios(), &[d("10.0"), d("9.0")]);
    assert_eq!(data.min_mass_divided_by_charge_ratio(), d("9"));
    assert_eq!(data.max_mass_divided_by_charge_ratio(), d("10"));
}

#[test]
fn data_builder_reads_peaks() {
    let mut b = MascotGenericFormatDataBuilder::default();
    assert_eq!(b.is_level_two().unwrap_err().kind, ErrorKind::MissingLevel);
    b.digest_line("MSLEVEL=1").unwrap();
    b.digest_line("SPECTYPE=CORRELATED MS").unwrap();
    b.digest_line("60.5425 2.4E5").unwrap();
    b.digest_line("119.0857\t3.3E5").unwrap();
    assert!(b.can_build());
    assert!(!b.is_level_two().unwrap());
    let data = b.build().unwrap();
    assert_eq!(data.mass_divided_by_charge_ratios(), &[d("60.5425"), d("119.0857")]);
    assert_eq!(data.fragment_intensities(), &[d("240000"), d("330000")]);
    assert!(data.has_mass_divided_by_charge_ratio(d("119.0857")));
    assert!(!data.has_mass_divided_by_charge_ratio(d("119.0858")));
    assert_eq!(data.mass_divided_by_charge_ratios_iter().count(), 2);
    assert_eq!(data.fragment_intensities_iter().count(), 2);
}

#[test]
fn data_builder_errors() {
    let mut b = MascotGenericFormatDataBuilder::default();
    assert_eq!(b.digest_line("TITLE=File:").unwrap_err().kind, ErrorKind::InvalidPeak);
    assert_eq!(b.digest_line("MSLEVEL=3").unwrap_err().kind, ErrorKind::InvalidLevel);
    assert_eq!(b.digest_line("NaN 1.0").unwrap_err().kind, ErrorKind::InvalidNumber(mascot_rs::decimal::NumberError::NotANumber));
    assert_eq!(b.digest_line("1.0 x").unwrap_err().kind, ErrorKind::InvalidNumber(mascot_rs::decimal::NumberError::Malformed));
    assert_eq!(b.digest_line("0 1.0").unwrap_err().kind, ErrorKind::NotStrictlyPositive);
    assert_eq!(b.digest_line("1.0 -1.0").unwrap_err().kind, ErrorKind::NotStrictlyPositive);
    assert_eq!(b.digest_line("1.0 2.0 3.0").unwrap_err().kind, ErrorKind::InvalidPeak);
    b.digest_line("MSLEVEL=1").unwrap();
    b.digest_line("MSLEVEL=1").unwrap();
    assert_eq!(b.digest_line("MSLEVEL=2").unwrap_err().kind, ErrorKind::Inconsistent);
    assert!(!b.can_build());
    assert_eq!(MascotGenericFormatDataBuilder::default().build().unwrap_err().kind, ErrorKind::MissingLevel);
    let mut c = MascotGenericFormatDataBuilder::default();
    c.digest_line("MSLEVEL=2").unwrap();
    assert_eq!(c.build().unwrap_err().kind, ErrorKind::NoPeaks);
}

#[test]
fn data_builder_recognises_lines() {
    assert!(MascotGenericFormatDataBuilder::can_parse_line("MSLEVEL=1"));
    assert!(MascotGenericFormatDataBuilder::can_parse_line("SPECTYPE=CORRELATED MS"));
    assert!(!MascotGenericFormatDataBuilder::can_parse_line("TITLE=File:"));
    assert!(!MascotGenericFormatDataBuilder::can_parse_line("SOURCE_INSTRUMENT=ESI-LC-ESI-QFT"));
    for line in ["60.5425 2.4E5", "119.0857 3.3E5", "81.0606 1.1E4", "83.0497 1.7E4"] {
        assert!(MascotGenericFormatDataBuilder::can_parse_line(line));
    }
    assert!(<MascotGenericFormatDataBuilder as LineParser>::can_parse_line("MSLEVEL=2"));
}

#[test]
fn spectrum_construction_checks() {
    let mz = vec![d("60.5425"), d("60.5426"), d("60.5427")];
    let it = vec![d("2.4E5"), d("2.3E5"), d("2.2E5")];
    let data = MascotGenericFormatData::new(FragmentationSpectraLevel::Two, mz.clone(), it.clone()).unwrap();
    assert_eq!(data.level(), FragmentationSpectraLevel::Two);
    assert_eq!(data.mass_divided_by_charge_ratios(), mz.as_slice());
    assert_eq!(data.fragment_intensities(), it.as_slice());
    assert_eq!(MascotGenericFormatData::new(FragmentationSpectraLevel::Two, Vec::new(), it.clone()).unwrap_err().kind, ErrorKind::LengthMismatch);
    assert_eq!(MascotGenericFormatData::new(FragmentationSpectraLevel::Two, mz.clone(), Vec::new()).unwrap_err().kind, ErrorKind::LengthMismatch);
    assert_eq!(MascotGenericFormatData::new(FragmentationSpectraLevel::Two, Vec::new(), Vec::new()).unwrap_err().kind, ErrorKind::NoPeaks);
    let down = vec![d("3"), d("2"), d("1")];
    assert_eq!(MascotGenericFormatData::new(FragmentationSpectraLevel::Two, down.clone(), it.clone()).unwrap_err().kind, ErrorKind::Descending);
    assert!(MascotGenericFormatData::new(FragmentationSpectraLevel::One, down, it.clone()).is_ok());
    let neg = vec![d("-1"), d("2"), d("3")];
    assert_eq!(MascotGenericFormatData::new(FragmentationSpectraLevel::One, neg, it).unwrap_err().kind, ErrorKind::NotStrictlyPositive);
}

#[test]
fn feature_id_given_twice() {
    let mut b = MascotGenericFormatMetadataBuilder::default();
    b.digest_line("FEATURE_ID=1").unwrap();
    b.digest_line("FEATURE_ID=1").unwrap();
    assert_eq!(b.feature_id(), Some(1));
    assert_eq!(b.digest_line("FEATURE_ID=2").unwrap_err().kind, ErrorKind::Inconsistent);
    assert_eq!(b.feature_id(), Some(1));
}

#[test]
fn feature_id_changes_within_open_record_fail() {
    let mut b = MascotGenericFormatBuilder::default();
    b.digest_line("BEGIN IONS").unwrap();
    b.digest_line("FEATURE_ID=1").unwrap();
    assert_eq!(b.digest_line("FEATURE_ID=2").unwrap_err().kind, ErrorKind::Inconsistent);
    assert!(b.is_corrupted());
    assert_eq!(b.digest_line("FEATURE_ID=1").unwrap_err().kind, ErrorKind::Corrupted);
}

#[test]
fn metadata_builder_reads_fields() {
    let mut b = MascotGenericFormatMetadataBuilder::default();
    for line in [
        "FEATURE_ID=1",
        "PEPMASS=381.0795",
        "SCANS=1",
        "CHARGE=1",
        "MERGED_SCANS=1567,1540",
        "SOURCE_INSTRUMENT=ESI-qTof",
        "IONMODE=positive",
        "IONMODE=N/A",
        "ORGANISM=GNPS-COLLECTIONS-PESTICIDES-POSITIVE",
        "MERGED_STATS=2 / 2 (0 removed due to low quality, 0 removed due to low cosine).",
        "RTINSECONDS=37.083",
        "SEQ=*..*",
        "FILENAME=20220513_PMA_DBGI_01_04_003.mzML",
        "PUBMED=15386517",
        "NAME=Phenazine-1-carboxylic acid",
        "SMILES=N/A",
        "SPECTRUMID=CCMSLIB00000078679",
    ] {
        b.digest_line(line).unwrap();
    }
    assert!(b.can_build());
    let m = b.build().unwrap();
    assert_eq!(m.feature_id(), 1);
    assert_eq!(m.parent_ion_mass(), d("381.0795"));
    assert_eq!(m.retention_time(), Some(d("37.083")));
    assert_eq!(m.charge().charge(), 1);
    assert_eq!(m.number_of_scans_removed_due_to_low_quality(), 0);
}

#[test]
fn metadata_builder_errors() {
    let mut b = MascotGenericFormatMetadataBuilder::default();
    b.digest_line("FEATURE_ID=1").unwrap();
    assert_eq!(b.digest_line("SCANS=2").unwrap_err().kind, ErrorKind::ScanMismatch);
    assert_eq!(b.digest_line("FEATURE_ID=x").unwrap_err().kind, ErrorKind::InvalidInteger);
    b.digest_line("PEPMASS=381.0795").unwrap();
    assert_eq!(b.digest_line("PEPMASS=381.0796").unwrap_err().kind, ErrorKind::Inconsistent);
    assert_eq!(b.digest_line("PEPMASS=-1").unwrap_err().kind, ErrorKind::NotStrictlyPositive);
    b.digest_line("RTINSECONDS=37.083").unwrap();
    assert_eq!(b.digest_line("RTINSECONDS=37.084").unwrap_err().kind, ErrorKind::Inconsistent);
    b.digest_line("CHARGE=1").unwrap();
    assert_eq!(b.digest_line("CHARGE=2").unwrap_err().kind, ErrorKind::Inconsistent);
    assert_eq!(b.digest_line("CHARGE=z").unwrap_err().kind, ErrorKind::InvalidCharge);
    assert_eq!(b.digest_line("IONMODE=sideways").unwrap_err().kind, ErrorKind::InvalidIonMode);
    b.digest_line("SEQ=K.LLQ.V").unwrap();
    b.digest_line("SEQ=*..*").unwrap();
    b.digest_line("SEQ=K.LLQ.V").unwrap();
    assert_eq!(b.digest_line("SEQ=K.LLQ.W").unwrap_err().kind, ErrorKind::Inconsistent);
    assert_eq!(b.digest_line("TITLE=File:").unwrap_err().kind, ErrorKind::UnexpectedLine);
    assert_eq!(b.digest_line("SPECTRUMID=nope").unwrap_err().kind, ErrorKind::InvalidSpectrumId);
    assert!(b.can_build());
    b.digest_line("SCANS=-1").unwrap();
    assert!(b.is_partial());
    assert!(!b.can_build());
    assert_eq!(b.build().unwrap_err().kind, ErrorKind::PartialRecord);
    let mut c = MascotGenericFormatMetadataBuilder::default();
    c.digest_line("SCANS=7").unwrap();
    assert_eq!(c.feature_id(), Some(7));
    assert_eq!(c.build().unwrap_err().kind, ErrorKind::MissingParentIonMass);
    assert_eq!(MascotGenericFormatMetadataBuilder::default().build().unwrap_err().kind, ErrorKind::MissingFeatureId);
}

#[test]
fn metadata_builder_recognises_lines() {
    for line in [
        "FEATURE_ID=1", "PEPMASS=381.0795", "SCANS=1", "CHARGE=1", "CHARGE=5+", "IONMODE=positive",
        "IONMODE=N/A", "ORGANISM=GNPS", "RTINSECONDS=37.083", "SEQ=*..*", "FILENAME=a.mzML", "SCANS=-1",
    ] {
        assert!(MascotGenericFormatMetadataBuilder::can_parse_line(line));
    }
    assert!(!MascotGenericFormatMetadataBuilder::can_parse_line("TITLE=File:"));
}

#[test]
fn metadata_missing_fields() {
    let mut b = MascotGenericFormatMetadataBuilder::default();
    b.digest_line("FEATURE_ID=1").unwrap();
    b.digest_line("PEPMASS=1.5").unwrap();
    assert_eq!(b.build().unwrap_err().kind, ErrorKind::MissingRetentionTime);
    let mut c = MascotGenericFormatMetadataBuilder::default();
    c.digest_line("FEATURE_ID=1").unwrap();
    c.digest_line("PEPMASS=1.5").unwrap();
    c.digest_line("RTINSECONDS=2").unwrap();
    assert_eq!(c.build().unwrap_err().kind, ErrorKind::MissingCharge);
}

#[test]
fn metadata_construction_checks() {
    let ok = MascotGenericFormatMetadata::new(
        1, d("381.0795"), Some(d("37.083")), Some("ESI-QUAD-TOF".to_string()), None,
        Some("GNPS".to_string()), None, None, None, Charge::from(1i8), Some(IonMode::Positive), None, None, None,
    )
    .unwrap();
    assert_eq!(ok.feature_id(), 1);
    assert_eq!(ok.parent_ion_mass(), d("381.0795"));
    assert_eq!(ok.retention_time(), Some(d("37.083")));
    assert_eq!(ok.charge().charge(), 1);
    let bad_mass = MascotGenericFormatMetadata::new(
        1, d("-1.0"), Some(d("37.083")), None, None, None, None, None, None, Charge::from(1i8), None, None, None, None,
    );
    assert_eq!(bad_mass.unwrap_err().kind, ErrorKind::NotStrictlyPositive);
    let bad_time = MascotGenericFormatMetadata::new(
        1, d("381.0795"), Some(d("-1.0")), None, None, None, None, None, None, Charge::from(1i8), None, None, None, None,
    );
    assert_eq!(bad_time.unwrap_err().kind, ErrorKind::NotStrictlyPositive);
    let empty = MascotGenericFormatMetadata::new(
        1, d("381.0795"), None, None, Some(String::new()), None, None, None, None, Charge::from(1i8), None, None, None, None,
    );
    assert_eq!(empty.unwrap_err().kind, ErrorKind::EmptyText);
    let marker = MascotGenericFormatMetadata::new(
        1, d("381.0795"), None, None, None, None, None, Some("N/A".to_string()), None, Charge::from(1i8), None, None, None, None,
    );
    assert_eq!(marker.unwrap_err().kind, ErrorKind::EmptyText);
}

#[test]
fn record_needs_spectra() {
    let metadata = MascotGenericFormatMetadata::new(
        1, d("381.0795"), None, None, None, None, None, None, None, Charge::from(1i8), None, None, None, None,
    )
    .unwrap();
    assert_eq!(MascotGenericFormat::new(metadata, Vec::new()).unwrap_err().kind, ErrorKind::NoLevels);
}

#[test]
fn corrupted_builder_does_not_build() {
    let mut b = MascotGenericFormatBuilder::default();
    assert_eq!(b.digest_line("END IONS").unwrap_err().kind, ErrorKind::EndWithoutBegin);
    assert!(!b.can_build());
    assert!(!b.is_partial());
    assert_eq!(b.build().unwrap_err().kind, ErrorKind::Corrupted);
}
