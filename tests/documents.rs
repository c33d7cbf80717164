use mascot_rs::decimal::Decimal;
use mascot_rs::error::ErrorKind;
use mascot_rs::fragmentation_spectra_level::FragmentationSpectraLevel;
use mascot_rs::mascot_generic_format_builder::MascotGenericFormatBuilder;
use mascot_rs::mgf_vec::{Diagnostic, MGFVec};

fn d(s: &str) -> Decimal {
    Decimal::parse(s).unwrap()
}

fn first_level_record(pepmass: &'static str) -> Vec<&'static str> {
    vec![
        "BEGIN IONS",
        "FEATURE_ID=1",
        pepmass,
        "SCANS=1",
        "CHARGE=1",
        "RTINSECONDS=37.083",
        "MSLEVEL=1",
        "60.5425 2.4E5",
        "119.0857 3.3E5",
        "END IONS",
    ]
}

fn second_level_record(id: &'static str, peaks: [&'static str; 3]) -> Vec<&'static str> {
    vec![
        "BEGIN IONS",
        id,
        "PEPMASS=381.0795",
        "CHARGE=1",
        "RTINSECONDS=37.083",
        "MSLEVEL=2",
        peaks[0],
        peaks[1],
        peaks[2],
        "END IONS",
    ]
}

#[test]
fn single_record_with_minimum_parent_mass_builds() {
    let lines = first_level_record("PEPMASS=60.5425");
    let records = MGFVec::try_from_iter(&lines).unwrap();
    assert_eq!(records.len(), 1);
    let r = records.get(0);
    assert_eq!(r.feature_id(), 1);
    assert_eq!(r.parent_ion_mass(), d("60.5425"));
    assert_eq!(r.retention_time(), Some(d("37.083")));
    assert_eq!(r.charge().charge(), 1);
    assert!(r.has_first_level());
    assert!(!r.has_second_level());
    assert_eq!(r.min_fragmentation_level(), FragmentationSpectraLevel::One);
    assert_eq!(r.max_fragmentation_level(), FragmentationSpectraLevel::One);
    assert_eq!(r.first_fragmentation_level_mass_divided_by_charge_ratios_iter().unwrap().count(), 2);
    assert_eq!(r.first_fragmentation_level_intensities_iter().unwrap().count(), 2);
    assert_eq!(r.second_fragmentation_level_mass_divided_by_charge_ratios_iter().unwrap_err().kind, ErrorKind::MissingFragmentationLevel);
    assert_eq!(r.get_second_fragmentation_level().unwrap_err().kind, ErrorKind::MissingFragmentationLevel);
    assert_eq!(r.get_first_fragmentation_level().unwrap().min_mass_divided_by_charge_ratio(), d("60.5425"));
}

#[test]
fn single_record_with_other_parent_mass_fails() {
    for pepmass in ["PEPMASS=381.0795", "PEPMASS=119.0857"] {
        let lines = first_level_record(pepmass);
        let mut builder = MascotGenericFormatBuilder::default();
        for line in &lines {
            builder.digest_line(line).unwrap();
        }
        assert!(builder.can_build());
        assert_eq!(builder.build().unwrap_err().kind, ErrorKind::ParentIonMassMismatch);
        assert_eq!(MGFVec::try_from_iter(&lines).unwrap_err().kind, ErrorKind::ParentIonMassMismatch);
        let (records, log) = MGFVec::from_iter_with_error_log(&lines);
        assert!(records.is_empty());
        assert_eq!(log.len(), 1);
    }
}

#[test]
fn record_builder_states() {
    let mut b = MascotGenericFormatBuilder::new();
    assert!(MascotGenericFormatBuilder::is_start_of_new_entry("BEGIN IONS"));
    assert!(MascotGenericFormatBuilder::is_end_of_entry("END IONS"));
    assert!(MascotGenericFormatBuilder::can_parse_line("FEATURE_ID=3"));
    assert!(!MascotGenericFormatBuilder::can_parse_line("TITLE=File:"));
    b.digest_line("BEGIN IONS").unwrap();
    assert_eq!(b.digest_line("END IONS").unwrap_err().kind, ErrorKind::EmptyLevel);
    assert!(b.is_corrupted());
    let mut c = MascotGenericFormatBuilder::new();
    assert_eq!(c.digest_line("60.5 1.0").unwrap_err().kind, ErrorKind::LineOutsideSection);
    let mut e = MascotGenericFormatBuilder::new();
    e.digest_line("BEGIN IONS").unwrap();
    e.digest_line("60.5 1.0").unwrap();
    assert!(e.has_empty_data_builders() == false);
    assert_eq!(e.digest_line("END IONS").unwrap_err().kind, ErrorKind::IncompleteLevel);
    let mut f = MascotGenericFormatBuilder::new();
    f.digest_line("BEGIN IONS").unwrap();
    f.digest_line("FEATURE_ID=4").unwrap();
    f.digest_line("MSLEVEL=2").unwrap();
    f.digest_line("60.5 1.0").unwrap();
    assert!(f.is_level_two());
    assert_eq!(f.feature_id(), Some(4));
    assert_eq!(f.digest_line("END IONS").unwrap_err().kind, ErrorKind::IncompleteRecord);
}

#[test]
fn orphan_end_then_clean_record() {
    let mut lines = vec!["END IONS"];
    lines.extend(first_level_record("PEPMASS=60.5425"));
    let (records, log) = MGFVec::from_iter_with_error_log(&lines);
    assert_eq!(records.len(), 1);
    assert_eq!(records.get(0).feature_id(), 1);
    assert!(!log.is_empty());
    assert!(matches!(&log[0], Diagnostic::Error(e) if e.kind == ErrorKind::EndWithoutBegin));
    assert_eq!(MGFVec::try_from_iter(&lines).unwrap_err().kind, ErrorKind::EndWithoutBegin);
}

#[test]
fn strict_and_lenient_agree_on_clean_documents() {
    let mut lines = second_level_record("FEATURE_ID=1", ["100.0 1", "200.0 1", "300.0 1"]);
    lines.extend(second_level_record("FEATURE_ID=2", ["100.05 1", "199.9 1", "305.0 1"]));
    lines.extend(first_level_record("PEPMASS=60.5425").iter().map(|l| if *l == "FEATURE_ID=1" { "FEATURE_ID=3" } else if *l == "SCANS=1" { "SCANS=3" } else { *l }));
    let strict = MGFVec::try_from_iter(&lines).unwrap();
    let (lenient, log) = MGFVec::from_iter_with_error_log(&lines);
    assert!(log.is_empty());
    assert_eq!(strict.len(), 3);
    assert_eq!(lenient.len(), 3);
    let a: Vec<usize> = strict.iter().map(|r| r.feature_id()).collect();
    let b: Vec<usize> = lenient.as_slice().iter().map(|r| r.feature_id()).collect();
    assert_eq!(a, vec![1, 2, 3]);
    assert_eq!(a, b);
}

#[test]
fn fragment_matching_within_tolerance() {
    let mut lines = second_level_record("FEATURE_ID=1", ["100.0 1", "200.0 1", "300.0 1"]);
    lines.extend(second_level_record("FEATURE_ID=2", ["100.05 1", "199.9 1", "305.0 1"]));
    let records = MGFVec::try_from_iter(&lines).unwrap().into_vec();
    let matches = records[0].find_sorted_matches(&records[1], d("0.2"), d("0.0")).unwrap();
    assert_eq!(matches, vec![(0, 0), (1, 1)]);
}

#[test]
fn fragment_matching_with_shift_and_many_pairs() {
    let mut lines = second_level_record("FEATURE_ID=1", ["100.0 1", "101.0 1", "102.0 1"]);
    lines.extend(second_level_record("FEATURE_ID=2", ["95.0 1", "96.0 1", "97.5 1"]));
    let records = MGFVec::try_from_iter(&lines).unwrap().into_vec();
    let shifted = records[0].find_sorted_matches(&records[1], d("1.0"), d("5.0")).unwrap();
    assert_eq!(shifted, vec![(0, 0), (0, 1), (1, 0), (1, 1), (2, 1), (2, 2)]);
    let none = records[0].find_sorted_matches(&records[1], d("0.1"), d("-50")).unwrap();
    assert!(none.is_empty());
}

#[test]
fn fragment_matching_needs_second_level() {
    let mut lines = first_level_record("PEPMASS=60.5425");
    lines.extend(second_level_record("FEATURE_ID=2", ["100.05 1", "199.9 1", "305.0 1"]));
    let records = MGFVec::try_from_iter(&lines).unwrap().into_vec();
    assert_eq!(records[0].find_sorted_matches(&records[1], d("0.2"), d("0")).unwrap_err().kind, ErrorKind::MissingFragmentationLevel);
    assert_eq!(records[1].find_sorted_matches(&records[0], d("0.2"), d("0")).unwrap_err().kind, ErrorKind::MissingFragmentationLevel);
}

#[test]
fn duplicate_feature_ids_only_fail_strict_mode() {
    let mut lines = first_level_record("PEPMASS=60.5425");
    lines.extend(first_level_record("PEPMASS=60.5425"));
    assert_eq!(MGFVec::try_from_iter(&lines).unwrap_err().kind, ErrorKind::DuplicateFeatureIds(1));
    let (records, _) = MGFVec::from_iter_with_error_log(&lines);
    assert_eq!(records.len(), 2);
}

#[test]
fn built_record_keeps_observed_fields() {
    let lines = vec![
        "BEGIN IONS",
        "FEATURE_ID=17",
        "PEPMASS=381.0795",
        "CHARGE=2-",
        "RTINSECONDS=37.083",
        "MSLEVEL=2",
        "60.5425 2.4E5",
        "END IONS",
    ];
    let records = MGFVec::try_from_iter(&lines).unwrap();
    let r = records.get(0);
    assert_eq!(r.feature_id(), 17);
    assert_eq!(r.parent_ion_mass().units(), 381_079_500_000_000);
    assert_eq!(r.retention_time().unwrap().units(), 37_083_000_000_000);
    assert_eq!(r.charge().charge(), -2);
    assert_eq!(r.metadata().feature_id(), 17);
}

#[test]
fn backup_builder_recovers_next_record() {
    let mut lines = vec![
        "BEGIN IONS",
        "FEATURE_ID=1",
        "PEPMASS=60.5425",
        "CHARGE=1",
        "RTINSECONDS=37.083",
        "SCANS=-1",
        "MSLEVEL=1",
        "60.5425 2.4E5",
        "END IONS",
    ];
    lines.extend(second_level_record("FEATURE_ID=2", ["100.05 1", "199.9 1", "305.0 1"]));
    let (records, log) = MGFVec::from_iter_with_error_log(&lines);
    assert_eq!(records.len(), 1);
    assert_eq!(records.get(0).feature_id(), 2);
    assert!(log.iter().any(|e| matches!(e, Diagnostic::Recovered { corrupted: Some(1), backup: Some(2) })));
    assert!(matches!(&log[0], Diagnostic::Error(e) if e.kind == ErrorKind::Inconsistent));
}

#[test]
fn vector_operations() {
    let lines = first_level_record("PEPMASS=60.5425");
    let mut records = MGFVec::try_from_iter(&lines).unwrap();
    assert!(!records.is_empty());
    let more = MGFVec::try_from_iter(&lines).unwrap().into_vec();
    for r in more {
        records.push(r);
    }
    assert_eq!(records.len(), 2);
    records.clear();
    assert!(records.is_empty());
    assert_eq!(MGFVec::new().len(), 0);
}

#[test]
fn record_builder_reads_a_full_record() {
    let mut parser = MascotGenericFormatBuilder::default();
    for line in [
        "BEGIN IONS",
        "FEATURE_ID=1",
        "PEPMASS=381.0795",
        "SCANS=1",
        "CHARGE=1",
        "MERGED_SCANS=1567,1540",
        "SOURCE_INSTRUMENT=ESI-qTof",
        "IONMODE=positive",
        "PUBMED=15386517",
        "NAME=Phenazine-1-carboxylic acid CollisionEnergy:102040 M-H",
        "ORGANISM=GNPS-COLLECTIONS-PESTICIDES-POSITIVE",
        "SMILES=FC(F)(F)C1=C(C(N2CCCCC2)=O)N(C=CC=C3OC)C3=N1",
        "MERGED_STATS=2 / 2 (0 removed due to low quality, 0 removed due to low cosine).",
        "RTINSECONDS=37.083",
        "SEQ=*..*",
        "SPECTRUMID=CCMSLIB00000078679",
        "FILENAME=20220513_PMA_DBGI_01_04_003.mzML",
        "MSLEVEL=1",
        "60.5425 2.4E5",
        "119.0857 3.3E5",
        "72.6217 2.1E4",
        "79.0547 1.6E5",
        "81.0606\t1.1E4",
        "81.0704\t2.4E6",
        "END IONS",
    ] {
        assert!(parser.digest_line(line).is_ok(), "{}", line);
    }
    assert!(parser.can_build());
    assert!(parser.digest_line("TITLE=File:").is_err());
}
