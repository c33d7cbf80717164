use mascot_rs::charge::Charge;
use mascot_rs::decimal::{Decimal, NumberError};
use mascot_rs::error::ErrorKind;
use mascot_rs::fragmentation_spectra_level::FragmentationSpectraLevel;
use mascot_rs::gnps_spectrum_id::GNPSSpectrumID;
use mascot_rs::ionmode::IonMode;
use mascot_rs::pubmed_id::PubMedID;
use mascot_rs::strictly_positive::StrictlyPositive;
use mascot_rs::zero::Zero;

const UNIT: i128 = 1_000_000_000_000;

#[test]
fn decimal_plain_and_exponent_forms() {
    assert_eq!(Decimal::parse("381.0795").unwrap().units(), 381_079_500_000_000);
    assert_eq!(Decimal::parse("2.4E5").unwrap().units(), 240_000 * UNIT);
    assert_eq!(Decimal::parse("2.4e+5").unwrap().units(), 240_000 * UNIT);
    assert_eq!(Decimal::parse("-0.2").unwrap().units(), -200_000_000_000);
    assert_eq!(Decimal::parse(".5").unwrap().units(), 500_000_000_000);
    assert_eq!(Decimal::parse("5.").unwrap().units(), 5 * UNIT);
    assert_eq!(Decimal::parse("+12").unwrap().units(), 12 * UNIT);
    assert_eq!(Decimal::parse("1500e-3").unwrap().units(), 1_500_000_000_000);
}

#[test]
fn decimal_errors() {
    assert_eq!(Decimal::parse("NaN").unwrap_err(), NumberError::NotANumber);
    assert_eq!(Decimal::parse("nan").unwrap_err(), NumberError::NotANumber);
    assert_eq!(Decimal::parse("").unwrap_err(), NumberError::Malformed);
    assert_eq!(Decimal::parse("abc").unwrap_err(), NumberError::Malformed);
    assert_eq!(Decimal::parse("1.2.3").unwrap_err(), NumberError::Malformed);
    assert_eq!(Decimal::parse("1e").unwrap_err(), NumberError::Malformed);
    assert_eq!(Decimal::parse(".").unwrap_err(), NumberError::Malformed);
    assert_eq!(Decimal::parse("1e40").unwrap_err(), NumberError::Unrepresentable);
    assert_eq!(Decimal::parse("1234567890123456789012345678901").unwrap_err(), NumberError::Unrepresentable);
    assert_eq!(Decimal::parse("0.0000000000010").unwrap().units(), 1);
}

#[test]
fn decimal_rounds_below_twelve_places() {
    assert_eq!(Decimal::parse("0.0000000000001").unwrap().units(), 0);
    assert_eq!(Decimal::parse("0.0000000000005").unwrap().units(), 1);
    assert_eq!(Decimal::parse("-0.0000000000005").unwrap().units(), -1);
    assert_eq!(Decimal::parse("381.07953216552734").unwrap().units(), 381_079_532_165_527);
    assert_eq!(Decimal::parse("381.07953216552754").unwrap().units(), 381_079_532_165_528);
    assert_eq!(Decimal::parse("1e-30").unwrap().units(), 0);
}

#[test]
fn decimal_traits() {
    assert!(Decimal::parse("0.1").unwrap().is_strictly_positive());
    assert!(!Decimal::parse("0").unwrap().is_strictly_positive());
    assert!(!Decimal::parse("-3").unwrap().is_strictly_positive());
    assert!(Decimal::zero().is_zero());
    assert!(<usize as Zero>::zero().is_zero());
    assert!(Decimal::from_units(5).is_some());
    assert!(Decimal::from_units(i128::MAX).is_none());
}

#[test]
fn charge_forms() {
    assert_eq!(Charge::from_str("CHARGE=-1").unwrap().charge(), -1);
    assert_eq!(Charge::from_str("CHARGE=1").unwrap().charge(), 1);
    assert_eq!(Charge::from_str("CHARGE=1+").unwrap().charge(), 1);
    assert_eq!(Charge::from_str("CHARGE=-2").unwrap().charge(), -2);
    assert_eq!(Charge::from_str("CHARGE=2-").unwrap().charge(), -2);
    assert_eq!(Charge::from_str("CHARGE=3+").unwrap().charge(), 3);
    assert_eq!(Charge::from_str("  CHARGE=4  ").unwrap().charge(), 4);
    assert_eq!(Charge::from(5i8).charge(), 5);
}

#[test]
fn charge_errors() {
    assert_eq!(Charge::from_str("CHARGE=").unwrap_err().kind, ErrorKind::InvalidCharge);
    assert_eq!(Charge::from_str("CHARGE=x").unwrap_err().kind, ErrorKind::InvalidCharge);
    assert_eq!(Charge::from_str("CHARGE=200").unwrap_err().kind, ErrorKind::InvalidCharge);
    assert_eq!(Charge::from_str("CHARGE=5+").unwrap_err().kind, ErrorKind::InvalidCharge);
    assert_eq!(Charge::from_str("CHARGE=0").unwrap_err().kind, ErrorKind::InvalidCharge);
    assert_eq!(Charge::from_str("CHARGE=-0").unwrap_err().kind, ErrorKind::InvalidCharge);
    assert_eq!(Charge::from_str("CHARGED=1").unwrap_err().kind, ErrorKind::InvalidCharge);
}

#[test]
fn ion_mode_forms() {
    assert_eq!(IonMode::from_str("IONMODE=positive").unwrap(), IonMode::Positive);
    assert_eq!(IonMode::from_str("positive").unwrap(), IonMode::Positive);
    assert_eq!(IonMode::from_str("Positive").unwrap(), IonMode::Positive);
    assert_eq!(IonMode::from_str("IONMODE=negative").unwrap(), IonMode::Negative);
    assert_eq!(IonMode::from_str(" negative ").unwrap(), IonMode::Negative);
    assert_eq!(IonMode::from_str("Negative").unwrap(), IonMode::Negative);
    assert_eq!(IonMode::from_str("").unwrap_err().kind, ErrorKind::InvalidIonMode);
    assert_eq!(IonMode::from_str("POSITIVE").unwrap(), IonMode::Positive);
    assert_eq!(IonMode::from_str("IONMODE=NEGATIVE").unwrap(), IonMode::Negative);
    assert_eq!(IonMode::from_str("neutral").unwrap_err().kind, ErrorKind::InvalidIonMode);
    assert!(IonMode::is_nan_ion_mode_from_str("N/A"));
    assert!(!IonMode::is_nan_ion_mode_from_str("n/a"));
}

#[test]
fn level_forms() {
    assert_eq!(FragmentationSpectraLevel::from_str("MSLEVEL=1").unwrap(), FragmentationSpectraLevel::One);
    assert_eq!(FragmentationSpectraLevel::from_str("MSLEVEL=2").unwrap(), FragmentationSpectraLevel::Two);
    assert_eq!(FragmentationSpectraLevel::from_str("MSLEVEL=3").unwrap_err().kind, ErrorKind::InvalidLevel);
    assert!(FragmentationSpectraLevel::One < FragmentationSpectraLevel::Two);
}

#[test]
fn gnps_spectrum_ids() {
    assert_eq!(GNPSSpectrumID::from_str("CCMSLIB00005463540").unwrap().id(), 5463540);
    assert_eq!(GNPSSpectrumID::from_str("CCMSLIB00000001547").unwrap().id(), 1547);
    assert_eq!(GNPSSpectrumID::from_str("CCMSLIB00010055263").unwrap().id(), 10055263);
    assert_eq!(GNPSSpectrumID::from_str("CCMSLIB0000546354").unwrap_err().kind, ErrorKind::InvalidSpectrumId);
    assert_eq!(GNPSSpectrumID::from_str("XCMSLIB00005463540").unwrap_err().kind, ErrorKind::InvalidSpectrumId);
    assert_eq!(GNPSSpectrumID::from_str("CCMSLIB0000546354x").unwrap_err().kind, ErrorKind::InvalidSpectrumId);
    assert_eq!(GNPSSpectrumID::from(42).id(), 42);
    assert_eq!(GNPSSpectrumID::from_id(7).id(), 7);
}

#[test]
fn pubmed_ids() {
    let p = PubMedID::from_str("PUBMED=123456").unwrap();
    assert_eq!(p.id(), 123456);
    assert!(p.doi().is_none());
    let p = PubMedID::from_str("PUBMED=PMID: 9873113  DOI:10.1016/S0040-4039(96)02163-6").unwrap();
    assert_eq!(p.id(), 9873113);
    assert_eq!(p.doi().unwrap(), "10.1016/S0040-4039(96)02163-6");
    let p = PubMedID::from_str("PMID: 9873113  doi:10.1016/S0040-4039(96)02163-6").unwrap();
    assert_eq!(p.id(), 9873113);
    assert_eq!(p.doi().unwrap(), "10.1016/S0040-4039(96)02163-6");
    assert_eq!(PubMedID::from_str("123456").unwrap().id(), 123456);
    assert_eq!(PubMedID::from_str("123456.0").unwrap().id(), 123456);
    assert_eq!(PubMedID::from_str("PUBMED=123456.0").unwrap().id(), 123456);
}

#[test]
fn pubmed_errors() {
    assert_eq!(PubMedID::from_str("   ").unwrap_err().kind, ErrorKind::InvalidPubMedId);
    assert_eq!(PubMedID::from_str("PUBMED=abc").unwrap_err().kind, ErrorKind::InvalidPubMedId);
    assert_eq!(PubMedID::from_str("1 2").unwrap_err().kind, ErrorKind::InvalidPubMedId);
    assert_eq!(PubMedID::from_str("12 doi:").unwrap_err().kind, ErrorKind::InvalidPubMedId);
    assert_eq!(PubMedID::new(0, None).unwrap_err().kind, ErrorKind::ZeroPubMedId);
    assert_eq!(PubMedID::new(3, Some("")).unwrap_err().kind, ErrorKind::EmptyText);
    let p = PubMedID::new(123456, Some("10.1016/S0040-4039(96)02163-6")).unwrap();
    assert_eq!(p.id(), 123456);
    assert_eq!(p.doi().unwrap(), "10.1016/S0040-4039(96)02163-6");
}

#[test]
fn pubmed_lower_case_doi_is_upper_cased() {
    let p = PubMedID::from_str("pmid: 5 doi:10.1/abc").unwrap();
    assert_eq!(p.id(), 5);
    assert_eq!(p.doi().unwrap(), "10.1/ABC");
    let q = PubMedID::from_uppercase("PMID: 5 DOI:10.1/abc").unwrap();
    assert_eq!(q.doi().unwrap(), "10.1/abc");
}

#[test]
fn unicode_white_space_is_trimmed() {
    assert_eq!(Charge::from_str("\u{A0}CHARGE=2+\u{2003}").unwrap().charge(), 2);
    assert_eq!(IonMode::from_str("\u{3000}negative\u{A0}").unwrap(), IonMode::Negative);
    let p = PubMedID::from_str("PMID:\u{A0}9873113\u{2009}DOI:10.1/X").unwrap();
    assert_eq!(p.id(), 9873113);
    assert_eq!(p.doi().unwrap(), "10.1/X");
}
