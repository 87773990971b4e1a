use tex_shooter::number::{Decimal, ParseError};
use tex_shooter::project::ProjectSettings;
use tex_shooter::rational::RationalValue;

#[test]
fn fresh_project() {
    let p = ProjectSettings::with_root("/home/u/texshooter");
    assert_eq!(p.get_root_path(), "/home/u/texshooter");
    assert_eq!(p.get_iso_as_str(), "100");
    assert_eq!(p.get_aperture_value_as_str(), "4.0");
    assert_eq!(p.get_time_value_as_str(), "1/15");
    assert_eq!(p.last_processing, "");
    assert_eq!(p.get_iso(), Ok(100));
    assert_eq!(p.get_aperture_value(), Ok(Decimal { mantissa: 40, scale: 1 }));
    assert_eq!(p.get_time_value(), Ok(RationalValue { numerator: 1, denominator: 15 }));
}

#[test]
fn setters_replace_one_field() {
    let mut p = ProjectSettings::with_root("/r");
    p.set_iso("400");
    p.set_aperture_value("2.8");
    p.set_time_value("1/60");
    p.set_root_path("/s");
    assert_eq!(p.get_root_path(), "/s");
    assert_eq!(p.get_iso(), Ok(400));
    assert_eq!(p.get_aperture_value(), Ok(Decimal { mantissa: 28, scale: 1 }));
    assert_eq!(p.get_time_value(), Ok(RationalValue { numerator: 1, denominator: 60 }));
}

#[test]
fn getters_report_bad_text() {
    let mut p = ProjectSettings::with_root("/r");
    p.set_iso("fast");
    p.set_time_value("1/0");
    assert_eq!(p.get_iso(), Err(ParseError::Malformed));
    assert_eq!(p.get_time_value(), Err(ParseError::ZeroDenominator));
    assert_eq!(p.get_iso_as_str(), "fast");
}

#[test]
fn last_processing_set_only_when_it_exists() {
    let mut p = ProjectSettings::with_root("/r");
    assert!(!p.set_last_processing("gone", false));
    assert_eq!(p.last_processing, "");
    assert!(p.set_last_processing("take1", true));
    assert_eq!(p.last_processing, "take1");
    assert!(!p.set_last_processing("gone", false));
    assert_eq!(p.last_processing, "take1");
}
