use tex_shooter::camera::{
    convert_av, convert_iso, convert_tv, is_known_aperture, is_known_iso, is_known_shutter, ApertureValue,
    IsoSpeed, ShutterSpeed,
};

#[test]
fn iso_table() {
    assert_eq!(convert_iso(50), IsoSpeed::Iso50);
    assert_eq!(convert_iso(400), IsoSpeed::Iso400);
    assert_eq!(convert_iso(1600), IsoSpeed::Iso1600);
    assert_eq!(convert_iso(3200), IsoSpeed::Iso3200);
}

#[test]
fn unmapped_iso_falls_back_to_100() {
    assert_eq!(convert_iso(999), IsoSpeed::Iso100);
    assert_eq!(convert_iso(0), IsoSpeed::Iso100);
}

#[test]
fn aperture_exact_match() {
    assert_eq!(convert_av("4.0"), ApertureValue::Av4_0);
    assert_eq!(convert_av("2.8"), ApertureValue::Av2_8);
    assert_eq!(convert_av("1.0"), ApertureValue::Av1_0);
    assert_eq!(convert_av("32.0"), ApertureValue::Av32_0);
}

#[test]
fn aperture_without_decimal_falls_back() {
    assert_eq!(convert_av("4"), ApertureValue::Av4_0);
    assert_eq!(convert_av("2.80"), ApertureValue::Av4_0);
    assert_eq!(convert_av("11"), ApertureValue::Av4_0);
    assert_eq!(convert_av(""), ApertureValue::Av4_0);
}

#[test]
fn shutter_table() {
    assert_eq!(convert_tv("3"), ShutterSpeed::Tv3);
    assert_eq!(convert_tv("0.8"), ShutterSpeed::Tv0_8);
    assert_eq!(convert_tv("1/60"), ShutterSpeed::Tv1_60th);
    assert_eq!(convert_tv("1/250"), ShutterSpeed::Tv1_250th);
}

#[test]
fn unmapped_shutter_falls_back_to_one_fifteenth() {
    assert_eq!(convert_tv("1/64"), ShutterSpeed::Tv1_15th);
    assert_eq!(convert_tv("1/4000"), ShutterSpeed::Tv1_15th);
}

#[test]
fn fallback_is_observable() {
    assert!(is_known_iso(100));
    assert!(is_known_iso(3200));
    assert!(!is_known_iso(999));
    assert!(is_known_aperture("4.0"));
    assert!(is_known_aperture("2.8"));
    assert!(!is_known_aperture("4"));
    assert!(is_known_shutter("1/15"));
    assert!(is_known_shutter("0.3"));
    assert!(!is_known_shutter("1/64"));
}
