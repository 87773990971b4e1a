use tex_shooter::exposure::{convert_tv_denominator, exposure_ratio, ExposureRatio, ExposureSettings};
use tex_shooter::number::{Decimal, ParseError};
use tex_shooter::rational::RationalValue;

fn ev(r: ExposureRatio) -> f64 {
    (r.numerator as f64 / r.denominator as f64).log2()
}

fn settings(iso: &str, aperture: &str, time: &str) -> ExposureSettings {
    ExposureSettings {
        iso: iso.to_string(),
        aperture_value: aperture.to_string(),
        time_value: time.to_string(),
    }
}

#[test]
fn doubling_table() {
    assert_eq!(convert_tv_denominator(15), 16);
    assert_eq!(convert_tv_denominator(1000), 1024);
    assert_eq!(convert_tv_denominator(7), 7);
    assert_eq!(convert_tv_denominator(64000), 65536);
    assert_eq!(convert_tv_denominator(0), 0);
    assert_eq!(convert_tv_denominator(u32::MAX), u32::MAX);
}

#[test]
fn reference_exposure_is_zero() {
    let r = settings("100", "1.0", "1/1").exposure_ratio().unwrap();
    assert_eq!(r.numerator, r.denominator);
    assert_eq!(ev(r), 0.0);
}

#[test]
fn iso_200_is_one_stop_over_iso_100() {
    let a = settings("100", "5.6", "1/125").exposure_ratio().unwrap();
    let b = settings("200", "5.6", "1/125").exposure_ratio().unwrap();
    assert_eq!(b.numerator, 2 * a.numerator);
    assert_eq!(b.denominator, a.denominator);
    assert!((ev(b) - ev(a) - 1.0).abs() < 1e-12);
}

#[test]
fn end_to_end_exposure_value() {
    let r = settings("400", "2.8", "1/60").exposure_ratio().unwrap();
    assert_eq!(r, ExposureRatio { numerator: 400 * 28 * 28 * 64, denominator: 100 * 100 });
    let expected = 4.0f64.log2() + 7.84f64.log2() - (1.0f64 / 64.0).log2();
    assert!((ev(r) - expected).abs() < 1e-9);
    assert!((ev(r) - 10.9708).abs() < 1e-3);
}

#[test]
fn default_settings() {
    let s = ExposureSettings::new();
    assert_eq!(s.iso, "100");
    assert_eq!(s.aperture_value, "4.0");
    assert_eq!(s.time_value, "1/15");
    let r = s.exposure_ratio().unwrap();
    assert_eq!(r, ExposureRatio { numerator: 100 * 40 * 40 * 16, denominator: 100 * 100 * 1 });
}

#[test]
fn exposure_errors() {
    assert_eq!(settings("abc", "4.0", "1/15").exposure_ratio(), Err(ParseError::Malformed));
    assert_eq!(settings("100", "f4", "1/15").exposure_ratio(), Err(ParseError::Malformed));
    assert_eq!(settings("100", "4.0", "1/0").exposure_ratio(), Err(ParseError::ZeroDenominator));
    assert_eq!(settings("0", "4.0", "1/15").exposure_ratio(), Err(ParseError::NotPositive));
    assert_eq!(settings("100", "0.0", "1/15").exposure_ratio(), Err(ParseError::NotPositive));
    assert_eq!(settings("100", "4.0", "0/15").exposure_ratio(), Err(ParseError::NotPositive));
    assert_eq!(settings("100", "4.0000000000", "1/15").exposure_ratio(), Err(ParseError::OutOfRange));
}

#[test]
fn exposure_ratio_of_values() {
    let a = Decimal { mantissa: 80, scale: 1 };
    let s = RationalValue { numerator: 2, denominator: 1 };
    assert_eq!(exposure_ratio(800, a, s), Ok(ExposureRatio { numerator: 800 * 6400, denominator: 100 * 100 * 2 }));
    assert_eq!(
        exposure_ratio(1, a, RationalValue { numerator: 1, denominator: 0 }),
        Err(ParseError::ZeroDenominator)
    );
    assert_eq!(exposure_ratio(100, Decimal { mantissa: 4, scale: 10 }, s), Err(ParseError::OutOfRange));
}

#[test]
fn largest_inputs_do_not_overflow() {
    let a = Decimal { mantissa: u32::MAX, scale: 9 };
    let s = RationalValue { numerator: u32::MAX, denominator: u32::MAX };
    let m = u32::MAX as u128;
    assert_eq!(
        exposure_ratio(u32::MAX, a, s),
        Ok(ExposureRatio { numerator: m * m * m * m, denominator: 100 * 1_000_000_000_000_000_000 * m })
    );
}
