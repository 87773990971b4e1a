use vstd::prelude::*;
use crate::number::{decimal_text, lemma_parse_decimal_text, pow10, parse_u32, spec_parse_decimal, spec_parse_u32, Decimal, ParseError, MAX_SCALE};
use crate::rational::{spec_parse_rational, RationalValue};

verus! {

/// Maps a printed shutter denominator to the power-of-two base that the camera's
/// timer really uses; other denominators stand as they are.
pub open spec fn effective_denominator(d: u32) -> u32 {
    if d == 15 {
        16
    } else if d == 30 {
        32
    } else if d == 60 {
        64
    } else if d == 125 {
        128
    } else if d == 250 {
        256
    } else if d == 500 {
        512
    } else if d == 1000 {
        1024
    } else if d == 2000 {
        2048
    } else if d == 4000 {
        4096
    } else if d == 8000 {
        8192
    } else if d == 16000 {
        16384
    } else if d == 32000 {
        32768
    } else if d == 64000 {
        65536
    } else {
        d
    }
}

/// The denominator the camera actually times against, for a printed shutter denominator.
pub fn convert_tv_denominator(denominator: u32) -> (r: u32)
    ensures
        r == effective_denominator(denominator),
{
    match denominator {
        15 => 16,
        30 => 32,
        60 => 64,
        125 => 128,
        250 => 256,
        500 => 512,
        1000 => 1024,
        2000 => 2048,
        4000 => 4096,
        8000 => 8192,
        16000 => 16384,
        32000 => 32768,
        64000 => 65536,
        _ => denominator,
    }
}

/// An exposure as an exact ratio of light: its exposure value (EV) is
/// `log2(numerator / denominator)`.
#[derive(Clone, Copy, Debug, PartialEq, Eq, Structural)]
pub struct ExposureRatio {
    pub numerator: u128,
    pub denominator: u128,
}

/// `iso · N² · d'`, the part of the light ratio above the line, for an f-number `N`
/// and a shutter time whose effective denominator is `d'`.
pub open spec fn light_numerator(iso: u32, aperture: Decimal, shutter: RationalValue) -> int {
    iso * aperture.mantissa * aperture.mantissa * effective_denominator(shutter.denominator)
}

/// `100 · 10^(2·scale) · n`, the part below the line, for a shutter numerator `n`.
pub open spec fn light_denominator(aperture: Decimal, shutter: RationalValue) -> int {
    100 * pow10((2 * aperture.scale) as nat) * shutter.numerator
}

/// The exposure ratio `(iso / 100) · N² / (n / d')`, whose log2 is
/// `log2(iso / 100) + log2(N²) - log2(n / d')`.
pub open spec fn spec_exposure_ratio(iso: u32, aperture: Decimal, shutter: RationalValue) -> Result<
    ExposureRatio,
    ParseError,
> {
    if shutter.denominator == 0 {
        Err(ParseError::ZeroDenominator)
    } else if iso == 0 || aperture.mantissa == 0 || shutter.numerator == 0 {
        Err(ParseError::NotPositive)
    } else if aperture.scale > MAX_SCALE {
        Err(ParseError::OutOfRange)
    } else {
        Ok(
            ExposureRatio {
                numerator: light_numerator(iso, aperture, shutter) as u128,
                denominator: light_denominator(aperture, shutter) as u128,
            },
        )
    }
}

proof fn lemma_pow10_monotone(i: nat, j: nat)
    requires
        i <= j,
    ensures
        pow10(i) <= pow10(j),
    decreases j,
{
    if i < j {
        lemma_pow10_monotone(i, (j - 1) as nat);
    }
}

/// Computes the exposure ratio of an ISO speed, an f-number and a shutter time.
pub fn exposure_ratio(iso: u32, aperture: Decimal, shutter: RationalValue) -> (r: Result<
    ExposureRatio,
    ParseError,
>)
    ensures
        r == spec_exposure_ratio(iso, aperture, shutter),
        r matches Ok(x) ==> x.numerator == light_numerator(iso, aperture, shutter)
            && x.denominator == light_denominator(aperture, shutter),
{
    if shutter.denominator == 0 {
        return Err(ParseError::ZeroDenominator);
    }
    if iso == 0 || aperture.mantissa == 0 || shutter.numerator == 0 {
        return Err(ParseError::NotPositive);
    }
    if aperture.scale > MAX_SCALE {
        return Err(ParseError::OutOfRange);
    }
    let eff = convert_tv_denominator(shutter.denominator);
    let m = aperture.mantissa as u128;
    let a = iso as u128;
    let e = eff as u128;
    assert(a * m <= 0xffff_ffff_ffff_ffff) by (nonlinear_arith)
        requires
            a <= 0xffff_ffff,
            m <= 0xffff_ffff,
    ;
    let am = a * m;
    assert(am * m <= 0xffff_ffff_ffff_ffff_ffff_ffff) by (nonlinear_arith)
        requires
            am <= 0xffff_ffff_ffff_ffff,
            m <= 0xffff_ffff,
    ;
    let amm = am * m;
    assert(amm * e <= 0xffff_ffff_ffff_ffff_ffff_ffff_ffff_ffff) by (nonlinear_arith)
        requires
            amm <= 0xffff_ffff_ffff_ffff_ffff_ffff,
            e <= 0xffff_ffff,
    ;
    let numerator = amm * e;
    let steps = 2 * aperture.scale;
    let mut p: u128 = 1;
    let mut i: u32 = 0;
    proof {
        reveal_with_fuel(pow10, 19);
        lemma_pow10_monotone(steps as nat, 18);
    }
    while i < steps
        invariant
            i <= steps <= 18,
            p == pow10(i as nat),
            pow10(steps as nat) <= 1_000_000_000_000_000_000,
        decreases steps - i,
    {
        proof {
            lemma_pow10_monotone((i + 1) as nat, steps as nat);
        }
        p = p * 10;
        i = i + 1;
    }
    let hp = 100 * p;
    let n = shutter.numerator as u128;
    assert(hp * n <= 100_000_000_000_000_000_000 * 0xffff_ffff) by (nonlinear_arith)
        requires
            hp <= 100_000_000_000_000_000_000,
            n <= 0xffff_ffff,
    ;
    let denominator = hp * n;
    Ok(ExposureRatio { numerator, denominator })
}

/// Doubling the ISO speed (as from 100 to 200) with the same aperture and shutter
/// doubles the light ratio, so the exposure value grows by exactly one stop.
pub proof fn lemma_doubling_iso_adds_one_stop(iso: u32, aperture: Decimal, shutter: RationalValue)
    requires
        iso > 0,
        2 * iso <= u32::MAX,
        shutter.wf(),
        shutter.numerator > 0,
        aperture.mantissa > 0,
        aperture.scale <= MAX_SCALE,
    ensures
        light_numerator((2 * iso) as u32, aperture, shutter) == 2 * light_numerator(
            iso,
            aperture,
            shutter,
        ),
        spec_exposure_ratio(iso, aperture, shutter) is Ok,
        spec_exposure_ratio((2 * iso) as u32, aperture, shutter) is Ok,
{
    let m = aperture.mantissa as int;
    let e = effective_denominator(shutter.denominator) as int;
    assert((2 * iso) * m * m * e == 2 * (iso * m * m * e)) by (nonlinear_arith);
}

/// ISO speed, aperture and shutter time as the user wrote them.
pub struct ExposureSettings {
    pub iso: String,
    pub aperture_value: String,
    pub time_value: String,
}

/// The exposure ratio of settings given as text: the ISO speed as an unsigned
/// integer, the aperture as a decimal f-number, the shutter time as a ratio.
pub open spec fn spec_settings_ratio(iso: Seq<char>, aperture: Seq<char>, time: Seq<char>) -> Result<
    ExposureRatio,
    ParseError,
> {
    match spec_parse_u32(iso) {
        Err(e) => Err(e),
        Ok(i) => match spec_parse_decimal(aperture) {
            Err(e) => Err(e),
            Ok(a) => match spec_parse_rational(time) {
                Err(e) => Err(e),
                Ok(t) => spec_exposure_ratio(i, a, t),
            },
        },
    }
}

proof fn lemma_reads_100()
    ensures
        spec_parse_u32("100"@) == Ok::<u32, ParseError>(100),
{
    reveal_strlit("100");
    reveal_with_fuel(decimal_text, 3);
    assert("100"@ =~= decimal_text(100));
    lemma_parse_decimal_text(100);
}

proof fn lemma_reads_200()
    ensures
        spec_parse_u32("200"@) == Ok::<u32, ParseError>(200),
{
    reveal_strlit("200");
    reveal_with_fuel(decimal_text, 3);
    assert("200"@ =~= decimal_text(200));
    lemma_parse_decimal_text(200);
}

proof fn lemma_light_numerator_fits(iso: u32, aperture: Decimal, shutter: RationalValue)
    ensures
        0 <= light_numerator(iso, aperture, shutter) <= u128::MAX,
{
    let i = iso as int;
    let m = aperture.mantissa as int;
    let e = effective_denominator(shutter.denominator) as int;
    assert(0 <= i * m * m * e <= 0xffff_ffff * 0xffff_ffff * 0xffff_ffff * 0xffff_ffff)
        by (nonlinear_arith)
        requires
            0 <= i <= 0xffff_ffff,
            0 <= m <= 0xffff_ffff,
            0 <= e <= 0xffff_ffff,
    ;
}

/// Settings that differ only in reading ISO 200 instead of ISO 100 have twice the
/// light ratio over the same denominator: their exposure value is one stop higher.
pub proof fn lemma_iso_200_is_one_stop_over_iso_100(aperture: Seq<char>, time: Seq<char>)
    requires
        spec_settings_ratio("100"@, aperture, time) is Ok,
    ensures
        spec_settings_ratio("200"@, aperture, time) is Ok,
        spec_settings_ratio("200"@, aperture, time)->Ok_0.numerator == 2 * spec_settings_ratio(
            "100"@,
            aperture,
            time,
        )->Ok_0.numerator,
        spec_settings_ratio("200"@, aperture, time)->Ok_0.denominator == spec_settings_ratio(
            "100"@,
            aperture,
            time,
        )->Ok_0.denominator,
{
    lemma_reads_100();
    lemma_reads_200();
    let pa = spec_parse_decimal(aperture);
    let pt = spec_parse_rational(time);
    assert(pa is Ok && pt is Ok);
    let a = pa->Ok_0;
    let t = pt->Ok_0;
    assert(spec_settings_ratio("100"@, aperture, time) == spec_exposure_ratio(100, a, t));
    assert(spec_settings_ratio("200"@, aperture, time) == spec_exposure_ratio(200, a, t));
    lemma_doubling_iso_adds_one_stop(100, a, t);
    lemma_light_numerator_fits(100, a, t);
    lemma_light_numerator_fits(200, a, t);
}

impl ExposureSettings {
    /// The starting settings: ISO 100, f/4.0, 1/15 s.
    pub fn new() -> (r: ExposureSettings)
        ensures
            r.iso@ == "100"@,
            r.aperture_value@ == "4.0"@,
            r.time_value@ == "1/15"@,
    {
        ExposureSettings {
            iso: String::from_str("100"),
            aperture_value: String::from_str("4.0"),
            time_value: String::from_str("1/15"),
        }
    }

    /// The exposure ratio of these settings; its log2 is the exposure value.
    pub fn exposure_ratio(&self) -> (r: Result<ExposureRatio, ParseError>)
        ensures
            r == spec_settings_ratio(self.iso@, self.aperture_value@, self.time_value@),
    {
        let iso = match parse_u32(self.iso.as_str()) {
            Err(e) => {
                return Err(e);
            },
            Ok(v) => v,
        };
        let aperture = match Decimal::parse(self.aperture_value.as_str()) {
            Err(e) => {
                return Err(e);
            },
            Ok(v) => v,
        };
        let time = match RationalValue::parse(self.time_value.as_str()) {
            Err(e) => {
                return Err(e);
            },
            Ok(v) => v,
        };
        exposure_ratio(iso, aperture, time)
    }
}

} // verus!
