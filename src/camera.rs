use vstd::prelude::*;
use crate::text::same_text;

verus! {

/// The ISO speeds a camera session accepts.
#[derive(Clone, Copy, Debug, PartialEq, Eq, Structural)]
pub enum IsoSpeed {
    Iso50,
    Iso100,
    Iso200,
    Iso400,
    Iso800,
    Iso1600,
    Iso3200,
}

/// The aperture detents (f-numbers) a camera session accepts.
#[allow(non_camel_case_types)]
#[derive(Clone, Copy, Debug, PartialEq, Eq, Structural)]
pub enum ApertureValue {
    Av1_0,
    Av1_1,
    Av1_2,
    Av1_4,
    Av1_6,
    Av1_8,
    Av2_0,
    Av2_2,
    Av2_5,
    Av2_8,
    Av3_2,
    Av3_5,
    Av4_0,
    Av4_5,
    Av5_0,
    Av5_6,
    Av6_3,
    Av6_7,
    Av7_1,
    Av8_0,
    Av9_0,
    Av9_5,
    Av10_0,
    Av11_0,
    Av13_0,
    Av14_0,
    Av16_0,
    Av18_0,
    Av19_0,
    Av20_0,
    Av22_0,
    Av25_0,
    Av27_0,
    Av29_0,
    Av32_0,
}

/// The shutter speeds a camera session accepts, from 3 s down to 1/250 s.
#[allow(non_camel_case_types)]
#[derive(Clone, Copy, Debug, PartialEq, Eq, Structural)]
pub enum ShutterSpeed {
    Tv3,
    Tv2_5,
    Tv2,
    Tv1_6,
    Tv1_5,
    Tv1_3,
    Tv1,
    Tv0_8,
    Tv0_7,
    Tv0_6,
    Tv0_5,
    Tv0_4,
    Tv0_3,
    Tv1_4th,
    Tv1_5th,
    Tv1_6th,
    Tv1_8th,
    Tv1_10th,
    Tv1_13th,
    Tv1_15th,
    Tv1_20th,
    Tv1_25th,
    Tv1_30th,
    Tv1_40th,
    Tv1_45th,
    Tv1_50th,
    Tv1_60th,
    Tv1_80th,
    Tv1_90th,
    Tv1_100th,
    Tv1_125th,
    Tv1_160th,
    Tv1_180th,
    Tv1_200th,
    Tv1_250th,
}

/// The camera ISO setting for an ISO number; numbers off the table give ISO 100.
pub open spec fn iso_of(iso: u32) -> IsoSpeed {
    if iso == 50 {
        IsoSpeed::Iso50
    } else if iso == 100 {
        IsoSpeed::Iso100
    } else if iso == 200 {
        IsoSpeed::Iso200
    } else if iso == 400 {
        IsoSpeed::Iso400
    } else if iso == 800 {
        IsoSpeed::Iso800
    } else if iso == 1600 {
        IsoSpeed::Iso1600
    } else if iso == 3200 {
        IsoSpeed::Iso3200
    } else {
        IsoSpeed::Iso100
    }
}

/// The camera ISO setting for an ISO number: an exact match, else ISO 100.
pub fn convert_iso(iso: u32) -> (r: IsoSpeed)
    ensures
        r == iso_of(iso),
{
    match iso {
        50 => IsoSpeed::Iso50,
        100 => IsoSpeed::Iso100,
        200 => IsoSpeed::Iso200,
        400 => IsoSpeed::Iso400,
        800 => IsoSpeed::Iso800,
        1600 => IsoSpeed::Iso1600,
        3200 => IsoSpeed::Iso3200,
        _ => IsoSpeed::Iso100,
    }
}

/// The camera aperture setting for an f-number as displayed; other text gives f/4.0.
pub open spec fn aperture_of(s: Seq<char>) -> ApertureValue {
    if s == "1.0"@ {
        ApertureValue::Av1_0
    } else if s == "1.1"@ {
        ApertureValue::Av1_1
    } else if s == "1.2"@ {
        ApertureValue::Av1_2
    } else if s == "1.4"@ {
        ApertureValue::Av1_4
    } else if s == "1.6"@ {
        ApertureValue::Av1_6
    } else if s == "1.8"@ {
        ApertureValue::Av1_8
    } else if s == "2.0"@ {
        ApertureValue::Av2_0
    } else if s == "2.2"@ {
        ApertureValue::Av2_2
    } else if s == "2.5"@ {
        ApertureValue::Av2_5
    } else if s == "2.8"@ {
        ApertureValue::Av2_8
    } else if s == "3.2"@ {
        ApertureValue::Av3_2
    } else if s == "3.5"@ {
        ApertureValue::Av3_5
    } else if s == "4.0"@ {
        ApertureValue::Av4_0
    } else if s == "4.5"@ {
        ApertureValue::Av4_5
    } else if s == "5.0"@ {
        ApertureValue::Av5_0
    } else if s == "5.6"@ {
        ApertureValue::Av5_6
    } else if s == "6.3"@ {
        ApertureValue::Av6_3
    } else if s == "6.7"@ {
        ApertureValue::Av6_7
    } else if s == "7.1"@ {
        ApertureValue::Av7_1
    } else if s == "8.0"@ {
        ApertureValue::Av8_0
    } else if s == "9.0"@ {
        ApertureValue::Av9_0
    } else if s == "9.5"@ {
        ApertureValue::Av9_5
    } else if s == "10.0"@ {
        ApertureValue::Av10_0
    } else if s == "11.0"@ {
        ApertureValue::Av11_0
    } else if s == "13.0"@ {
        ApertureValue::Av13_0
    } else if s == "14.0"@ {
        ApertureValue::Av14_0
    } else if s == "16.0"@ {
        ApertureValue::Av16_0
    } else if s == "18.0"@ {
        ApertureValue::Av18_0
    } else if s == "19.0"@ {
        ApertureValue::Av19_0
    } else if s == "20.0"@ {
        ApertureValue::Av20_0
    } else if s == "22.0"@ {
        ApertureValue::Av22_0
    } else if s == "25.0"@ {
        ApertureValue::Av25_0
    } else if s == "27.0"@ {
        ApertureValue::Av27_0
    } else if s == "29.0"@ {
        ApertureValue::Av29_0
    } else if s == "32.0"@ {
        ApertureValue::Av32_0
    } else {
        ApertureValue::Av4_0
    }
}

/// The camera aperture setting for an f-number as displayed (`"2.8"`): an exact
/// match of the text, else f/4.0.
pub fn convert_av(av_str: &str) -> (r: ApertureValue)
    ensures
        r == aperture_of(av_str@),
{
    if same_text(av_str, "1.0") {
        ApertureValue::Av1_0
    } else if same_text(av_str, "1.1") {
        ApertureValue::Av1_1
    } else if same_text(av_str, "1.2") {
        ApertureValue::Av1_2
    } else if same_text(av_str, "1.4") {
        ApertureValue::Av1_4
    } else if same_text(av_str, "1.6") {
        ApertureValue::Av1_6
    } else if same_text(av_str, "1.8") {
        ApertureValue::Av1_8
    } else if same_text(av_str, "2.0") {
        ApertureValue::Av2_0
    } else if same_text(av_str, "2.2") {
        ApertureValue::Av2_2
    } else if same_text(av_str, "2.5") {
        ApertureValue::Av2_5
    } else if same_text(av_str, "2.8") {
        ApertureValue::Av2_8
    } else if same_text(av_str, "3.2") {
        ApertureValue::Av3_2
    } else if same_text(av_str, "3.5") {
        ApertureValue::Av3_5
    } else if same_text(av_str, "4.0") {
        ApertureValue::Av4_0
    } else if same_text(av_str, "4.5") {
        ApertureValue::Av4_5
    } else if same_text(av_str, "5.0") {
        ApertureValue::Av5_0
    } else if same_text(av_str, "5.6") {
        ApertureValue::Av5_6
    } else if same_text(av_str, "6.3") {
        ApertureValue::Av6_3
    } else if same_text(av_str, "6.7") {
        ApertureValue::Av6_7
    } else if same_text(av_str, "7.1") {
        ApertureValue::Av7_1
    } else if same_text(av_str, "8.0") {
        ApertureValue::Av8_0
    } else if same_text(av_str, "9.0") {
        ApertureValue::Av9_0
    } else if same_text(av_str, "9.5") {
        ApertureValue::Av9_5
    } else if same_text(av_str, "10.0") {
        ApertureValue::Av10_0
    } else if same_text(av_str, "11.0") {
        ApertureValue::Av11_0
    } else if same_text(av_str, "13.0") {
        ApertureValue::Av13_0
    } else if same_text(av_str, "14.0") {
        ApertureValue::Av14_0
    } else if same_text(av_str, "16.0") {
        ApertureValue::Av16_0
    } else if same_text(av_str, "18.0") {
        ApertureValue::Av18_0
    } else if same_text(av_str, "19.0") {
        ApertureValue::Av19_0
    } else if same_text(av_str, "20.0") {
        ApertureValue::Av20_0
    } else if same_text(av_str, "22.0") {
        ApertureValue::Av22_0
    } else if same_text(av_str, "25.0") {
        ApertureValue::Av25_0
    } else if same_text(av_str, "27.0") {
        ApertureValue::Av27_0
    } else if same_text(av_str, "29.0") {
        ApertureValue::Av29_0
    } else if same_text(av_str, "32.0") {
        ApertureValue::Av32_0
    } else {
        ApertureValue::Av4_0
    }
}

/// The camera shutter setting for a shutter time as displayed; other text gives 1/15 s.
pub open spec fn shutter_of(s: Seq<char>) -> ShutterSpeed {
    if s == "3"@ {
        ShutterSpeed::Tv3
    } else if s == "2.5"@ {
        ShutterSpeed::Tv2_5
    } else if s == "2"@ {
        ShutterSpeed::Tv2
    } else if s == "1.6"@ {
        ShutterSpeed::Tv1_6
    } else if s == "1.5"@ {
        ShutterSpeed::Tv1_5
    } else if s == "1.3"@ {
        ShutterSpeed::Tv1_3
    } else if s == "1"@ {
        ShutterSpeed::Tv1
    } else if s == "0.8"@ {
        ShutterSpeed::Tv0_8
    } else if s == "0.7"@ {
        ShutterSpeed::Tv0_7
    } else if s == "0.6"@ {
        ShutterSpeed::Tv0_6
    } else if s == "0.5"@ {
        ShutterSpeed::Tv0_5
    } else if s == "0.4"@ {
        ShutterSpeed::Tv0_4
    } else if s == "0.3"@ {
        ShutterSpeed::Tv0_3
    } else if s == "1/4"@ {
        ShutterSpeed::Tv1_4th
    } else if s == "1/5"@ {
        ShutterSpeed::Tv1_5th
    } else if s == "1/6"@ {
        ShutterSpeed::Tv1_6th
    } else if s == "1/8"@ {
        ShutterSpeed::Tv1_8th
    } else if s == "1/10"@ {
        ShutterSpeed::Tv1_10th
    } else if s == "1/13"@ {
        ShutterSpeed::Tv1_13th
    } else if s == "1/15"@ {
        ShutterSpeed::Tv1_15th
    } else if s == "1/20"@ {
        ShutterSpeed::Tv1_20th
    } else if s == "1/25"@ {
        ShutterSpeed::Tv1_25th
    } else if s == "1/30"@ {
        ShutterSpeed::Tv1_30th
    } else if s == "1/40"@ {
        ShutterSpeed::Tv1_40th
    } else if s == "1/45"@ {
        ShutterSpeed::Tv1_45th
    } else if s == "1/50"@ {
        ShutterSpeed::Tv1_50th
    } else if s == "1/60"@ {
        ShutterSpeed::Tv1_60th
    } else if s == "1/80"@ {
        ShutterSpeed::Tv1_80th
    } else if s == "1/90"@ {
        ShutterSpeed::Tv1_90th
    } else if s == "1/100"@ {
        ShutterSpeed::Tv1_100th
    } else if s == "1/125"@ {
        ShutterSpeed::Tv1_125th
    } else if s == "1/160"@ {
        ShutterSpeed::Tv1_160th
    } else if s == "1/180"@ {
        ShutterSpeed::Tv1_180th
    } else if s == "1/200"@ {
        ShutterSpeed::Tv1_200th
    } else if s == "1/250"@ {
        ShutterSpeed::Tv1_250th
    } else {
        ShutterSpeed::Tv1_15th
    }
}

/// The camera shutter setting for a shutter time as displayed (`"1/60"`, `"0.8"`):
/// an exact match of the text, else 1/15 s.
pub fn convert_tv(tv_str: &str) -> (r: ShutterSpeed)
    ensures
        r == shutter_of(tv_str@),
{
    if same_text(tv_str, "3") {
        ShutterSpeed::Tv3
    } else if same_text(tv_str, "2.5") {
        ShutterSpeed::Tv2_5
    } else if same_text(tv_str, "2") {
        ShutterSpeed::Tv2
    } else if same_text(tv_str, "1.6") {
        ShutterSpeed::Tv1_6
    } else if same_text(tv_str, "1.5") {
        ShutterSpeed::Tv1_5
    } else if same_text(tv_str, "1.3") {
        ShutterSpeed::Tv1_3
    } else if same_text(tv_str, "1") {
        ShutterSpeed::Tv1
    } else if same_text(tv_str, "0.8") {
        ShutterSpeed::Tv0_8
    } else if same_text(tv_str, "0.7") {
        ShutterSpeed::Tv0_7
    } else if same_text(tv_str, "0.6") {
        ShutterSpeed::Tv0_6
    } else if same_text(tv_str, "0.5") {
        ShutterSpeed::Tv0_5
    } else if same_text(tv_str, "0.4") {
        ShutterSpeed::Tv0_4
    } else if same_text(tv_str, "0.3") {
        ShutterSpeed::Tv0_3
    } else if same_text(tv_str, "1/4") {
        ShutterSpeed::Tv1_4th
    } else if same_text(tv_str, "1/5") {
        ShutterSpeed::Tv1_5th
    } else if same_text(tv_str, "1/6") {
        ShutterSpeed::Tv1_6th
    } else if same_text(tv_str, "1/8") {
        ShutterSpeed::Tv1_8th
    } else if same_text(tv_str, "1/10") {
        ShutterSpeed::Tv1_10th
    } else if same_text(tv_str, "1/13") {
        ShutterSpeed::Tv1_13th
    } else if same_text(tv_str, "1/15") {
        ShutterSpeed::Tv1_15th
    } else if same_text(tv_str, "1/20") {
        ShutterSpeed::Tv1_20th
    } else if same_text(tv_str, "1/25") {
        ShutterSpeed::Tv1_25th
    } else if same_text(tv_str, "1/30") {
        ShutterSpeed::Tv1_30th
    } else if same_text(tv_str, "1/40") {
        ShutterSpeed::Tv1_40th
    } else if same_text(tv_str, "1/45") {
        ShutterSpeed::Tv1_45th
    } else if same_text(tv_str, "1/50") {
        ShutterSpeed::Tv1_50th
    } else if same_text(tv_str, "1/60") {
        ShutterSpeed::Tv1_60th
    } else if same_text(tv_str, "1/80") {
        ShutterSpeed::Tv1_80th
    } else if same_text(tv_str, "1/90") {
        ShutterSpeed::Tv1_90th
    } else if same_text(tv_str, "1/100") {
        ShutterSpeed::Tv1_100th
    } else if same_text(tv_str, "1/125") {
        ShutterSpeed::Tv1_125th
    } else if same_text(tv_str, "1/160") {
        ShutterSpeed::Tv1_160th
    } else if same_text(tv_str, "1/180") {
        ShutterSpeed::Tv1_180th
    } else if same_text(tv_str, "1/200") {
        ShutterSpeed::Tv1_200th
    } else if same_text(tv_str, "1/250") {
        ShutterSpeed::Tv1_250th
    } else {
        ShutterSpeed::Tv1_15th
    }
}

/// Whether an ISO number is on the camera's table, so that `convert_iso` did not
/// fall back to its default.
pub fn is_known_iso(iso: u32) -> (r: bool)
    ensures
        r == (iso_of(iso) != IsoSpeed::Iso100 || iso == 100),
{
    convert_iso(iso) != IsoSpeed::Iso100 || iso == 100
}

/// Whether an f-number text is on the camera's table, so that `convert_av` did not
/// fall back to its default.
pub fn is_known_aperture(av_str: &str) -> (r: bool)
    ensures
        r == (aperture_of(av_str@) != ApertureValue::Av4_0 || av_str@ == "4.0"@),
{
    convert_av(av_str) != ApertureValue::Av4_0 || same_text(av_str, "4.0")
}

/// Whether a shutter text is on the camera's table, so that `convert_tv` did not
/// fall back to its default.
pub fn is_known_shutter(tv_str: &str) -> (r: bool)
    ensures
        r == (shutter_of(tv_str@) != ShutterSpeed::Tv1_15th || tv_str@ == "1/15"@),
{
    convert_tv(tv_str) != ShutterSpeed::Tv1_15th || same_text(tv_str, "1/15")
}

} // verus!
