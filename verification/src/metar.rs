//! The whole report: a fixed leading sequence, an order-independent middle
//! (sky state, temperature, pressure in any relative order), and a greedy
//! trailing chain of optional groups.

use vstd::prelude::*;

use crate::nato_mil_code::{scan_nato_mil_code, sp_nato_mil_code, NatoMilCode, SpecNatoMilCode};
use crate::obscuration::{
    deep_pws, scan_obscuration, scan_present_weather, sp_obscuration, sp_opt_space,
    sp_present_weather, Obscuration, PresentWeather, SpecObscuration, SpecPresentWeather,
};
use crate::optional_data::OptionalData;
use crate::pressure::{scan_pressure, sp_pressure, Pressure};
use crate::scan::{
    all_slashes, copy_range, has_tag, scan_slashes, scan_tag1, scan_tag2, scan_tag4, scan_tag5,
    skip_spaces, space_run_end,
};
use crate::sea_surface_indicator::{scan_sea_surface, sp_sea_surface, SeaSurfaceIndicator};
use crate::temperature::{scan_temperature, sp_temperature, TemperatureInfo};
use crate::trend::{scan_trend, sp_trend, SpecTrend, Trend};
use crate::units::{scan_timestamp, sp_timestamp, Timestamp};
use crate::wind::{scan_wind, sp_wind, Wind};

verus! {

/// One decoded report.
#[derive(Debug, Clone, PartialEq, Eq)]
pub struct Metar {
    pub raw: Vec<u8>,
    pub icao: Vec<u8>,
    pub timestamp: Timestamp,
    pub corrected: bool,
    pub auto: bool,
    pub wind: Wind,
    pub obscuration: Obscuration,
    pub temperature: TemperatureInfo,
    pub pressure: Pressure,
    pub recent_weather: Option<Vec<PresentWeather>>,
    pub nosig: bool,
    pub sea_surface_indicator: Option<SeaSurfaceIndicator>,
    pub tempo: Option<Trend>,
    pub becoming: Option<Trend>,
    pub nato_mil_code: Option<OptionalData<NatoMilCode>>,
    pub remarks: Option<Vec<u8>>,
}

/// Mathematical image of `Metar`.
pub struct SpecMetar {
    pub raw: Seq<u8>,
    pub icao: Seq<u8>,
    pub timestamp: Timestamp,
    pub corrected: bool,
    pub auto: bool,
    pub wind: Wind,
    pub obscuration: SpecObscuration,
    pub temperature: TemperatureInfo,
    pub pressure: Pressure,
    pub recent_weather: Option<Seq<SpecPresentWeather>>,
    pub nosig: bool,
    pub sea_surface_indicator: Option<SeaSurfaceIndicator>,
    pub tempo: Option<SpecTrend>,
    pub becoming: Option<SpecTrend>,
    pub nato_mil_code: Option<OptionalData<SpecNatoMilCode>>,
    pub remarks: Option<Seq<u8>>,
}

impl View for Metar {
    type V = SpecMetar;

    open spec fn view(&self) -> SpecMetar {
        SpecMetar {
            raw: self.raw@,
            icao: self.icao@,
            timestamp: self.timestamp,
            corrected: self.corrected,
            auto: self.auto,
            wind: self.wind,
            obscuration: self.obscuration@,
            temperature: self.temperature,
            pressure: self.pressure,
            recent_weather: match self.recent_weather {
                Some(ref v) => Some(deep_pws(v@)),
                None => None,
            },
            nosig: self.nosig,
            sea_surface_indicator: self.sea_surface_indicator,
            tempo: match self.tempo {
                Some(ref t) => Some(t@),
                None => None,
            },
            becoming: match self.becoming {
                Some(ref t) => Some(t@),
                None => None,
            },
            nato_mil_code: match self.nato_mil_code {
                Some(OptionalData::Data(ref c)) => Some(OptionalData::Data(c@)),
                Some(OptionalData::Undefined) => Some(OptionalData::Undefined),
                None => None,
            },
            remarks: match self.remarks {
                Some(ref v) => Some(v@),
                None => None,
            },
        }
    }
}

/// A rejected report, carrying the offending remainder of the line.
#[derive(Debug, Clone, PartialEq, Eq)]
pub struct DecodeError {
    pub remainder: Vec<u8>,
}

/// The sky-state part of the middle, preceded by one space.
pub open spec fn sp_part_obsc(s: Seq<u8>, i: int) -> Option<(SpecObscuration, int)>
    recommends
        0 <= i <= s.len(),
{
    if has_tag(s, i, seq![32u8]) {
        sp_obscuration(s, i + 1)
    } else {
        None
    }
}

/// The temperature part of the middle, preceded by at most one space.
pub open spec fn sp_part_temp(s: Seq<u8>, i: int) -> Option<(TemperatureInfo, int)> {
    sp_temperature(s, sp_opt_space(s, i))
}

/// The pressure part of the middle, preceded by one space.
pub open spec fn sp_part_pres(s: Seq<u8>, i: int) -> Option<(Pressure, int)> {
    if has_tag(s, i, seq![32u8]) {
        sp_pressure(s, i + 1)
    } else {
        None
    }
}

/// The middle parsed with the parts in one fixed order.
pub open spec fn sp_middle_otp(s: Seq<u8>, i: int) -> Option<
    ((SpecObscuration, TemperatureInfo, Pressure), int),
>
    recommends
        0 <= i <= s.len(),
{
    match sp_part_obsc(s, i) {
        None => None,
        Some((obsc, j1)) => match sp_part_temp(s, j1) {
            None => None,
            Some((temp, j2)) => match sp_part_pres(s, j2) {
                None => None,
                Some((pres, j3)) => Some(((obsc, temp, pres), j3)),
            },
        },
    }
}

/// The middle parsed with the parts in one fixed order.
pub open spec fn sp_middle_opt(s: Seq<u8>, i: int) -> Option<
    ((SpecObscuration, TemperatureInfo, Pressure), int),
>
    recommends
        0 <= i <= s.len(),
{
    match sp_part_obsc(s, i) {
        None => None,
        Some((obsc, j1)) => match sp_part_pres(s, j1) {
            None => None,
            Some((pres, j2)) => match sp_part_temp(s, j2) {
                None => None,
                Some((temp, j3)) => Some(((obsc, temp, pres), j3)),
            },
        },
    }
}

/// The middle parsed with the parts in one fixed order.
pub open spec fn sp_middle_top(s: Seq<u8>, i: int) -> Option<
    ((SpecObscuration, TemperatureInfo, Pressure), int),
>
    recommends
        0 <= i <= s.len(),
{
    match sp_part_temp(s, i) {
        None => None,
        Some((temp, j1)) => match sp_part_obsc(s, j1) {
            None => None,
            Some((obsc, j2)) => match sp_part_pres(s, j2) {
                None => None,
                Some((pres, j3)) => Some(((obsc, temp, pres), j3)),
            },
        },
    }
}

/// The middle parsed with the parts in one fixed order.
pub open spec fn sp_middle_tpo(s: Seq<u8>, i: int) -> Option<
    ((SpecObscuration, TemperatureInfo, Pressure), int),
>
    recommends
        0 <= i <= s.len(),
{
    match sp_part_temp(s, i) {
        None => None,
        Some((temp, j1)) => match sp_part_pres(s, j1) {
            None => None,
            Some((pres, j2)) => match sp_part_obsc(s, j2) {
                None => None,
                Some((obsc, j3)) => Some(((obsc, temp, pres), j3)),
            },
        },
    }
}

/// The middle parsed with the parts in one fixed order.
pub open spec fn sp_middle_pot(s: Seq<u8>, i: int) -> Option<
    ((SpecObscuration, TemperatureInfo, Pressure), int),
>
    recommends
        0 <= i <= s.len(),
{
    match sp_part_pres(s, i) {
        None => None,
        Some((pres, j1)) => match sp_part_obsc(s, j1) {
            None => None,
            Some((obsc, j2)) => match sp_part_temp(s, j2) {
                None => None,
                Some((temp, j3)) => Some(((obsc, temp, pres), j3)),
            },
        },
    }
}

/// The middle parsed with the parts in one fixed order.
pub open spec fn sp_middle_pto(s: Seq<u8>, i: int) -> Option<
    ((SpecObscuration, TemperatureInfo, Pressure), int),
>
    recommends
        0 <= i <= s.len(),
{
    match sp_part_pres(s, i) {
        None => None,
        Some((pres, j1)) => match sp_part_temp(s, j1) {
            None => None,
            Some((temp, j2)) => match sp_part_obsc(s, j2) {
                None => None,
                Some((obsc, j3)) => Some(((obsc, temp, pres), j3)),
            },
        },
    }
}

/// The order-independent middle: all six orderings of the three parts
/// are tried, and the first that parses wins.
pub open spec fn sp_middle(s: Seq<u8>, i: int) -> Option<
    ((SpecObscuration, TemperatureInfo, Pressure), int),
>
    recommends
        0 <= i <= s.len(),
{
    if sp_middle_otp(s, i) is Some {
        sp_middle_otp(s, i)
    } else if sp_middle_opt(s, i) is Some {
        sp_middle_opt(s, i)
    } else if sp_middle_top(s, i) is Some {
        sp_middle_top(s, i)
    } else if sp_middle_tpo(s, i) is Some {
        sp_middle_tpo(s, i)
    } else if sp_middle_pot(s, i) is Some {
        sp_middle_pot(s, i)
    } else {
        sp_middle_pto(s, i)
    }
}

fn scan_part_obsc(s: &[u8], i: usize) -> (r: Option<(Obscuration, usize)>)
    requires
        i <= s@.len(),
    ensures
        match (r, sp_part_obsc(s@, i as int)) {
            (Some((v, j)), Some((w, k))) => v@ == w && j as int == k && i <= j <= s@.len(),
            (None, None) => true,
            _ => false,
        },
{
    let slen = s.len();
    match scan_tag1(s, i, 32) {
        Some(j) => scan_obscuration(s, j),
        None => None,
    }
}

fn scan_part_temp(s: &[u8], i: usize) -> (r: Option<(TemperatureInfo, usize)>)
    requires
        i <= s@.len(),
    ensures
        match (r, sp_part_temp(s@, i as int)) {
            (Some((v, j)), Some((w, k))) => v == w && j as int == k && i <= j <= s@.len(),
            (None, None) => true,
            _ => false,
        },
{
    let slen = s.len();
    proof {
        assert(seq![32u8][0] == 32u8);
    }
    let p = if i < slen && s[i] == 32u8 {
        assert(has_tag(s@, i as int, seq![32u8]));
        i + 1
    } else {
        assert(!has_tag(s@, i as int, seq![32u8]));
        i
    };
    scan_temperature(s, p)
}

fn scan_part_pres(s: &[u8], i: usize) -> (r: Option<(Pressure, usize)>)
    requires
        i <= s@.len(),
    ensures
        match (r, sp_part_pres(s@, i as int)) {
            (Some((v, j)), Some((w, k))) => v == w && j as int == k && i <= j <= s@.len(),
            (None, None) => true,
            _ => false,
        },
{
    let slen = s.len();
    match scan_tag1(s, i, 32) {
        Some(j) => scan_pressure(s, j),
        None => None,
    }
}

fn scan_middle_otp(s: &[u8], i: usize) -> (r: Option<
    ((Obscuration, TemperatureInfo, Pressure), usize),
>)
    requires
        i <= s@.len(),
    ensures
        match (r, sp_middle_otp(s@, i as int)) {
            (Some((v, j)), Some((w, k))) => v.0@ == w.0 && v.1 == w.1 && v.2 == w.2 && j as int == k
                && i <= j <= s@.len(),
            (None, None) => true,
            _ => false,
        },
{
    let slen = s.len();
    match scan_part_obsc(s, i) {
        None => None,
        Some((obsc, j1)) => match scan_part_temp(s, j1) {
            None => None,
            Some((temp, j2)) => match scan_part_pres(s, j2) {
                None => None,
                Some((pres, j3)) => Some(((obsc, temp, pres), j3)),
            },
        },
    }
}

fn scan_middle_opt(s: &[u8], i: usize) -> (r: Option<
    ((Obscuration, TemperatureInfo, Pressure), usize),
>)
    requires
        i <= s@.len(),
    ensures
        match (r, sp_middle_opt(s@, i as int)) {
            (Some((v, j)), Some((w, k))) => v.0@ == w.0 && v.1 == w.1 && v.2 == w.2 && j as int == k
                && i <= j <= s@.len(),
            (None, None) => true,
            _ => false,
        },
{
    let slen = s.len();
    match scan_part_obsc(s, i) {
        None => None,
        Some((obsc, j1)) => match scan_part_pres(s, j1) {
            None => None,
            Some((pres, j2)) => match scan_part_temp(s, j2) {
                None => None,
                Some((temp, j3)) => Some(((obsc, temp, pres), j3)),
            },
        },
    }
}

fn scan_middle_top(s: &[u8], i: usize) -> (r: Option<
    ((Obscuration, TemperatureInfo, Pressure), usize),
>)
    requires
        i <= s@.len(),
    ensures
        match (r, sp_middle_top(s@, i as int)) {
            (Some((v, j)), Some((w, k))) => v.0@ == w.0 && v.1 == w.1 && v.2 == w.2 && j as int == k
                && i <= j <= s@.len(),
            (None, None) => true,
            _ => false,
        },
{
    let slen = s.len();
    match scan_part_temp(s, i) {
        None => None,
        Some((temp, j1)) => match scan_part_obsc(s, j1) {
            None => None,
            Some((obsc, j2)) => match scan_part_pres(s, j2) {
                None => None,
                Some((pres, j3)) => Some(((obsc, temp, pres), j3)),
            },
        },
    }
}

fn scan_middle_tpo(s: &[u8], i: usize) -> (r: Option<
    ((Obscuration, TemperatureInfo, Pressure), usize),
>)
    requires
        i <= s@.len(),
    ensures
        match (r, sp_middle_tpo(s@, i as int)) {
            (Some((v, j)), Some((w, k))) => v.0@ == w.0 && v.1 == w.1 && v.2 == w.2 && j as int == k
                && i <= j <= s@.len(),
            (None, None) => true,
            _ => false,
        },
{
    let slen = s.len();
    match scan_part_temp(s, i) {
        None => None,
        Some((temp, j1)) => match scan_part_pres(s, j1) {
            None => None,
            Some((pres, j2)) => match scan_part_obsc(s, j2) {
                None => None,
                Some((obsc, j3)) => Some(((obsc, temp, pres), j3)),
            },
        },
    }
}

fn scan_middle_pot(s: &[u8], i: usize) -> (r: Option<
    ((Obscuration, TemperatureInfo, Pressure), usize),
>)
    requires
        i <= s@.len(),
    ensures
        match (r, sp_middle_pot(s@, i as int)) {
            (Some((v, j)), Some((w, k))) => v.0@ == w.0 && v.1 == w.1 && v.2 == w.2 && j as int == k
                && i <= j <= s@.len(),
            (None, None) => true,
            _ => false,
        },
{
    let slen = s.len();
    match scan_part_pres(s, i) {
        None => None,
        Some((pres, j1)) => match scan_part_obsc(s, j1) {
            None => None,
            Some((obsc, j2)) => match scan_part_temp(s, j2) {
                None => None,
                Some((temp, j3)) => Some(((obsc, temp, pres), j3)),
            },
        },
    }
}

fn scan_middle_pto(s: &[u8], i: usize) -> (r: Option<
    ((Obscuration, TemperatureInfo, Pressure), usize),
>)
    requires
        i <= s@.len(),
    ensures
        match (r, sp_middle_pto(s@, i as int)) {
            (Some((v, j)), Some((w, k))) => v.0@ == w.0 && v.1 == w.1 && v.2 == w.2 && j as int == k
                && i <= j <= s@.len(),
            (None, None) => true,
            _ => false,
        },
{
    let slen = s.len();
    match scan_part_pres(s, i) {
        None => None,
        Some((pres, j1)) => match scan_part_temp(s, j1) {
            None => None,
            Some((temp, j2)) => match scan_part_obsc(s, j2) {
                None => None,
                Some((obsc, j3)) => Some(((obsc, temp, pres), j3)),
            },
        },
    }
}

/// Scans the order-independent middle at position `i`: the first of the
/// six orderings that parses wins.
pub fn scan_middle(s: &[u8], i: usize) -> (r: Option<
    ((Obscuration, TemperatureInfo, Pressure), usize),
>)
    requires
        i <= s@.len(),
    ensures
        match (r, sp_middle(s@, i as int)) {
            (Some((v, j)), Some((w, k))) => v.0@ == w.0 && v.1 == w.1 && v.2 == w.2 && j as int == k
                && i <= j <= s@.len(),
            (None, None) => true,
            _ => false,
        },
{
    if let Some(r) = scan_middle_otp(s, i) {
        return Some(r);
    }
    if let Some(r) = scan_middle_opt(s, i) {
        return Some(r);
    }
    if let Some(r) = scan_middle_top(s, i) {
        return Some(r);
    }
    if let Some(r) = scan_middle_tpo(s, i) {
        return Some(r);
    }
    if let Some(r) = scan_middle_pot(s, i) {
        return Some(r);
    }
    scan_middle_pto(s, i)
}

/// One recent-weather item: `RE` followed by a present-weather group.
pub open spec fn sp_recent_item(s: Seq<u8>, i: int) -> Option<(SpecPresentWeather, int)>
    recommends
        0 <= i <= s.len(),
{
    if has_tag(s, i, seq![82u8, 69u8]) {
        sp_present_weather(s, i + 2)
    } else {
        None
    }
}

/// Further recent-weather items, each preceded by at most one space.
pub open spec fn sp_recent_rest(s: Seq<u8>, i: int) -> (Seq<SpecPresentWeather>, int)
    decreases s.len() - i when 0 <= i <= s.len()
{
    let p = sp_opt_space(s, i);
    match sp_recent_item(s, p) {
        Some((v, j)) => if p < j <= s.len() {
            let (rest, k) = sp_recent_rest(s, j);
            (seq![v] + rest, k)
        } else {
            (seq![v], j)
        },
        None => (Seq::empty(), i),
    }
}

/// The recent-weather groups after the middle, or nothing.
pub open spec fn sp_recent(s: Seq<u8>, i: int) -> (Option<Seq<SpecPresentWeather>>, int)
    recommends
        0 <= i <= s.len(),
{
    let p = space_run_end(s, i);
    match sp_recent_item(s, p) {
        Some((v, j)) => if p < j <= s.len() {
            let (rest, k) = sp_recent_rest(s, j);
            (Some(seq![v] + rest), k)
        } else {
            (Some(seq![v]), j)
        },
        None => (None, i),
    }
}

/// The optional sea-surface group.
pub open spec fn sp_opt_sea(s: Seq<u8>, i: int) -> (Option<SeaSurfaceIndicator>, int) {
    match sp_sea_surface(s, space_run_end(s, i)) {
        Some((v, j)) => (Some(v), j),
        None => (None, i),
    }
}

/// The optional colour-code group, possibly reported as three slashes.
pub open spec fn sp_opt_nato(s: Seq<u8>, i: int) -> (Option<OptionalData<SpecNatoMilCode>>, int)
    recommends
        0 <= i <= s.len(),
{
    let p = space_run_end(s, i);
    if all_slashes(s, p, 3) {
        (Some(OptionalData::Undefined), p + 3)
    } else {
        match sp_nato_mil_code(s, p) {
            Some((v, j)) => (Some(OptionalData::Data(v)), j),
            None => (None, i),
        }
    }
}

/// The optional `NOSIG` mark.
pub open spec fn sp_opt_nosig(s: Seq<u8>, i: int) -> (bool, int) {
    let p = space_run_end(s, i);
    if has_tag(s, p, seq![78u8, 79u8, 83u8, 73u8, 71u8]) {
        (true, p + 5)
    } else {
        (false, i)
    }
}

/// An optional trend block introduced by the given five-letter word.
pub open spec fn sp_opt_trend(s: Seq<u8>, i: int, word: Seq<u8>) -> (Option<SpecTrend>, int)
    recommends
        0 <= i <= s.len(),
{
    let p = space_run_end(s, i);
    if has_tag(s, p, word) {
        let (t, j) = sp_trend(s, p + word.len());
        (Some(t), j)
    } else {
        (None, i)
    }
}

/// The optional remarks: `RMK ` and the non-empty rest of the line, taken
/// verbatim.
pub open spec fn sp_opt_remarks(s: Seq<u8>, i: int) -> (Option<Seq<u8>>, int) {
    let p = space_run_end(s, i);
    if has_tag(s, p, seq![82u8, 77u8, 75u8, 32u8]) && p + 4 < s.len() {
        (Some(s.subrange(p + 4, s.len() as int)), s.len() as int)
    } else {
        (None, i)
    }
}

/// The greedy trailing chain of optional groups after the middle: recent
/// weather, sea surface, colour codes, `NOSIG`, the two trend blocks and
/// the remarks.
pub open spec fn sp_trailing(s: Seq<u8>, i: int) -> (
    (
        Option<Seq<SpecPresentWeather>>,
        Option<SeaSurfaceIndicator>,
        Option<OptionalData<SpecNatoMilCode>>,
        bool,
        Option<SpecTrend>,
        Option<SpecTrend>,
        Option<Seq<u8>>,
    ),
    int,
)
    recommends
        0 <= i <= s.len(),
{
    let (recent_weather, j6) = sp_recent(s, i);
    let (sea_surface_indicator, j7) = sp_opt_sea(s, j6);
    let (nato_mil_code, j8) = sp_opt_nato(s, j7);
    let (nosig, j9) = sp_opt_nosig(s, j8);
    let (becoming, j10) = sp_opt_trend(s, j9, seq![66u8, 69u8, 67u8, 77u8, 71u8]);
    let (tempo, j11) = sp_opt_trend(s, j10, seq![84u8, 69u8, 77u8, 80u8, 79u8]);
    let (remarks, j12) = sp_opt_remarks(s, j11);
    (
        (recent_weather, sea_surface_indicator, nato_mil_code, nosig, becoming, tempo, remarks),
        j12,
    )
}

/// The fixed leading part of a report: station, timestamp, flags, wind,
/// and the order-independent middle.
pub open spec fn sp_metar_head(s: Seq<u8>) -> Option<
    (
        (Seq<u8>, Timestamp, bool, bool, Wind, SpecObscuration, TemperatureInfo, Pressure),
        int,
    ),
> {
    if s.len() < 4 {
        None
    } else if !has_tag(s, 4, seq![32u8]) {
        None
    } else {
        match sp_timestamp(s, 5) {
            None => None,
            Some((timestamp, j1)) => {
                let (corrected, j2) = if has_tag(s, j1, seq![32u8, 67u8, 79u8, 82u8]) {
                    (true, j1 + 4)
                } else {
                    (false, j1)
                };
                let (auto, j3) = if has_tag(s, j2, seq![32u8, 65u8, 85u8, 84u8, 79u8]) {
                    (true, j2 + 5)
                } else {
                    (false, j2)
                };
                if !has_tag(s, j3, seq![32u8]) {
                    None
                } else {
                    match sp_wind(s, j3 + 1) {
                        None => None,
                        Some((wind, j4)) => match sp_middle(s, j4) {
                            None => None,
                            Some(((obscuration, temperature, pressure), j5)) => Some(
                                (
                                    (
                                        s.subrange(0, 4),
                                        timestamp,
                                        corrected,
                                        auto,
                                        wind,
                                        obscuration,
                                        temperature,
                                        pressure,
                                    ),
                                    j5,
                                ),
                            ),
                        },
                    }
                }
            },
        }
    }
}

/// The whole report: the fixed leading part followed by the greedy
/// trailing chain of optional groups.
pub open spec fn sp_metar(s: Seq<u8>) -> Option<(SpecMetar, int)> {
    match sp_metar_head(s) {
        None => None,
        Some(((icao, timestamp, corrected, auto, wind, obscuration, temperature, pressure), j5)) => {
            let (
                (recent_weather, sea_surface_indicator, nato_mil_code, nosig, becoming, tempo, remarks),
                j12,
            ) = sp_trailing(s, j5);
            Some(
                (
                    SpecMetar {
                        raw: s,
                        icao,
                        timestamp,
                        corrected,
                        auto,
                        wind,
                        obscuration,
                        temperature,
                        pressure,
                        recent_weather,
                        nosig,
                        sea_surface_indicator,
                        tempo,
                        becoming,
                        nato_mil_code,
                        remarks,
                    },
                    j12,
                ),
            )
        },
    }
}

/// What decoding one line yields: the report when the whole line is
/// consumed, otherwise the offending remainder (the whole line when even
/// the mandatory leading groups do not match).
pub open spec fn sp_decode(s: Seq<u8>) -> Result<SpecMetar, Seq<u8>> {
    match sp_metar(s) {
        Some((m, j)) => if j == s.len() {
            Ok(m)
        } else if 0 <= j <= s.len() {
            Err(s.subrange(j, s.len() as int))
        } else {
            Err(s)
        },
        None => Err(s),
    }
}

fn scan_recent(s: &[u8], i: usize) -> (r: (Option<Vec<PresentWeather>>, usize))
    requires
        i <= s@.len(),
    ensures
        ({
            let (w, k) = sp_recent(s@, i as int);
            &&& match (r.0, w) {
                (Some(v), Some(ws)) => deep_pws(v@) =~= ws,
                (None, None) => true,
                _ => false,
            }
            &&& r.1 as int == k
            &&& i <= r.1 <= s@.len()
        }),
{
    let slen = s.len();
    let p = skip_spaces(s, i);
    let first = scan_recent_item(s, p);
    let (v0, j0) = match first {
        Some(r) => r,
        None => {
            return (None, i);
        },
    };
    let mut acc: Vec<PresentWeather> = Vec::new();
    proof {
        assert(deep_pws(acc@.push(v0)) =~= deep_pws(acc@).push(v0@));
    }
    acc.push(v0);
    if j0 <= p {
        // a recent-weather item always consumes input
        assert(sp_recent(s@, i as int).0 =~= Some(seq![v0@]));
        return (Some(acc), j0);
    }
    let mut cur = j0;
    loop
        invariant
            i <= cur <= s@.len(),
            acc@.len() >= 1,
            sp_recent(s@, i as int).0 matches Some(all) && all =~= deep_pws(acc@) + sp_recent_rest(
                s@,
                cur as int,
            ).0,
            sp_recent(s@, i as int).1 == sp_recent_rest(s@, cur as int).1,
        decreases s@.len() - cur,
    {
        let p2 = opt_space_metar(s, cur);
        match scan_recent_item(s, p2) {
            Some((v, j)) => {
                proof {
                    assert(deep_pws(acc@.push(v)) =~= deep_pws(acc@).push(v@));
                }
                if j <= p2 {
                    acc.push(v);
                    assert(sp_recent_rest(s@, cur as int).0 =~= seq![v@]);
                    return (Some(acc), j);
                }
                acc.push(v);
                assert((sp_recent(s@, i as int).0)->0 =~= deep_pws(acc@) + sp_recent_rest(
                    s@,
                    j as int,
                ).0);
                cur = j;
            },
            None => {
                assert(sp_recent_rest(s@, cur as int).0 =~= Seq::<SpecPresentWeather>::empty());
                return (Some(acc), cur);
            },
        }
    }
}

fn scan_recent_item(s: &[u8], i: usize) -> (r: Option<(PresentWeather, usize)>)
    requires
        i <= s@.len(),
    ensures
        match (r, sp_recent_item(s@, i as int)) {
            (Some((v, j)), Some((w, k))) => v@ == w && j as int == k && i <= j <= s@.len(),
            (None, None) => true,
            _ => false,
        },
{
    let slen = s.len();
    match scan_tag2(s, i, 82, 69) {
        Some(j) => scan_present_weather(s, j),
        None => None,
    }
}

fn opt_space_metar(s: &[u8], i: usize) -> (p: usize)
    requires
        i <= s@.len(),
    ensures
        p as int == sp_opt_space(s@, i as int),
        i <= p <= s@.len(),
{
    let slen = s.len();
    proof {
        assert(seq![32u8][0] == 32u8);
    }
    if i < slen && s[i] == 32u8 {
        assert(has_tag(s@, i as int, seq![32u8]));
        i + 1
    } else {
        assert(!has_tag(s@, i as int, seq![32u8]));
        i
    }
}

fn scan_opt_sea(s: &[u8], i: usize) -> (r: (Option<SeaSurfaceIndicator>, usize))
    requires
        i <= s@.len(),
    ensures
        r.0 == sp_opt_sea(s@, i as int).0,
        r.1 as int == sp_opt_sea(s@, i as int).1,
        i <= r.1 <= s@.len(),
{
    let slen = s.len();
    match scan_sea_surface(s, skip_spaces(s, i)) {
        Some((v, j)) => (Some(v), j),
        None => (None, i),
    }
}

fn scan_opt_nato(s: &[u8], i: usize) -> (r: (Option<OptionalData<NatoMilCode>>, usize))
    requires
        i <= s@.len(),
    ensures
        ({
            let (w, k) = sp_opt_nato(s@, i as int);
            &&& match (r.0, w) {
                (Some(OptionalData::Data(v)), Some(OptionalData::Data(ws))) => v@ == ws,
                (Some(OptionalData::Undefined), Some(OptionalData::Undefined)) => true,
                (None, None) => true,
                _ => false,
            }
            &&& r.1 as int == k
            &&& i <= r.1 <= s@.len()
        }),
{
    let slen = s.len();
    let p = skip_spaces(s, i);
    if scan_slashes(s, p, 3) {
        (Some(OptionalData::Undefined), p + 3)
    } else {
        match scan_nato_mil_code(s, p) {
            Some((v, j)) => (Some(OptionalData::Data(v)), j),
            None => (None, i),
        }
    }
}

fn scan_opt_nosig(s: &[u8], i: usize) -> (r: (bool, usize))
    requires
        i <= s@.len(),
    ensures
        r.0 == sp_opt_nosig(s@, i as int).0,
        r.1 as int == sp_opt_nosig(s@, i as int).1,
        i <= r.1 <= s@.len(),
{
    let slen = s.len();
    match scan_tag5(s, skip_spaces(s, i), 78, 79, 83, 73, 71) {
        Some(j) => (true, j),
        None => (false, i),
    }
}

fn scan_opt_becoming(s: &[u8], i: usize) -> (r: (Option<Trend>, usize))
    requires
        i <= s@.len(),
    ensures
        ({
            let (w, k) = sp_opt_trend(s@, i as int, seq![66u8, 69u8, 67u8, 77u8, 71u8]);
            &&& match (r.0, w) {
                (Some(v), Some(ws)) => v@ == ws,
                (None, None) => true,
                _ => false,
            }
            &&& r.1 as int == k
            &&& i <= r.1 <= s@.len()
        }),
{
    let slen = s.len();
    match scan_tag5(s, skip_spaces(s, i), 66, 69, 67, 77, 71) {
        Some(j) => {
            let (t, k) = scan_trend(s, j);
            (Some(t), k)
        },
        None => (None, i),
    }
}

fn scan_opt_tempo(s: &[u8], i: usize) -> (r: (Option<Trend>, usize))
    requires
        i <= s@.len(),
    ensures
        ({
            let (w, k) = sp_opt_trend(s@, i as int, seq![84u8, 69u8, 77u8, 80u8, 79u8]);
            &&& match (r.0, w) {
                (Some(v), Some(ws)) => v@ == ws,
                (None, None) => true,
                _ => false,
            }
            &&& r.1 as int == k
            &&& i <= r.1 <= s@.len()
        }),
{
    let slen = s.len();
    match scan_tag5(s, skip_spaces(s, i), 84, 69, 77, 80, 79) {
        Some(j) => {
            let (t, k) = scan_trend(s, j);
            (Some(t), k)
        },
        None => (None, i),
    }
}

fn scan_opt_remarks(s: &[u8], i: usize) -> (r: (Option<Vec<u8>>, usize))
    requires
        i <= s@.len(),
    ensures
        ({
            let (w, k) = sp_opt_remarks(s@, i as int);
            &&& match (r.0, w) {
                (Some(v), Some(ws)) => v@ =~= ws,
                (None, None) => true,
                _ => false,
            }
            &&& r.1 as int == k
            &&& i <= r.1 <= s@.len()
        }),
{
    let slen = s.len();
    let p = skip_spaces(s, i);
    match scan_tag4(s, p, 82, 77, 75, 32) {
        Some(j) => {
            if j < slen {
                (Some(copy_range(s, j, slen)), slen)
            } else {
                (None, i)
            }
        },
        None => (None, i),
    }
}

/// Scans the greedy trailing chain of optional groups at position `i`./// Scans the greedy trailing chain of optional groups at position `i`.
fn scan_trailing(s: &[u8], i: usize) -> (r: (
    (
        Option<Vec<PresentWeather>>,
        Option<SeaSurfaceIndicator>,
        Option<OptionalData<NatoMilCode>>,
        bool,
        Option<Trend>,
        Option<Trend>,
        Option<Vec<u8>>,
    ),
    usize,
))
    requires
        i <= s@.len(),
    ensures
        ({
            let ((rw, sea, nato, nosig, bec, tem, rem), k) = sp_trailing(s@, i as int);
            &&& match (r.0.0, rw) {
                (Some(v), Some(w)) => deep_pws(v@) =~= w,
                (None, None) => true,
                _ => false,
            }
            &&& r.0.1 == sea
            &&& match (r.0.2, nato) {
                (Some(OptionalData::Data(v)), Some(OptionalData::Data(w))) => v@ == w,
                (Some(OptionalData::Undefined), Some(OptionalData::Undefined)) => true,
                (None, None) => true,
                _ => false,
            }
            &&& r.0.3 == nosig
            &&& match (r.0.4, bec) {
                (Some(v), Some(w)) => v@ == w,
                (None, None) => true,
                _ => false,
            }
            &&& match (r.0.5, tem) {
                (Some(v), Some(w)) => v@ == w,
                (None, None) => true,
                _ => false,
            }
            &&& match (r.0.6, rem) {
                (Some(v), Some(w)) => v@ =~= w,
                (None, None) => true,
                _ => false,
            }
            &&& r.1 as int == k
            &&& i <= r.1 <= s@.len()
        }),
{
    let slen = s.len();
    let (recent_weather, j6) = scan_recent(s, i);
    let (sea_surface_indicator, j7) = scan_opt_sea(s, j6);
    let (nato_mil_code, j8) = scan_opt_nato(s, j7);
    let (nosig, j9) = scan_opt_nosig(s, j8);
    let (becoming, j10) = scan_opt_becoming(s, j9);
    let (tempo, j11) = scan_opt_tempo(s, j10);
    let (remarks, j12) = scan_opt_remarks(s, j11);
    (
        (recent_weather, sea_surface_indicator, nato_mil_code, nosig, becoming, tempo, remarks),
        j12,
    )
}

fn scan_metar_head(s: &[u8]) -> (r: Option<
    ((Vec<u8>, Timestamp, bool, bool, Wind, Obscuration, TemperatureInfo, Pressure), usize),
>)
    ensures
        match (r, sp_metar_head(s@)) {
            (Some((v, j)), Some((w, k))) => v.0@ =~= w.0 && v.1 == w.1 && v.2 == w.2 && v.3 == w.3
                && v.4 == w.4 && v.5@ == w.5 && v.6 == w.6 && v.7 == w.7 && j as int == k && j
                <= s@.len(),
            (None, None) => true,
            _ => false,
        },
{
    let slen = s.len();
    if slen < 4 {
        return None;
    }
    let icao = copy_range(s, 0, 4);
    if scan_tag1(s, 4, 32).is_none() {
        return None;
    }
    let (timestamp, j1) = match scan_timestamp(s, 5) {
        Some(r) => r,
        None => {
            return None;
        },
    };
    let (corrected, j2): (bool, usize) = match scan_tag4(s, j1, 32, 67, 79, 82) {
        Some(j) => (true, j),
        None => (false, j1),
    };
    let (auto, j3): (bool, usize) = match scan_tag5(s, j2, 32, 65, 85, 84, 79) {
        Some(j) => (true, j),
        None => (false, j2),
    };
    let j3s = match scan_tag1(s, j3, 32) {
        Some(j) => j,
        None => {
            return None;
        },
    };
    let (wind, j4) = match scan_wind(s, j3s) {
        Some(r) => r,
        None => {
            return None;
        },
    };
    let ((obscuration, temperature, pressure), j5) = match scan_middle(s, j4) {
        Some(r) => r,
        None => {
            return None;
        },
    };
    Some(((icao, timestamp, corrected, auto, wind, obscuration, temperature, pressure), j5))
}

/// Scans a whole report from the beginning of the line.
pub fn scan_metar(s: &[u8]) -> (r: Option<(Metar, usize)>)
    ensures
        match (r, sp_metar(s@)) {
            (Some((v, j)), Some((w, k))) => v@ == w && j as int == k && j <= s@.len(),
            (None, None) => true,
            _ => false,
        },
{
    let slen = s.len();
    let ((icao, timestamp, corrected, auto, wind, obscuration, temperature, pressure), j5) =
        match scan_metar_head(s) {
        Some(r) => r,
        None => {
            return None;
        },
    };
    let ((recent_weather, sea_surface_indicator, nato_mil_code, nosig, becoming, tempo, remarks),
        j12) = scan_trailing(s, j5);
    let raw = copy_range(s, 0, slen);
    let m = Metar {
        raw,
        icao,
        timestamp,
        corrected,
        auto,
        wind,
        obscuration,
        temperature,
        pressure,
        recent_weather,
        nosig,
        sea_surface_indicator,
        tempo,
        becoming,
        nato_mil_code,
        remarks,
    };
    assert(m@.raw =~= s@);
    assert(m@ == (sp_metar(s@)->0).0);
    Some((m, j12))
}

impl Metar {
    /// Decodes one report line. The whole line must be consumed: trailing
    /// text that no group recognizes is returned as the offending
    /// remainder, and a line whose mandatory leading groups do not match is
    /// returned whole.
    pub fn parse(line: &[u8]) -> (r: Result<Metar, DecodeError>)
        ensures
            match (r, sp_decode(line@)) {
                (Ok(m), Ok(sm)) => m@ == sm,
                (Err(e), Err(se)) => e.remainder@ == se,
                _ => false,
            },
    {
        let slen = line.len();
        match scan_metar(line) {
            Some((m, j)) => {
                if j == slen {
                    Ok(m)
                } else {
                    Err(DecodeError { remainder: copy_range(line, j, slen) })
                }
            },
            None => Err(DecodeError { remainder: copy_range(line, 0, slen) }),
        }
    }
}

} // verus!
