//! Per-airport runway selection.
//!
//! The general policy compares the headwind on the two ends of an airport's
//! single runway pair. Two airports carry hand-written policies: one with a
//! time-of-day and weather-minima mode machine over parallel runways, and
//! one with a comparative-crosswind fallback between two crossing pairs.
//! The wall-clock time is injected as a plain value so every branch of the
//! mode machine is checkable.

use vstd::prelude::*;

use crate::metar::Metar;
use crate::obscuration::{
    Cloud, CloudCoverage, Obscuration, PresentWeather, Qualifier, VisibilityUnit,
    WeatherPhenomenon,
};
use crate::optional_data::OptionalData;
use crate::projection::{
    calculate_max_crosswind, calculate_max_headwind, spec_max_crosswind, spec_max_headwind,
};
use crate::runway::{Runway, RunwayUse};
use crate::usage_map::{lemma_find_key_singleton, new_usage_map, usage_entries, usage_insert, UsageMap};

verus! {

/// Where a runway-in-use selection came from, strongest first.
#[derive(Debug, Clone, Copy, PartialEq, Eq, PartialOrd, Ord, Hash, Structural)]
pub enum RunwayInUseSource {
    Atis,
    Metar,
    Default,
}

impl RunwayInUseSource {
    /// The precedence order of selection sources, strongest first.
    pub fn default_sort_order() -> (r: [RunwayInUseSource; 3])
        ensures
            r@ =~= seq![
                RunwayInUseSource::Atis,
                RunwayInUseSource::Metar,
                RunwayInUseSource::Default,
            ],
    {
        [RunwayInUseSource::Atis, RunwayInUseSource::Metar, RunwayInUseSource::Default]
    }
}

/// One selection per source that produced one; precedence is applied when
/// the effective selection is read.
pub struct RunwaysInUse {
    pub atis: Option<UsageMap>,
    pub metar: Option<UsageMap>,
    pub fallback: Option<UsageMap>,
}

/// One airport: its station identifier, latest decoded report if any, its
/// runway geometry, and the selections gathered this cycle.
pub struct Airport {
    pub icao: Vec<u8>,
    pub metar: Option<Metar>,
    pub runways: Vec<Runway>,
    pub runways_in_use: RunwaysInUse,
}

/// A typed policy failure.
#[derive(Debug, Clone, Copy, PartialEq, Eq, Structural)]
pub enum PolicyError {
    /// Wind data gave no confident pick for a single-pair airport.
    NoRunwayToSet,
    /// The airport's runway layout has no policy.
    UnsupportedAirportConfiguration,
    /// The mode machine derived a runway number it has no runway for.
    InvalidEngmRunway,
}

/// Wall-clock local time in the policy's fixed civil time zone.
#[derive(Debug, Clone, Copy, PartialEq, Eq, Structural)]
pub struct LocalTime {
    pub hour: u8,
    pub minute: u8,
}

/// Operating mode of the parallel-runway policy.
#[derive(Debug, Clone, Copy, PartialEq, Eq, Structural)]
pub enum EngmModes {
    Mixed,
    Segregated,
    Single,
}

/// The wind-based pick for one runway pair: the end with the strictly
/// larger headwind when the two differ by more than two speed units,
/// otherwise no pick. A pair with an unresolvable headwind on either end
/// gives no pick, and an airport without a report gives none either.
pub open spec fn spec_internal_selection(a: Airport, idx: int) -> Option<(Seq<u8>, RunwayUse)>
    recommends
        0 <= idx < a.runways@.len(),
{
    match a.metar {
        None => None,
        Some(m) => {
            let pair = a.runways@[idx];
            let h0 = spec_max_headwind((pair.runways@[0].degrees as int) % 360, m.wind);
            let h1 = spec_max_headwind((pair.runways@[1].degrees as int) % 360, m.wind);
            match (h0, h1) {
                (Some(x), Some(y)) => if x - y > 2 {
                    Some((pair.runways@[0].identifier@, RunwayUse::Both))
                } else if y - x > 2 {
                    Some((pair.runways@[1].identifier@, RunwayUse::Both))
                } else {
                    None
                },
                _ => None,
            }
        },
    }
}

impl Airport {
    /// Applies the general single-pair policy to the pair at `runway_index`.
    pub fn internal_set_runway_based_on_metar_wind(&self, runway_index: usize) -> (r: Option<
        UsageMap,
    >)
        requires
            runway_index < self.runways@.len(),
        ensures
            match (r, spec_internal_selection(*self, runway_index as int)) {
                (Some(m), Some(sel)) => usage_entries(m) =~= seq![sel],
                (None, None) => true,
                _ => false,
            },
    {
        let metar = match &self.metar {
            Some(m) => m,
            None => {
                return None;
            },
        };
        let pair = &self.runways[runway_index];
        let h0 = calculate_max_headwind(&pair.runways[0], &metar.wind);
        let h1 = calculate_max_headwind(&pair.runways[1], &metar.wind);
        match (h0, h1) {
            (Some(x), Some(y)) => {
                if x - y > 2 {
                    let mut m = new_usage_map();
                    usage_insert(&mut m, clone_bytes(&pair.runways[0].identifier), RunwayUse::Both);
                    Some(m)
                } else if y - x > 2 {
                    let mut m = new_usage_map();
                    usage_insert(&mut m, clone_bytes(&pair.runways[1].identifier), RunwayUse::Both);
                    Some(m)
                } else {
                    None
                }
            },
            _ => None,
        }
    }
}

/// Copies a byte string.
pub fn clone_bytes(v: &Vec<u8>) -> (r: Vec<u8>)
    ensures
        r@ =~= v@,
{
    let mut r: Vec<u8> = Vec::new();
    let mut k: usize = 0;
    while k < v.len()
        invariant
            0 <= k <= v@.len(),
            r@ =~= v@.subrange(0, k as int),
        decreases v@.len() - k,
    {
        r.push(v[k]);
        assert(r@ =~= v@.subrange(0, (k + 1) as int));
        k = k + 1;
    }
    assert(r@ =~= v@);
    r
}

/// Whether two byte strings hold the same bytes.
pub fn bytes_eq(a: &[u8], b: &[u8]) -> (r: bool)
    ensures
        r == (a@ =~= b@),
{
    if a.len() != b.len() {
        return false;
    }
    let mut k: usize = 0;
    while k < a.len()
        invariant
            0 <= k <= a@.len(),
            a@.len() == b@.len(),
            forall|m: int| 0 <= m < k ==> a@[m] == b@[m],
        decreases a@.len() - k,
    {
        if a[k] != b[k] {
            return false;
        }
        k = k + 1;
    }
    true
}

/// Whether one cloud entry meets the low-ceiling condition: a layer of
/// broken or overcast coverage (an unreadable coverage conservatively
/// counts) whose base is below five hundred feet (an unreadable height
/// conservatively counts).
pub open spec fn spec_cloud_lvp(c: Cloud) -> bool {
    match c {
        Cloud::CloudData(cd) => {
            let cov = match cd.coverage {
                OptionalData::Undefined => true,
                OptionalData::Data(CloudCoverage::Broken) => true,
                OptionalData::Data(CloudCoverage::Overcast) => true,
                _ => false,
            };
            let low = match cd.height {
                OptionalData::Undefined => true,
                OptionalData::Data(h) => h.height * 100 < 500,
            };
            cov && low
        },
        _ => false,
    }
}

/// Whether any cloud entry of a list meets the low-ceiling condition.
pub open spec fn spec_clouds_lvp(cs: Seq<Cloud>) -> bool {
    exists|i: int| 0 <= i < cs.len() && spec_cloud_lvp(#[trigger] cs[i])
}

/// A ceiling below five hundred feet is reported.
pub open spec fn spec_ceiling_for_lvp(m: Metar) -> bool {
    match m.obscuration {
        Obscuration::Described(d) => spec_clouds_lvp(d.clouds@),
        Obscuration::Cavok => false,
    }
}

/// Whether one runway visual range group counts: a value below one
/// thousand, or an unreadable one.
pub open spec fn spec_rvr_counts(value: OptionalData<u32>) -> bool {
    match value {
        OptionalData::Undefined => true,
        OptionalData::Data(v) => v < 1000,
    }
}

/// Whether any entry of a runway-visual-range list counts.
pub open spec fn spec_rvrs_count(rs: Seq<crate::obscuration::Rvr>) -> bool {
    exists|i: int| 0 <= i < rs.len() && spec_rvr_counts((#[trigger] rs[i]).value)
}

/// A runway visual range below one thousand (or unreadable) is reported.
pub open spec fn spec_rvr_reported(m: Metar) -> bool {
    match m.obscuration {
        Obscuration::Described(d) => spec_rvrs_count(d.rvr@),
        Obscuration::Cavok => false,
    }
}

/// The visibility is metric and below five thousand meters (an unreadable
/// metric visibility conservatively counts).
pub open spec fn spec_visibility_below_5000(m: Metar) -> bool {
    match m.obscuration {
        Obscuration::Described(d) => match d.visibility.value {
            VisibilityUnit::Meters(OptionalData::Undefined) => true,
            VisibilityUnit::Meters(OptionalData::Data(v)) => v < 5000,
            _ => false,
        },
        Obscuration::Cavok => false,
    }
}

/// A vertical visibility group is reported.
pub open spec fn spec_reported_vv(m: Metar) -> bool {
    match m.obscuration {
        Obscuration::Described(d) => d.vertical_visibility is Some,
        Obscuration::Cavok => false,
    }
}

/// Whether any present-weather group of a list carries the freezing
/// descriptor.
pub open spec fn spec_pws_freezing(ps: Seq<PresentWeather>) -> bool {
    exists|i: int| 0 <= i < ps.len() && (#[trigger] ps[i]).descriptor == Some(Qualifier::Freezing)
}

/// A present-weather group carries the freezing descriptor.
pub open spec fn spec_freezing_reported(m: Metar) -> bool {
    match m.obscuration {
        Obscuration::Described(d) => spec_pws_freezing(d.present_weather@),
        Obscuration::Cavok => false,
    }
}

/// Whether one phenomenon is precipitation that can require de-icing.
pub open spec fn spec_phen_precip(p: WeatherPhenomenon) -> bool {
    match p {
        WeatherPhenomenon::DZ => true,
        WeatherPhenomenon::RA => true,
        WeatherPhenomenon::SN => true,
        WeatherPhenomenon::SG => true,
        WeatherPhenomenon::PL => true,
        WeatherPhenomenon::GR => true,
        WeatherPhenomenon::GS => true,
        WeatherPhenomenon::UP => true,
        _ => false,
    }
}

/// A present-weather group carries a de-icing-relevant phenomenon.
pub open spec fn spec_pw_precip(pw: PresentWeather) -> bool {
    exists|k: int| 0 <= k < pw.phenomena@.len() && spec_phen_precip(#[trigger] pw.phenomena@[k])
}

/// Whether any present-weather group of a list carries precipitation.
pub open spec fn spec_pws_precip(ps: Seq<PresentWeather>) -> bool {
    exists|i: int| 0 <= i < ps.len() && spec_pw_precip(#[trigger] ps[i])
}

/// De-icing weather combined with a cold temperature: precipitation is
/// reported and the temperature is below five degrees (an unreadable
/// temperature conservatively counts).
pub open spec fn spec_deicing_cold(m: Metar) -> bool {
    let cold = match m.temperature.temp {
        OptionalData::Undefined => true,
        OptionalData::Data(t) => t < 5,
    };
    let precip = match m.obscuration {
        Obscuration::Described(d) => spec_pws_precip(d.present_weather@),
        Obscuration::Cavok => false,
    };
    cold && precip
}

/// Any of the weather minima that force segregated operation.
pub open spec fn spec_weather_minima(m: Option<Metar>) -> bool {
    match m {
        None => false,
        Some(m) => spec_ceiling_for_lvp(m) || spec_rvr_reported(m) || spec_visibility_below_5000(m)
            || spec_reported_vv(m) || spec_freezing_reported(m) || spec_deicing_cold(m),
    }
}

/// The operating mode: single-runway night operation between 22:30 and
/// 06:30 local, segregated during the day when the weather minima are met,
/// mixed otherwise.
pub open spec fn spec_engm_mode(m: Option<Metar>, now: LocalTime) -> EngmModes {
    let mins = (now.hour as int) * 60 + (now.minute as int);
    if mins >= 1350 || mins < 390 {
        EngmModes::Single
    } else if spec_weather_minima(m) {
        EngmModes::Segregated
    } else {
        EngmModes::Mixed
    }
}

fn check_ceiling_for_lvp(m: &Metar) -> (r: bool)
    ensures
        r == spec_ceiling_for_lvp(*m),
{
    match &m.obscuration {
        Obscuration::Described(d) => check_clouds_lvp(&d.clouds),
        Obscuration::Cavok => false,
    }
}

fn check_clouds_lvp(clouds: &Vec<Cloud>) -> (r: bool)
    ensures
        r == spec_clouds_lvp(clouds@),
{
    let mut k: usize = 0;
    while k < clouds.len()
        invariant
            0 <= k <= clouds@.len(),
            forall|i: int| 0 <= i < k ==> !spec_cloud_lvp(#[trigger] clouds@[i]),
        decreases clouds@.len() - k,
    {
        let c = &clouds[k];
        match c {
            Cloud::CloudData(cd) => {
                let cov = match cd.coverage {
                    OptionalData::Undefined => true,
                    OptionalData::Data(CloudCoverage::Broken) => true,
                    OptionalData::Data(CloudCoverage::Overcast) => true,
                    _ => false,
                };
                let low = match cd.height {
                    OptionalData::Undefined => true,
                    OptionalData::Data(h) => h.height < 5,
                };
                proof {
                    match cd.height {
                        OptionalData::Data(h) => {
                            if h.height < 5 {
                                assert(h.height * 100 < 500) by (nonlinear_arith)
                                    requires
                                        h.height < 5,
                                ;
                            } else {
                                assert(h.height * 100 >= 500) by (nonlinear_arith)
                                    requires
                                        h.height >= 5,
                                ;
                            }
                        },
                        OptionalData::Undefined => {},
                    }
                }
                if cov && low {
                    assert(spec_cloud_lvp(clouds@[k as int]));
                    assert(spec_clouds_lvp(clouds@));
                    return true;
                }
            },
            _ => {},
        }
        k = k + 1;
    }
    false
}

fn check_rvr_reported(m: &Metar) -> (r: bool)
    ensures
        r == spec_rvr_reported(*m),
{
    match &m.obscuration {
        Obscuration::Described(d) => check_rvrs_count(&d.rvr),
        Obscuration::Cavok => false,
    }
}

fn check_rvrs_count(rvrs: &Vec<crate::obscuration::Rvr>) -> (r: bool)
    ensures
        r == spec_rvrs_count(rvrs@),
{
    let mut k: usize = 0;
    while k < rvrs.len()
        invariant
            0 <= k <= rvrs@.len(),
            forall|i: int| 0 <= i < k ==> !spec_rvr_counts((#[trigger] rvrs@[i]).value),
        decreases rvrs@.len() - k,
    {
        let counts = match rvrs[k].value {
            OptionalData::Undefined => true,
            OptionalData::Data(v) => v < 1000,
        };
        if counts {
            assert(spec_rvr_counts(rvrs@[k as int].value));
            return true;
        }
        k = k + 1;
    }
    false
}

fn check_visibility_below_5000(m: &Metar) -> (r: bool)
    ensures
        r == spec_visibility_below_5000(*m),
{
    match &m.obscuration {
        Obscuration::Described(d) => match d.visibility.value {
            VisibilityUnit::Meters(OptionalData::Undefined) => true,
            VisibilityUnit::Meters(OptionalData::Data(v)) => v < 5000,
            _ => false,
        },
        Obscuration::Cavok => false,
    }
}

fn check_freezing_reported(m: &Metar) -> (r: bool)
    ensures
        r == spec_freezing_reported(*m),
{
    match &m.obscuration {
        Obscuration::Described(d) => check_pws_freezing(&d.present_weather),
        Obscuration::Cavok => false,
    }
}

fn check_pws_freezing(pws: &Vec<PresentWeather>) -> (r: bool)
    ensures
        r == spec_pws_freezing(pws@),
{
    let mut k: usize = 0;
    while k < pws.len()
        invariant
            0 <= k <= pws@.len(),
            forall|i: int|
                0 <= i < k ==> (#[trigger] pws@[i]).descriptor != Some(Qualifier::Freezing),
        decreases pws@.len() - k,
    {
        if matches!(pws[k].descriptor, Some(Qualifier::Freezing)) {
            return true;
        }
        k = k + 1;
    }
    false
}

fn check_pw_precip(pw: &PresentWeather) -> (r: bool)
    ensures
        r == spec_pw_precip(*pw),
{
    let mut k: usize = 0;
    while k < pw.phenomena.len()
        invariant
            0 <= k <= pw.phenomena@.len(),
            forall|i: int| 0 <= i < k ==> !spec_phen_precip(#[trigger] pw.phenomena@[i]),
        decreases pw.phenomena@.len() - k,
    {
        let hit = match pw.phenomena[k] {
            WeatherPhenomenon::DZ => true,
            WeatherPhenomenon::RA => true,
            WeatherPhenomenon::SN => true,
            WeatherPhenomenon::SG => true,
            WeatherPhenomenon::PL => true,
            WeatherPhenomenon::GR => true,
            WeatherPhenomenon::GS => true,
            WeatherPhenomenon::UP => true,
            _ => false,
        };
        if hit {
            assert(spec_phen_precip(pw.phenomena@[k as int]));
            return true;
        }
        k = k + 1;
    }
    false
}

fn check_deicing_cold(m: &Metar) -> (r: bool)
    ensures
        r == spec_deicing_cold(*m),
{
    let cold = match m.temperature.temp {
        OptionalData::Undefined => true,
        OptionalData::Data(t) => t < 5,
    };
    if !cold {
        return false;
    }
    match &m.obscuration {
        Obscuration::Described(d) => check_pws_precip(&d.present_weather),
        Obscuration::Cavok => false,
    }
}

fn check_pws_precip(pws: &Vec<PresentWeather>) -> (r: bool)
    ensures
        r == spec_pws_precip(pws@),
{
    let mut k: usize = 0;
    while k < pws.len()
        invariant
            0 <= k <= pws@.len(),
            forall|i: int| 0 <= i < k ==> !spec_pw_precip(#[trigger] pws@[i]),
        decreases pws@.len() - k,
    {
        if check_pw_precip(&pws[k]) {
            return true;
        }
        k = k + 1;
    }
    false
}

/// Evaluates the weather minima flags on the airport's latest report.
pub fn weather_minima(m: &Option<Metar>) -> (r: bool)
    ensures
        r == spec_weather_minima(*m),
{
    match m {
        None => false,
        Some(m) => check_ceiling_for_lvp(m) || check_rvr_reported(m) || check_visibility_below_5000(
            m,
        ) || {
            let vv = match &m.obscuration {
                Obscuration::Described(d) => d.vertical_visibility.is_some(),
                Obscuration::Cavok => false,
            };
            vv
        } || check_freezing_reported(m) || check_deicing_cold(m),
    }
}

/// Selects the operating mode from the local time and the weather minima.
pub fn engm_mode(m: &Option<Metar>, now: LocalTime) -> (r: EngmModes)
    ensures
        r == spec_engm_mode(*m, now),
{
    let mins: u16 = (now.hour as u16) * 60 + (now.minute as u16);
    if mins >= 1350 {
        EngmModes::Single
    } else if mins < 390 {
        EngmModes::Single
    } else if weather_minima(m) {
        EngmModes::Segregated
    } else {
        EngmModes::Mixed
    }
}

/// The decimal digits of a configured runway number: two digits with a
/// leading zero, or three for a value past ninety-nine.
pub open spec fn spec_two_digit_bytes(n: int) -> Seq<u8> {
    if n < 100 {
        seq![(48 + n / 10) as u8, (48 + n % 10) as u8]
    } else {
        seq![(48 + n / 100) as u8, (48 + (n / 10) % 10) as u8, (48 + n % 10) as u8]
    }
}

/// Formats a configured runway number with a leading zero.
pub fn two_digit_bytes(n: u8) -> (r: Vec<u8>)
    ensures
        r@ =~= spec_two_digit_bytes(n as int),
{
    let mut r: Vec<u8> = Vec::new();
    if n < 100 {
        r.push(48 + n / 10);
        r.push(48 + n % 10);
    } else {
        r.push(48 + n / 100);
        r.push(48 + (n / 10) % 10);
        r.push(48 + n % 10);
    }
    r
}

/// The runway number the parallel-runway policy operates: the wind-based
/// pick's number when there is one, else the configured default, else
/// `01`.
pub open spec fn spec_engm_number(a: Airport, dflt: Option<u8>) -> Seq<u8>
    recommends
        a.runways@.len() >= 1,
{
    match spec_internal_selection(a, 0) {
        Some((id, u)) => if id.len() >= 2 {
            id.subrange(0, 2)
        } else {
            id
        },
        None => match dflt {
            Some(n) => spec_two_digit_bytes(n as int),
            None => seq![48u8, 49u8],
        },
    }
}

/// The parallel-runway selection: both sides in mixed mode, departures
/// left and arrivals right in segregated mode, and one canonical runway in
/// single mode; a number with no canonical single runway is a
/// configuration error.
pub open spec fn spec_engm_selection(a: Airport, dflt: Option<u8>, now: LocalTime) -> Result<
    Seq<(Seq<u8>, RunwayUse)>,
    PolicyError,
>
    recommends
        a.runways@.len() >= 1,
{
    let num = spec_engm_number(a, dflt);
    match spec_engm_mode(a.metar, now) {
        EngmModes::Mixed => Ok(
            seq![(num.push(76u8), RunwayUse::Both), (num.push(82u8), RunwayUse::Both)],
        ),
        EngmModes::Segregated => Ok(
            seq![(num.push(76u8), RunwayUse::Departing), (num.push(82u8), RunwayUse::Arriving)],
        ),
        EngmModes::Single => if num =~= seq![48u8, 49u8] {
            Ok(seq![(seq![48u8, 49u8, 76u8], RunwayUse::Both)])
        } else if num =~= seq![49u8, 57u8] {
            Ok(seq![(seq![49u8, 57u8, 82u8], RunwayUse::Both)])
        } else {
            Err(PolicyError::InvalidEngmRunway)
        },
    }
}

impl Airport {
    /// The parallel-runway policy, driven by the injected local time and
    /// an optional configured default runway number.
    pub fn set_runway_for_engm(&self, dflt: Option<u8>, now: LocalTime) -> (r: Result<
        UsageMap,
        PolicyError,
    >)
        requires
            self.runways@.len() >= 1,
        ensures
            match (r, spec_engm_selection(*self, dflt, now)) {
                (Ok(m), Ok(es)) => usage_entries(m) =~= es,
                (Err(a), Err(b)) => a == b,
                _ => false,
            },
    {
        let num: Vec<u8> = match self.internal_set_runway_based_on_metar_wind(0) {
            Some(m) => {
                let entry = match crate::usage_map::usage_get_index(&m, 0) {
                    Some(e) => e,
                    None => {
                        // the wind-based pick always holds one entry
                        assert(false);
                        (Vec::new(), RunwayUse::Both)
                    },
                };
                let (id, _u) = entry;
                if id.len() >= 2 {
                    let mut n: Vec<u8> = Vec::new();
                    n.push(id[0]);
                    n.push(id[1]);
                    assert(n@ =~= id@.subrange(0, 2));
                    n
                } else {
                    id
                }
            },
            None => match dflt {
                Some(n) => two_digit_bytes(n),
                None => {
                    let mut n: Vec<u8> = Vec::new();
                    n.push(48);
                    n.push(49);
                    assert(n@ =~= seq![48u8, 49u8]);
                    n
                },
            },
        };
        let ghost snum = spec_engm_number(*self, dflt);
        assert(num@ =~= snum);
        match engm_mode(&self.metar, now) {
            EngmModes::Mixed => {
                let mut left = clone_bytes(&num);
                left.push(76);
                let mut right = num;
                right.push(82);
                let mut m = new_usage_map();
                proof {
                    assert(left@[left@.len() - 1] == 76u8);
                    assert(right@[right@.len() - 1] == 82u8);
                    assert(left@ != right@);
                }
                usage_insert(&mut m, left, RunwayUse::Both);
                proof {
                    lemma_find_key_singleton((snum.push(76u8), RunwayUse::Both), snum.push(82u8));
                    assert(usage_entries(m) =~= seq![(snum.push(76u8), RunwayUse::Both)]);
                }
                usage_insert(&mut m, right, RunwayUse::Both);
                assert(usage_entries(m) =~= seq![
                    (snum.push(76u8), RunwayUse::Both),
                    (snum.push(82u8), RunwayUse::Both),
                ]);
                Ok(m)
            },
            EngmModes::Segregated => {
                let mut left = clone_bytes(&num);
                left.push(76);
                let mut right = num;
                right.push(82);
                let mut m = new_usage_map();
                proof {
                    assert(left@[left@.len() - 1] == 76u8);
                    assert(right@[right@.len() - 1] == 82u8);
                    assert(left@ != right@);
                }
                usage_insert(&mut m, left, RunwayUse::Departing);
                proof {
                    lemma_find_key_singleton((snum.push(76u8), RunwayUse::Departing), snum.push(82u8));
                    assert(usage_entries(m) =~= seq![(snum.push(76u8), RunwayUse::Departing)]);
                }
                usage_insert(&mut m, right, RunwayUse::Arriving);
                assert(usage_entries(m) =~= seq![
                    (snum.push(76u8), RunwayUse::Departing),
                    (snum.push(82u8), RunwayUse::Arriving),
                ]);
                Ok(m)
            },
            EngmModes::Single => {
                if num.len() == 2 && num[0] == 48u8 && num[1] == 49u8 {
                    assert(num@ =~= seq![48u8, 49u8]);
                    let mut ident = num;
                    ident.push(76);
                    assert(ident@ =~= seq![48u8, 49u8, 76u8]);
                    let mut m = new_usage_map();
                    usage_insert(&mut m, ident, RunwayUse::Both);
                    assert(usage_entries(m) =~= seq![(seq![48u8, 49u8, 76u8], RunwayUse::Both)]);
                    Ok(m)
                } else if num.len() == 2 && num[0] == 49u8 && num[1] == 57u8 {
                    assert(num@ =~= seq![49u8, 57u8]);
                    let mut ident = num;
                    ident.push(82);
                    assert(ident@ =~= seq![49u8, 57u8, 82u8]);
                    let mut m = new_usage_map();
                    usage_insert(&mut m, ident, RunwayUse::Both);
                    assert(usage_entries(m) =~= seq![(seq![49u8, 57u8, 82u8], RunwayUse::Both)]);
                    Ok(m)
                } else {
                    assert(!(snum =~= seq![48u8, 49u8]));
                    assert(!(snum =~= seq![49u8, 57u8]));
                    Err(PolicyError::InvalidEngmRunway)
                }
            },
        }
    }
}

/// Whether a runway pair carries the given identifier on either end.
pub open spec fn spec_pair_has_ident(p: Runway, id: Seq<u8>) -> bool {
    p.runways@[0].identifier@ == id || p.runways@[1].identifier@ == id
}

/// The first pair index at or after `i` whose pair carries the identifier,
/// or `-1`.
pub open spec fn spec_find_pair_from(rs: Seq<Runway>, id: Seq<u8>, i: int) -> int
    decreases rs.len() - i when 0 <= i <= rs.len()
{
    if i >= rs.len() {
        -1
    } else if spec_pair_has_ident(rs[i], id) {
        i
    } else {
        spec_find_pair_from(rs, id, i + 1)
    }
}

/// The end of a pair that carries the identifier: `0`, `1`, or `-1`.
pub open spec fn spec_find_dir(p: Runway, id: Seq<u8>) -> int {
    if p.runways@[0].identifier@ == id {
        0
    } else if p.runways@[1].identifier@ == id {
        1
    } else {
        -1
    }
}

/// The crossing-runway selection with comparative-crosswind fallback: the
/// main pair is the one carrying identifier `18`; its wind-based pick (or
/// `18` itself) is kept as `Both` unless the crosswind on it reaches 15
/// speed units and another pair exists that offers both a wind-based pick
/// and a strictly lower crosswind. A layout without any pair carrying
/// `18` is a configuration error.
pub open spec fn spec_enzv_selection(a: Airport) -> Result<Seq<(Seq<u8>, RunwayUse)>, PolicyError> {
    let id18 = seq![49u8, 56u8];
    let mi = spec_find_pair_from(a.runways@, id18, 0);
    if mi < 0 {
        Err(PolicyError::UnsupportedAirportConfiguration)
    } else {
        let main_id = match spec_internal_selection(a, mi) {
            Some((id, u)) => id,
            None => id18,
        };
        let fallback = seq![(main_id, RunwayUse::Both)];
        match a.metar {
            None => Ok(fallback),
            Some(m) => {
                let di = spec_find_dir(a.runways@[mi], main_id);
                if di < 0 {
                    Ok(fallback)
                } else {
                    let dir = a.runways@[mi].runways@[di];
                    match spec_max_crosswind((dir.degrees as int) % 360, m.wind) {
                        None => Ok(fallback),
                        Some((mag, side)) => if mag < 15 {
                            Ok(fallback)
                        } else {
                            let sec = if mi % 2 == 0 {
                                mi + 1
                            } else {
                                mi - 1
                            };
                            if !(0 <= sec < a.runways@.len()) {
                                Ok(fallback)
                            } else {
                                let sdir = a.runways@[sec].runways@[0];
                                match spec_max_crosswind((sdir.degrees as int) % 360, m.wind) {
                                    None => Ok(fallback),
                                    Some((mag2, side2)) => match spec_internal_selection(a, sec) {
                                        None => Ok(fallback),
                                        Some((sid, u)) => if mag2 < mag {
                                            Ok(seq![(sid, RunwayUse::Both)])
                                        } else {
                                            Ok(fallback)
                                        },
                                    },
                                }
                            }
                        },
                    }
                }
            },
        }
    }
}

impl Airport {
    fn find_pair_with_18(&self) -> (r: Option<usize>)
        ensures
            ({
                let mi = spec_find_pair_from(self.runways@, seq![49u8, 56u8], 0);
                match r {
                    Some(i) => i as int == mi && i < self.runways@.len(),
                    None => mi < 0,
                }
            }),
    {
        let mut k: usize = 0;
        while k < self.runways.len()
            invariant
                0 <= k <= self.runways@.len(),
                spec_find_pair_from(self.runways@, seq![49u8, 56u8], 0) == spec_find_pair_from(
                    self.runways@,
                    seq![49u8, 56u8],
                    k as int,
                ),
            decreases self.runways@.len() - k,
        {
            let p = &self.runways[k];
            let hit0 = p.runways[0].identifier.len() == 2 && p.runways[0].identifier[0] == 49u8
                && p.runways[0].identifier[1] == 56u8;
            let hit1 = p.runways[1].identifier.len() == 2 && p.runways[1].identifier[0] == 49u8
                && p.runways[1].identifier[1] == 56u8;
            proof {
                if p.runways@[0].identifier@ =~= seq![49u8, 56u8] {
                    assert(hit0);
                }
                if p.runways@[1].identifier@ =~= seq![49u8, 56u8] {
                    assert(hit1);
                }
                if hit0 {
                    assert(p.runways@[0].identifier@ =~= seq![49u8, 56u8]);
                }
                if hit1 {
                    assert(p.runways@[1].identifier@ =~= seq![49u8, 56u8]);
                }
            }
            if hit0 || hit1 {
                assert(spec_pair_has_ident(self.runways@[k as int], seq![49u8, 56u8]));
                return Some(k);
            }
            assert(!spec_pair_has_ident(self.runways@[k as int], seq![49u8, 56u8]));
            k = k + 1;
        }
        None
    }

    /// The crossing-runway policy with comparative-crosswind fallback.
    pub fn set_runway_for_enzv(&self) -> (r: Result<UsageMap, PolicyError>)
        ensures
            match (r, spec_enzv_selection(*self)) {
                (Ok(m), Ok(es)) => usage_entries(m) =~= es,
                (Err(a), Err(b)) => a == b,
                _ => false,
            },
    {
        let mi = match self.find_pair_with_18() {
            Some(i) => i,
            None => {
                return Err(PolicyError::UnsupportedAirportConfiguration);
            },
        };
        let main_id: Vec<u8> = match self.internal_set_runway_based_on_metar_wind(mi) {
            Some(m) => {
                match crate::usage_map::usage_get_index(&m, 0) {
                    Some((id, _u)) => id,
                    None => {
                        // the wind-based pick always holds one entry
                        assert(false);
                        Vec::new()
                    },
                }
            },
            None => {
                let mut v: Vec<u8> = Vec::new();
                v.push(49);
                v.push(56);
                assert(v@ =~= seq![49u8, 56u8]);
                v
            },
        };
        let ghost smain = match spec_internal_selection(*self, mi as int) {
            Some((id, u)) => id,
            None => seq![49u8, 56u8],
        };
        assert(main_id@ =~= smain);
        let metar = match &self.metar {
            Some(m) => m,
            None => {
                let mut fb = new_usage_map();
                usage_insert(&mut fb, main_id, RunwayUse::Both);
                assert(usage_entries(fb) =~= seq![(smain, RunwayUse::Both)]);
                return Ok(fb);
            },
        };
        let pair = &self.runways[mi];
        let hit0 = bytes_eq(pair.runways[0].identifier.as_slice(), main_id.as_slice());
        let hit1 = bytes_eq(pair.runways[1].identifier.as_slice(), main_id.as_slice());
        let di: usize = if hit0 {
            0
        } else if hit1 {
            1
        } else {
            let mut fb = new_usage_map();
            usage_insert(&mut fb, main_id, RunwayUse::Both);
            assert(usage_entries(fb) =~= seq![(smain, RunwayUse::Both)]);
            return Ok(fb);
        };
        let dir = &pair.runways[di];
        let cw = match calculate_max_crosswind(dir, &metar.wind) {
            Some(c) => c,
            None => {
                let mut fb = new_usage_map();
                usage_insert(&mut fb, main_id, RunwayUse::Both);
                assert(usage_entries(fb) =~= seq![(smain, RunwayUse::Both)]);
                return Ok(fb);
            },
        };
        if cw.magnitude < 15 {
            let mut fb = new_usage_map();
            usage_insert(&mut fb, main_id, RunwayUse::Both);
            assert(usage_entries(fb) =~= seq![(smain, RunwayUse::Both)]);
            return Ok(fb);
        }
        let sec: usize = if mi % 2 == 0 {
            mi + 1
        } else {
            mi - 1
        };
        if sec >= self.runways.len() {
            // no alternate pair to compare against: keep the main runway
            let mut fb = new_usage_map();
            usage_insert(&mut fb, main_id, RunwayUse::Both);
            assert(usage_entries(fb) =~= seq![(smain, RunwayUse::Both)]);
            return Ok(fb);
        }
        let sdir = &self.runways[sec].runways[0];
        let cw2 = match calculate_max_crosswind(sdir, &metar.wind) {
            Some(c) => c,
            None => {
                let mut fb = new_usage_map();
                usage_insert(&mut fb, main_id, RunwayUse::Both);
                assert(usage_entries(fb) =~= seq![(smain, RunwayUse::Both)]);
                return Ok(fb);
            },
        };
        match self.internal_set_runway_based_on_metar_wind(sec) {
            None => {
                let mut fb = new_usage_map();
                usage_insert(&mut fb, main_id, RunwayUse::Both);
                assert(usage_entries(fb) =~= seq![(smain, RunwayUse::Both)]);
                Ok(fb)
            },
            Some(sm) => {
                if cw2.magnitude < cw.magnitude {
                    let sid = match crate::usage_map::usage_get_index(&sm, 0) {
                        Some((id, _u)) => id,
                        None => {
                            // the wind-based pick always holds one entry
                            assert(false);
                            Vec::new()
                        },
                    };
                    let mut m = new_usage_map();
                    usage_insert(&mut m, sid, RunwayUse::Both);
                    Ok(m)
                } else {
                    let mut fb = new_usage_map();
                    usage_insert(&mut fb, main_id, RunwayUse::Both);
                    assert(usage_entries(fb) =~= seq![(smain, RunwayUse::Both)]);
                    Ok(fb)
                }
            },
        }
    }

    /// Selects a runway configuration for this airport from its latest
    /// report: the parallel-runway policy for `ENGM`, the crossing-runway
    /// policy for `ENZV`, the general policy for a single-pair airport, an
    /// empty selection for `ENVR`, and a typed error for any other layout.
    pub fn set_runway_based_on_metar_wind(&self, dflt: Option<u8>, now: LocalTime) -> (r: Result<
        UsageMap,
        PolicyError,
    >)
        ensures
            match (r, spec_policy_selection(*self, dflt, now)) {
                (Ok(m), Ok(es)) => usage_entries(m) =~= es,
                (Err(a), Err(b)) => a == b,
                _ => false,
            },
    {
        if is_icao(&self.icao, 69, 78, 71, 77) {
            if self.runways.len() >= 1 {
                self.set_runway_for_engm(dflt, now)
            } else {
                Err(PolicyError::UnsupportedAirportConfiguration)
            }
        } else if is_icao(&self.icao, 69, 78, 90, 86) {
            self.set_runway_for_enzv()
        } else if self.runways.len() == 1 {
            match self.internal_set_runway_based_on_metar_wind(0) {
                Some(m) => Ok(m),
                None => Err(PolicyError::NoRunwayToSet),
            }
        } else if is_icao(&self.icao, 69, 78, 86, 82) {
            Ok(new_usage_map())
        } else {
            Err(PolicyError::UnsupportedAirportConfiguration)
        }
    }
}

/// The per-airport policy dispatch.
pub open spec fn spec_policy_selection(a: Airport, dflt: Option<u8>, now: LocalTime) -> Result<
    Seq<(Seq<u8>, RunwayUse)>,
    PolicyError,
> {
    if a.icao@ =~= seq![69u8, 78u8, 71u8, 77u8] {
        if a.runways@.len() >= 1 {
            spec_engm_selection(a, dflt, now)
        } else {
            Err(PolicyError::UnsupportedAirportConfiguration)
        }
    } else if a.icao@ =~= seq![69u8, 78u8, 90u8, 86u8] {
        spec_enzv_selection(a)
    } else if a.runways@.len() == 1 {
        match spec_internal_selection(a, 0) {
            Some(sel) => Ok(seq![sel]),
            None => Err(PolicyError::NoRunwayToSet),
        }
    } else if a.icao@ =~= seq![69u8, 78u8, 86u8, 82u8] {
        Ok(Seq::empty())
    } else {
        Err(PolicyError::UnsupportedAirportConfiguration)
    }
}

/// Whether a station identifier holds exactly the four given letters.
fn is_icao(v: &Vec<u8>, a: u8, b: u8, c: u8, d: u8) -> (r: bool)
    ensures
        r == (v@ =~= seq![a, b, c, d]),
{
    let hit = v.len() == 4 && v[0] == a && v[1] == b && v[2] == c && v[3] == d;
    proof {
        if v@ =~= seq![a, b, c, d] {
            assert(hit);
        }
        if hit {
            assert(v@ =~= seq![a, b, c, d]);
        }
    }
    hit
}

} // verus!
