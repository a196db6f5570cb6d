//! The sky-state part of a report: visibility, runway visual range, present
//! weather, cloud layers and vertical visibility, or the `CAVOK` sentinel.

use vstd::prelude::*;

use crate::optional_data::OptionalData;
use crate::scan::{
    all_slashes, alnum_run_end, digits_value, has_tag, is_alnum, is_digit,
    lemma_alnum_run_end_bounds, lemma_digits_value_bound_four, lemma_digits_value_bound_three,
    scan_alnum_end, scan_digits_exact, scan_number, scan_slashes, scan_tag1, scan_tag2, scan_tag3,
    scan_tag5, copy_range, sp_number,
};

verus! {

/// Cloud amount of one layer.
#[derive(Debug, Clone, Copy, PartialEq, Eq, Structural)]
pub enum CloudCoverage {
    Few,
    Scattered,
    Broken,
    Overcast,
}

/// Height of a cloud layer base, in hundreds of feet as reported.
#[derive(Debug, Clone, Copy, PartialEq, Eq, Structural)]
pub struct CloudHeight {
    pub height: u32,
}

/// One cloud layer: coverage, base height, and an optional layer type code.
#[derive(Debug, Clone, PartialEq, Eq)]
pub struct CloudData {
    pub coverage: OptionalData<CloudCoverage>,
    pub height: OptionalData<CloudHeight>,
    pub cloud_type: Option<OptionalData<Vec<u8>>>,
}

/// Mathematical image of `CloudData`.
pub struct SpecCloudData {
    pub coverage: OptionalData<CloudCoverage>,
    pub height: OptionalData<CloudHeight>,
    pub cloud_type: Option<OptionalData<Seq<u8>>>,
}

impl View for CloudData {
    type V = SpecCloudData;

    open spec fn view(&self) -> SpecCloudData {
        SpecCloudData {
            coverage: self.coverage,
            height: self.height,
            cloud_type: match self.cloud_type {
                Some(OptionalData::Data(ref v)) => Some(OptionalData::Data(v@)),
                Some(OptionalData::Undefined) => Some(OptionalData::Undefined),
                None => None,
            },
        }
    }
}

/// One entry of the cloud group.
#[derive(Debug, Clone, PartialEq, Eq)]
pub enum Cloud {
    NCD,
    NSC,
    CLR,
    CloudData(CloudData),
}

/// Mathematical image of `Cloud`.
pub enum SpecCloud {
    NCD,
    NSC,
    CLR,
    CloudData(SpecCloudData),
}

impl View for Cloud {
    type V = SpecCloud;

    open spec fn view(&self) -> SpecCloud {
        match self {
            Cloud::NCD => SpecCloud::NCD,
            Cloud::NSC => SpecCloud::NSC,
            Cloud::CLR => SpecCloud::CLR,
            Cloud::CloudData(d) => SpecCloud::CloudData(d@),
        }
    }
}

/// Intensity or proximity mark of a present-weather group.
#[derive(Debug, Clone, Copy, PartialEq, Eq, Structural)]
pub enum WeatherIntensity {
    Light,
    Heavy,
    Vicinity,
}

/// Descriptor of a present-weather group.
#[derive(Debug, Clone, Copy, PartialEq, Eq, Structural)]
pub enum Qualifier {
    Shallow,
    Patches,
    Partial,
    Low,
    Blowing,
    Showers,
    Thunderstorm,
    Freezing,
}

/// Weather phenomenon codes.
#[derive(Debug, Clone, Copy, PartialEq, Eq, Structural)]
pub enum WeatherPhenomenon {
    DZ,
    RA,
    SN,
    SG,
    PL,
    GR,
    GS,
    UP,
    BR,
    FG,
    FU,
    VA,
    DU,
    SA,
    HZ,
    PO,
    SQ,
    FC,
    SS,
    DS,
}

/// One present-weather group: optional intensity, optional descriptor, and
/// the phenomena; a group with neither descriptor nor phenomena is invalid.
#[derive(Debug, Clone, PartialEq, Eq)]
pub struct PresentWeather {
    pub intensity: Option<WeatherIntensity>,
    pub descriptor: Option<Qualifier>,
    pub phenomena: Vec<WeatherPhenomenon>,
}

/// Mathematical image of `PresentWeather`.
pub struct SpecPresentWeather {
    pub intensity: Option<WeatherIntensity>,
    pub descriptor: Option<Qualifier>,
    pub phenomena: Seq<WeatherPhenomenon>,
}

impl View for PresentWeather {
    type V = SpecPresentWeather;

    open spec fn view(&self) -> SpecPresentWeather {
        SpecPresentWeather {
            intensity: self.intensity,
            descriptor: self.descriptor,
            phenomena: self.phenomena@,
        }
    }
}

/// The optional intensity mark: `-`, `+`, or `VC`.
pub open spec fn sp_pw_intensity(s: Seq<u8>, i: int) -> (Option<WeatherIntensity>, int) {
    if has_tag(s, i, seq![45u8]) {
        (Some(WeatherIntensity::Light), i + 1)
    } else if has_tag(s, i, seq![43u8]) {
        (Some(WeatherIntensity::Heavy), i + 1)
    } else if has_tag(s, i, seq![86u8, 67u8]) {
        (Some(WeatherIntensity::Vicinity), i + 2)
    } else {
        (None, i)
    }
}

/// The optional descriptor: one of the eight two-letter codes.
pub open spec fn sp_pw_descriptor(s: Seq<u8>, i: int) -> (Option<Qualifier>, int) {
    if has_tag(s, i, seq![77u8, 73u8]) {
        (Some(Qualifier::Shallow), i + 2)
    } else if has_tag(s, i, seq![66u8, 67u8]) {
        (Some(Qualifier::Patches), i + 2)
    } else if has_tag(s, i, seq![80u8, 82u8]) {
        (Some(Qualifier::Partial), i + 2)
    } else if has_tag(s, i, seq![68u8, 82u8]) {
        (Some(Qualifier::Low), i + 2)
    } else if has_tag(s, i, seq![66u8, 76u8]) {
        (Some(Qualifier::Blowing), i + 2)
    } else if has_tag(s, i, seq![83u8, 72u8]) {
        (Some(Qualifier::Showers), i + 2)
    } else if has_tag(s, i, seq![84u8, 83u8]) {
        (Some(Qualifier::Thunderstorm), i + 2)
    } else if has_tag(s, i, seq![70u8, 90u8]) {
        (Some(Qualifier::Freezing), i + 2)
    } else {
        (None, i)
    }
}

/// A single two-letter phenomenon code.
pub open spec fn sp_phenomenon(s: Seq<u8>, i: int) -> Option<(WeatherPhenomenon, int)> {
    if has_tag(s, i, seq![68u8, 90u8]) {
        Some((WeatherPhenomenon::DZ, i + 2))
    } else if has_tag(s, i, seq![82u8, 65u8]) {
        Some((WeatherPhenomenon::RA, i + 2))
    } else if has_tag(s, i, seq![83u8, 78u8]) {
        Some((WeatherPhenomenon::SN, i + 2))
    } else if has_tag(s, i, seq![83u8, 71u8]) {
        Some((WeatherPhenomenon::SG, i + 2))
    } else if has_tag(s, i, seq![80u8, 76u8]) {
        Some((WeatherPhenomenon::PL, i + 2))
    } else if has_tag(s, i, seq![71u8, 82u8]) {
        Some((WeatherPhenomenon::GR, i + 2))
    } else if has_tag(s, i, seq![71u8, 83u8]) {
        Some((WeatherPhenomenon::GS, i + 2))
    } else if has_tag(s, i, seq![85u8, 80u8]) {
        Some((WeatherPhenomenon::UP, i + 2))
    } else if has_tag(s, i, seq![66u8, 82u8]) {
        Some((WeatherPhenomenon::BR, i + 2))
    } else if has_tag(s, i, seq![70u8, 71u8]) {
        Some((WeatherPhenomenon::FG, i + 2))
    } else if has_tag(s, i, seq![70u8, 85u8]) {
        Some((WeatherPhenomenon::FU, i + 2))
    } else if has_tag(s, i, seq![86u8, 65u8]) {
        Some((WeatherPhenomenon::VA, i + 2))
    } else if has_tag(s, i, seq![68u8, 85u8]) {
        Some((WeatherPhenomenon::DU, i + 2))
    } else if has_tag(s, i, seq![83u8, 65u8]) {
        Some((WeatherPhenomenon::SA, i + 2))
    } else if has_tag(s, i, seq![72u8, 90u8]) {
        Some((WeatherPhenomenon::HZ, i + 2))
    } else if has_tag(s, i, seq![80u8, 79u8]) {
        Some((WeatherPhenomenon::PO, i + 2))
    } else if has_tag(s, i, seq![83u8, 81u8]) {
        Some((WeatherPhenomenon::SQ, i + 2))
    } else if has_tag(s, i, seq![70u8, 67u8]) {
        Some((WeatherPhenomenon::FC, i + 2))
    } else if has_tag(s, i, seq![83u8, 83u8]) {
        Some((WeatherPhenomenon::SS, i + 2))
    } else if has_tag(s, i, seq![68u8, 83u8]) {
        Some((WeatherPhenomenon::DS, i + 2))
    } else {
        None
    }
}

/// The greedy run of phenomenon codes starting at `i`.
pub open spec fn sp_phenomena(s: Seq<u8>, i: int) -> (Seq<WeatherPhenomenon>, int)
    decreases s.len() - i when 0 <= i <= s.len()
{
    match sp_phenomenon(s, i) {
        Some((p, j)) => if i < j <= s.len() {
            let (rest, k) = sp_phenomena(s, j);
            (seq![p] + rest, k)
        } else {
            (seq![p], j)
        },
        None => (Seq::empty(), i),
    }
}

/// A whole present-weather group; invalid when it has neither a descriptor
/// nor any phenomenon.
pub open spec fn sp_present_weather(s: Seq<u8>, i: int) -> Option<(SpecPresentWeather, int)>
    recommends
        0 <= i <= s.len(),
{
    let (intensity, i1) = sp_pw_intensity(s, i);
    let (descriptor, i2) = sp_pw_descriptor(s, i1);
    let (phenomena, i3) = sp_phenomena(s, i2);
    if descriptor is None && phenomena.len() == 0 {
        None
    } else {
        Some((SpecPresentWeather { intensity, descriptor, phenomena }, i3))
    }
}

fn scan_pw_intensity(s: &[u8], i: usize) -> (r: (Option<WeatherIntensity>, usize))
    requires
        i <= s@.len(),
    ensures
        r.0 == sp_pw_intensity(s@, i as int).0,
        r.1 as int == sp_pw_intensity(s@, i as int).1,
        i <= r.1 <= s@.len(),
{
    let slen = s.len();
    if let Some(j) = scan_tag1(s, i, 45) {
        (Some(WeatherIntensity::Light), j)
    } else if let Some(j) = scan_tag1(s, i, 43) {
        (Some(WeatherIntensity::Heavy), j)
    } else if let Some(j) = scan_tag2(s, i, 86, 67) {
        (Some(WeatherIntensity::Vicinity), j)
    } else {
        (None, i)
    }
}

fn scan_pw_descriptor(s: &[u8], i: usize) -> (r: (Option<Qualifier>, usize))
    requires
        i <= s@.len(),
    ensures
        r.0 == sp_pw_descriptor(s@, i as int).0,
        r.1 as int == sp_pw_descriptor(s@, i as int).1,
        i <= r.1 <= s@.len(),
{
    let slen = s.len();
    if let Some(j) = scan_tag2(s, i, 77, 73) {
        (Some(Qualifier::Shallow), j)
    } else if let Some(j) = scan_tag2(s, i, 66, 67) {
        (Some(Qualifier::Patches), j)
    } else if let Some(j) = scan_tag2(s, i, 80, 82) {
        (Some(Qualifier::Partial), j)
    } else if let Some(j) = scan_tag2(s, i, 68, 82) {
        (Some(Qualifier::Low), j)
    } else if let Some(j) = scan_tag2(s, i, 66, 76) {
        (Some(Qualifier::Blowing), j)
    } else if let Some(j) = scan_tag2(s, i, 83, 72) {
        (Some(Qualifier::Showers), j)
    } else if let Some(j) = scan_tag2(s, i, 84, 83) {
        (Some(Qualifier::Thunderstorm), j)
    } else if let Some(j) = scan_tag2(s, i, 70, 90) {
        (Some(Qualifier::Freezing), j)
    } else {
        (None, i)
    }
}

fn scan_phenomenon(s: &[u8], i: usize) -> (r: Option<(WeatherPhenomenon, usize)>)
    requires
        i <= s@.len(),
    ensures
        match (r, sp_phenomenon(s@, i as int)) {
            (Some((v, j)), Some((w, k))) => v == w && j as int == k && i < j <= s@.len(),
            (None, None) => true,
            _ => false,
        },
{
    let slen = s.len();
    if let Some(j) = scan_tag2(s, i, 68, 90) {
        Some((WeatherPhenomenon::DZ, j))
    } else if let Some(j) = scan_tag2(s, i, 82, 65) {
        Some((WeatherPhenomenon::RA, j))
    } else if let Some(j) = scan_tag2(s, i, 83, 78) {
        Some((WeatherPhenomenon::SN, j))
    } else if let Some(j) = scan_tag2(s, i, 83, 71) {
        Some((WeatherPhenomenon::SG, j))
    } else if let Some(j) = scan_tag2(s, i, 80, 76) {
        Some((WeatherPhenomenon::PL, j))
    } else if let Some(j) = scan_tag2(s, i, 71, 82) {
        Some((WeatherPhenomenon::GR, j))
    } else if let Some(j) = scan_tag2(s, i, 71, 83) {
        Some((WeatherPhenomenon::GS, j))
    } else if let Some(j) = scan_tag2(s, i, 85, 80) {
        Some((WeatherPhenomenon::UP, j))
    } else if let Some(j) = scan_tag2(s, i, 66, 82) {
        Some((WeatherPhenomenon::BR, j))
    } else if let Some(j) = scan_tag2(s, i, 70, 71) {
        Some((WeatherPhenomenon::FG, j))
    } else if let Some(j) = scan_tag2(s, i, 70, 85) {
        Some((WeatherPhenomenon::FU, j))
    } else if let Some(j) = scan_tag2(s, i, 86, 65) {
        Some((WeatherPhenomenon::VA, j))
    } else if let Some(j) = scan_tag2(s, i, 68, 85) {
        Some((WeatherPhenomenon::DU, j))
    } else if let Some(j) = scan_tag2(s, i, 83, 65) {
        Some((WeatherPhenomenon::SA, j))
    } else if let Some(j) = scan_tag2(s, i, 72, 90) {
        Some((WeatherPhenomenon::HZ, j))
    } else if let Some(j) = scan_tag2(s, i, 80, 79) {
        Some((WeatherPhenomenon::PO, j))
    } else if let Some(j) = scan_tag2(s, i, 83, 81) {
        Some((WeatherPhenomenon::SQ, j))
    } else if let Some(j) = scan_tag2(s, i, 70, 67) {
        Some((WeatherPhenomenon::FC, j))
    } else if let Some(j) = scan_tag2(s, i, 83, 83) {
        Some((WeatherPhenomenon::SS, j))
    } else if let Some(j) = scan_tag2(s, i, 68, 83) {
        Some((WeatherPhenomenon::DS, j))
    } else {
        None
    }
}

fn scan_phenomena(s: &[u8], i: usize) -> (r: (Vec<WeatherPhenomenon>, usize))
    requires
        i <= s@.len(),
    ensures
        r.0@ =~= sp_phenomena(s@, i as int).0,
        r.1 as int == sp_phenomena(s@, i as int).1,
        i <= r.1 <= s@.len(),
{
    let slen = s.len();
    let mut acc: Vec<WeatherPhenomenon> = Vec::new();
    let mut cur = i;
    loop
        invariant
            i <= cur <= s@.len(),
            sp_phenomena(s@, i as int).0 =~= acc@ + sp_phenomena(s@, cur as int).0,
            sp_phenomena(s@, i as int).1 == sp_phenomena(s@, cur as int).1,
        decreases s@.len() - cur,
    {
        match scan_phenomenon(s, cur) {
            Some((p, j)) => {
                acc.push(p);
                assert(sp_phenomena(s@, i as int).0 =~= acc@ + sp_phenomena(s@, j as int).0);
                cur = j;
            },
            None => {
                assert(sp_phenomena(s@, cur as int).0 =~= Seq::<WeatherPhenomenon>::empty());
                assert(sp_phenomena(s@, i as int).0 =~= acc@);
                return (acc, cur);
            },
        }
    }
}

/// Scans one present-weather group at position `i`.
pub fn scan_present_weather(s: &[u8], i: usize) -> (r: Option<(PresentWeather, usize)>)
    requires
        i <= s@.len(),
    ensures
        match (r, sp_present_weather(s@, i as int)) {
            (Some((v, j)), Some((w, k))) => v@ == w && j as int == k && i <= j <= s@.len(),
            (None, None) => true,
            _ => false,
        },
{
    let slen = s.len();
    let (intensity, i1) = scan_pw_intensity(s, i);
    let (descriptor, i2) = scan_pw_descriptor(s, i1);
    let (phenomena, i3) = scan_phenomena(s, i2);
    if descriptor.is_none() && phenomena.len() == 0 {
        None
    } else {
        let pw = PresentWeather { intensity, descriptor, phenomena };
        assert(pw@.phenomena =~= (sp_present_weather(s@, i as int)->0).0.phenomena);
        Some((pw, i3))
    }
}

/// Reported tendency of a runway visual range.
#[derive(Debug, Clone, Copy, PartialEq, Eq, Structural)]
pub enum Trend {
    Increasing,
    Decreasing,
    NoDistinctChange,
}

/// Whether a reported distance is a lower or upper sensor bound.
#[derive(Debug, Clone, Copy, PartialEq, Eq, Structural)]
pub enum DistanceModifier {
    LessThan,
    GreaterThan,
}

/// One runway visual range group.
#[derive(Debug, Clone, PartialEq, Eq)]
pub struct Rvr {
    pub runway: Vec<u8>,
    pub value: OptionalData<u32>,
    pub distance_modifier: Option<DistanceModifier>,
    pub comment: Option<Trend>,
}

/// Mathematical image of `Rvr`.
pub struct SpecRvr {
    pub runway: Seq<u8>,
    pub value: OptionalData<u32>,
    pub distance_modifier: Option<DistanceModifier>,
    pub comment: Option<Trend>,
}

impl View for Rvr {
    type V = SpecRvr;

    open spec fn view(&self) -> SpecRvr {
        SpecRvr {
            runway: self.runway@,
            value: self.value,
            distance_modifier: self.distance_modifier,
            comment: self.comment,
        }
    }
}

/// Visibility in meters or in the statute-miles form.
#[derive(Debug, Clone, Copy, PartialEq, Eq)]
pub struct StatuteMilesVisibility {
    pub whole: Option<u32>,
    pub fraction: Option<(u32, u32)>,
    pub modifier: Option<DistanceModifier>,
}

/// The unit and value of a visibility group.
#[derive(Debug, Clone, Copy, PartialEq, Eq)]
pub enum VisibilityUnit {
    Meters(OptionalData<u32>),
    StatuteMiles(StatuteMilesVisibility),
}

/// The visibility group, with the "no directional variation" mark.
#[derive(Debug, Clone, Copy, PartialEq, Eq)]
pub struct Visibility {
    pub value: VisibilityUnit,
    pub ndv: bool,
}

/// A vertical visibility group: `VV` and a height in hundreds of feet.
#[derive(Debug, Clone, Copy, PartialEq, Eq, Structural)]
pub struct VerticalVisibility {
    pub height: OptionalData<u32>,
}

/// The described (non-`CAVOK`) sky state.
#[derive(Debug, Clone, PartialEq, Eq)]
pub struct DescribedObscuration {
    pub visibility: Visibility,
    pub rvr: Vec<Rvr>,
    pub present_weather: Vec<PresentWeather>,
    pub clouds: Vec<Cloud>,
    pub vertical_visibility: Option<VerticalVisibility>,
}

/// Mathematical image of `DescribedObscuration`.
pub struct SpecDescribedObscuration {
    pub visibility: Visibility,
    pub rvr: Seq<SpecRvr>,
    pub present_weather: Seq<SpecPresentWeather>,
    pub clouds: Seq<SpecCloud>,
    pub vertical_visibility: Option<VerticalVisibility>,
}

/// Element-wise view of a runway-visual-range list.
pub open spec fn deep_rvrs(v: Seq<Rvr>) -> Seq<SpecRvr> {
    v.map_values(|r: Rvr| r@)
}

/// Element-wise view of a present-weather list.
pub open spec fn deep_pws(v: Seq<PresentWeather>) -> Seq<SpecPresentWeather> {
    v.map_values(|w: PresentWeather| w@)
}

/// Element-wise view of a cloud list.
pub open spec fn deep_clouds(v: Seq<Cloud>) -> Seq<SpecCloud> {
    v.map_values(|c: Cloud| c@)
}

impl View for DescribedObscuration {
    type V = SpecDescribedObscuration;

    open spec fn view(&self) -> SpecDescribedObscuration {
        SpecDescribedObscuration {
            visibility: self.visibility,
            rvr: deep_rvrs(self.rvr@),
            present_weather: deep_pws(self.present_weather@),
            clouds: deep_clouds(self.clouds@),
            vertical_visibility: self.vertical_visibility,
        }
    }
}

/// The sky state: a described observation or the `CAVOK` sentinel.
#[derive(Debug, Clone, PartialEq, Eq)]
pub enum Obscuration {
    Described(DescribedObscuration),
    Cavok,
}

/// Mathematical image of `Obscuration`.
pub enum SpecObscuration {
    Described(SpecDescribedObscuration),
    Cavok,
}

impl View for Obscuration {
    type V = SpecObscuration;

    open spec fn view(&self) -> SpecObscuration {
        match self {
            Obscuration::Described(d) => SpecObscuration::Described(d@),
            Obscuration::Cavok => SpecObscuration::Cavok,
        }
    }
}

/// An optional distance modifier letter: `M` or `P`.
pub open spec fn sp_modifier(s: Seq<u8>, i: int) -> (Option<DistanceModifier>, int) {
    if has_tag(s, i, seq![77u8]) {
        (Some(DistanceModifier::LessThan), i + 1)
    } else if has_tag(s, i, seq![80u8]) {
        (Some(DistanceModifier::GreaterThan), i + 1)
    } else {
        (None, i)
    }
}

/// A four-digit value or four slashes for an undefined one.
pub open spec fn sp_four_digit_field(s: Seq<u8>, i: int) -> Option<(OptionalData<u32>, int)> {
    if all_slashes(s, i, 4) {
        Some((OptionalData::Undefined, i + 4))
    } else if i + 4 <= s.len() && (forall|k: int| i <= k < i + 4 ==> #[trigger] is_digit(s[k])) {
        Some((OptionalData::Data(digits_value(s, i, i + 4) as u32), i + 4))
    } else {
        None
    }
}

/// One runway visual range group: `R`, the runway identifier, a slash, an
/// optional bound letter, the range, and an optional tendency letter.
pub open spec fn sp_rvr(s: Seq<u8>, i: int) -> Option<(SpecRvr, int)>
    recommends
        0 <= i <= s.len(),
{
    if has_tag(s, i, seq![82u8]) {
        let e = alnum_run_end(s, i + 1);
        if e == i + 1 {
            None
        } else if has_tag(s, e, seq![47u8]) {
            let (distance_modifier, p1) = sp_modifier(s, e + 1);
            match sp_four_digit_field(s, p1) {
                None => None,
                Some((value, p2)) => {
                    let (comment, p3) = sp_rvr_trend(s, p2);
                    Some(
                        (
                            SpecRvr {
                                runway: s.subrange(i + 1, e),
                                value,
                                distance_modifier,
                                comment,
                            },
                            p3,
                        ),
                    )
                },
            }
        } else {
            None
        }
    } else {
        None
    }
}

/// An optional tendency letter after a range: `D`, `U`, or `N`.
pub open spec fn sp_rvr_trend(s: Seq<u8>, i: int) -> (Option<Trend>, int) {
    if has_tag(s, i, seq![68u8]) {
        (Some(Trend::Decreasing), i + 1)
    } else if has_tag(s, i, seq![85u8]) {
        (Some(Trend::Increasing), i + 1)
    } else if has_tag(s, i, seq![78u8]) {
        (Some(Trend::NoDistinctChange), i + 1)
    } else {
        (None, i)
    }
}

/// The statute-miles visibility form: an optional bound letter, a whole
/// part and/or a fraction, and the `SM` unit.
pub open spec fn sp_statute_miles(s: Seq<u8>, i: int) -> Option<(StatuteMilesVisibility, int)> {
    let (modifier, i1) = sp_modifier(s, i);
    match sp_fraction(s, i1) {
        Some(((n, d), j)) => if has_tag(s, j, seq![83u8, 77u8]) {
            Some(
                (StatuteMilesVisibility { whole: None, fraction: Some((n, d)), modifier }, j + 2),
            )
        } else {
            sp_statute_whole(s, i)
        },
        None => sp_statute_whole(s, i),
    }
}

/// The whole-number statute-miles form, with an optional trailing fraction.
pub open spec fn sp_statute_whole(s: Seq<u8>, i: int) -> Option<(StatuteMilesVisibility, int)> {
    let (modifier, i1) = sp_modifier(s, i);
    match sp_number(s, i1) {
        None => None,
        Some((w, j1)) => if w <= 4294967295 {
            if has_tag(s, j1, seq![32u8]) {
                match sp_fraction(s, j1 + 1) {
                    Some(((n, d), j2)) => if has_tag(s, j2, seq![83u8, 77u8]) {
                        Some(
                            (
                                StatuteMilesVisibility {
                                    whole: Some(w as u32),
                                    fraction: Some((n, d)),
                                    modifier,
                                },
                                j2 + 2,
                            ),
                        )
                    } else if has_tag(s, j1, seq![83u8, 77u8]) {
                        Some(
                            (
                                StatuteMilesVisibility {
                                    whole: Some(w as u32),
                                    fraction: None,
                                    modifier,
                                },
                                j1 + 2,
                            ),
                        )
                    } else {
                        None
                    },
                    None => if has_tag(s, j1, seq![83u8, 77u8]) {
                        Some(
                            (
                                StatuteMilesVisibility {
                                    whole: Some(w as u32),
                                    fraction: None,
                                    modifier,
                                },
                                j1 + 2,
                            ),
                        )
                    } else {
                        None
                    },
                }
            } else if has_tag(s, j1, seq![83u8, 77u8]) {
                Some(
                    (
                        StatuteMilesVisibility { whole: Some(w as u32), fraction: None, modifier },
                        j1 + 2,
                    ),
                )
            } else {
                None
            }
        } else {
            None
        },
    }
}

/// A fraction: a number, a slash, a number.
pub open spec fn sp_fraction(s: Seq<u8>, i: int) -> Option<((u32, u32), int)> {
    match sp_number(s, i) {
        None => None,
        Some((n, j1)) => if has_tag(s, j1, seq![47u8]) {
            match sp_number(s, j1 + 1) {
                None => None,
                Some((d, j2)) => Some(((n as u32, d as u32), j2)),
            }
        } else {
            None
        },
    }
}

/// The visibility group: statute miles or four meters digits, and an
/// optional `NDV` mark.
pub open spec fn sp_visibility(s: Seq<u8>, i: int) -> Option<(Visibility, int)> {
    let unit = match sp_statute_miles(s, i) {
        Some((sm, j)) => Some((VisibilityUnit::StatuteMiles(sm), j)),
        None => match sp_four_digit_field(s, i) {
            Some((v, j)) => Some((VisibilityUnit::Meters(v), j)),
            None => None,
        },
    };
    match unit {
        None => None,
        Some((value, j)) => if has_tag(s, j, seq![78u8, 68u8, 86u8]) {
            Some((Visibility { value, ndv: true }, j + 3))
        } else {
            Some((Visibility { value, ndv: false }, j))
        },
    }
}

/// One cloud entry: `NCD`, `NSC`, `CLR`, or coverage, height and type.
pub open spec fn sp_cloud(s: Seq<u8>, i: int) -> Option<(SpecCloud, int)>
    recommends
        0 <= i <= s.len(),
{
    if has_tag(s, i, seq![78u8, 67u8, 68u8]) {
        Some((SpecCloud::NCD, i + 3))
    } else if has_tag(s, i, seq![78u8, 83u8, 67u8]) {
        Some((SpecCloud::NSC, i + 3))
    } else if has_tag(s, i, seq![67u8, 76u8, 82u8]) {
        Some((SpecCloud::CLR, i + 3))
    } else {
        match sp_cloud_coverage(s, i) {
            None => None,
            Some((coverage, j1)) => match sp_cloud_height(s, j1) {
                None => None,
                Some((height, j2)) => {
                    let (cloud_type, j3) = sp_cloud_type(s, j2);
                    Some((SpecCloud::CloudData(SpecCloudData { coverage, height, cloud_type }), j3))
                },
            },
        }
    }
}

/// The coverage code of a layer, or three slashes.
pub open spec fn sp_cloud_coverage(s: Seq<u8>, i: int) -> Option<
    (OptionalData<CloudCoverage>, int),
> {
    if all_slashes(s, i, 3) {
        Some((OptionalData::Undefined, i + 3))
    } else if has_tag(s, i, seq![70u8, 69u8, 87u8]) {
        Some((OptionalData::Data(CloudCoverage::Few), i + 3))
    } else if has_tag(s, i, seq![83u8, 67u8, 84u8]) {
        Some((OptionalData::Data(CloudCoverage::Scattered), i + 3))
    } else if has_tag(s, i, seq![66u8, 75u8, 78u8]) {
        Some((OptionalData::Data(CloudCoverage::Broken), i + 3))
    } else if has_tag(s, i, seq![79u8, 86u8, 67u8]) {
        Some((OptionalData::Data(CloudCoverage::Overcast), i + 3))
    } else {
        None
    }
}

/// The base height of a layer: three digits or three slashes.
pub open spec fn sp_cloud_height(s: Seq<u8>, i: int) -> Option<(OptionalData<CloudHeight>, int)> {
    if all_slashes(s, i, 3) {
        Some((OptionalData::Undefined, i + 3))
    } else if i + 3 <= s.len() && (forall|k: int| i <= k < i + 3 ==> #[trigger] is_digit(s[k])) {
        Some(
            (OptionalData::Data(CloudHeight { height: digits_value(s, i, i + 3) as u32 }), i + 3),
        )
    } else {
        None
    }
}

/// The optional layer type: three slashes or a run of letters and digits.
pub open spec fn sp_cloud_type(s: Seq<u8>, i: int) -> (Option<OptionalData<Seq<u8>>>, int)
    recommends
        0 <= i <= s.len(),
{
    if all_slashes(s, i, 3) {
        (Some(OptionalData::Undefined), i + 3)
    } else {
        let e = alnum_run_end(s, i);
        if e == i {
            (None, i)
        } else {
            (Some(OptionalData::Data(s.subrange(i, e))), e)
        }
    }
}

/// A vertical visibility group: `VV` and three digits or three slashes.
pub open spec fn sp_vertical_visibility(s: Seq<u8>, i: int) -> Option<(VerticalVisibility, int)> {
    if has_tag(s, i, seq![86u8, 86u8]) {
        if all_slashes(s, i + 2, 3) {
            Some((VerticalVisibility { height: OptionalData::Undefined }, i + 5))
        } else if i + 5 <= s.len() && (forall|k: int|
            i + 2 <= k < i + 5 ==> #[trigger] is_digit(s[k])) {
            Some(
                (
                    VerticalVisibility {
                        height: OptionalData::Data(digits_value(s, i + 2, i + 5) as u32),
                    },
                    i + 5,
                ),
            )
        } else {
            None
        }
    } else {
        None
    }
}

/// A position one space further when a space stands at `i`.
pub open spec fn sp_opt_space(s: Seq<u8>, i: int) -> int {
    if has_tag(s, i, seq![32u8]) {
        i + 1
    } else {
        i
    }
}

/// The runway visual range entries, each preceded by at most one space.
pub open spec fn sp_rvr_list(s: Seq<u8>, i: int) -> (Seq<SpecRvr>, int)
    decreases s.len() - i when 0 <= i <= s.len()
{
    let p = sp_opt_space(s, i);
    match sp_rvr(s, p) {
        Some((v, j)) => if p < j <= s.len() {
            let (rest, k) = sp_rvr_list(s, j);
            (seq![v] + rest, k)
        } else {
            (seq![v], j)
        },
        None => (Seq::empty(), i),
    }
}

/// The present-weather groups, each preceded by at most one space.
pub open spec fn sp_pw_list(s: Seq<u8>, i: int) -> (Seq<SpecPresentWeather>, int)
    decreases s.len() - i when 0 <= i <= s.len()
{
    let p = sp_opt_space(s, i);
    match sp_present_weather(s, p) {
        Some((v, j)) => if p < j <= s.len() {
            let (rest, k) = sp_pw_list(s, j);
            (seq![v] + rest, k)
        } else {
            (seq![v], j)
        },
        None => (Seq::empty(), i),
    }
}

/// The cloud entries, each preceded by at most one space.
pub open spec fn sp_cloud_list(s: Seq<u8>, i: int) -> (Seq<SpecCloud>, int)
    decreases s.len() - i when 0 <= i <= s.len()
{
    let p = sp_opt_space(s, i);
    match sp_cloud(s, p) {
        Some((v, j)) => if p < j <= s.len() {
            let (rest, k) = sp_cloud_list(s, j);
            (seq![v] + rest, k)
        } else {
            (seq![v], j)
        },
        None => (Seq::empty(), i),
    }
}

/// The described sky state: visibility, then the three groups of entries,
/// then an optional vertical visibility.
pub open spec fn sp_described(s: Seq<u8>, i: int) -> Option<(SpecDescribedObscuration, int)>
    recommends
        0 <= i <= s.len(),
{
    match sp_visibility(s, i) {
        None => None,
        Some((visibility, j0)) => if j0 <= s.len() {
            let (rvr, j1) = sp_rvr_list(s, j0);
            let (present_weather, j2) = sp_pw_list(s, j1);
            let (clouds, j3) = sp_cloud_list(s, j2);
            let p = sp_opt_space(s, j3);
            match sp_vertical_visibility(s, p) {
                Some((vv, j4)) => Some(
                    (
                        SpecDescribedObscuration {
                            visibility,
                            rvr,
                            present_weather,
                            clouds,
                            vertical_visibility: Some(vv),
                        },
                        j4,
                    ),
                ),
                None => Some(
                    (
                        SpecDescribedObscuration {
                            visibility,
                            rvr,
                            present_weather,
                            clouds,
                            vertical_visibility: None,
                        },
                        j3,
                    ),
                ),
            }
        } else {
            None
        },
    }
}

/// The sky state: `CAVOK` or a described observation.
pub open spec fn sp_obscuration(s: Seq<u8>, i: int) -> Option<(SpecObscuration, int)>
    recommends
        0 <= i <= s.len(),
{
    if has_tag(s, i, seq![67u8, 65u8, 86u8, 79u8, 75u8]) {
        Some((SpecObscuration::Cavok, i + 5))
    } else {
        match sp_described(s, i) {
            Some((d, j)) => Some((SpecObscuration::Described(d), j)),
            None => None,
        }
    }
}

fn scan_modifier(s: &[u8], i: usize) -> (r: (Option<DistanceModifier>, usize))
    requires
        i <= s@.len(),
    ensures
        r.0 == sp_modifier(s@, i as int).0,
        r.1 as int == sp_modifier(s@, i as int).1,
        i <= r.1 <= s@.len(),
{
    let slen = s.len();
    if let Some(j) = scan_tag1(s, i, 77) {
        (Some(DistanceModifier::LessThan), j)
    } else if let Some(j) = scan_tag1(s, i, 80) {
        (Some(DistanceModifier::GreaterThan), j)
    } else {
        (None, i)
    }
}

fn scan_four_digit_field(s: &[u8], i: usize) -> (r: Option<(OptionalData<u32>, usize)>)
    requires
        i <= s@.len(),
    ensures
        match (r, sp_four_digit_field(s@, i as int)) {
            (Some((v, j)), Some((w, k))) => v == w && j as int == k && i <= j <= s@.len(),
            (None, None) => true,
            _ => false,
        },
{
    let slen = s.len();
    if scan_slashes(s, i, 4) {
        Some((OptionalData::Undefined, i + 4))
    } else {
        match scan_digits_exact(s, i, 4) {
            Some(v) => {
                proof {
                    lemma_digits_value_bound_four(s@, i as int, i + 4int);
                }
                Some((OptionalData::Data(v), i + 4))
            },
            None => None,
        }
    }
}

fn scan_rvr_trend(s: &[u8], i: usize) -> (r: (Option<Trend>, usize))
    requires
        i <= s@.len(),
    ensures
        r.0 == sp_rvr_trend(s@, i as int).0,
        r.1 as int == sp_rvr_trend(s@, i as int).1,
        i <= r.1 <= s@.len(),
{
    let slen = s.len();
    if let Some(j) = scan_tag1(s, i, 68) {
        (Some(Trend::Decreasing), j)
    } else if let Some(j) = scan_tag1(s, i, 85) {
        (Some(Trend::Increasing), j)
    } else if let Some(j) = scan_tag1(s, i, 78) {
        (Some(Trend::NoDistinctChange), j)
    } else {
        (None, i)
    }
}

/// Scans one runway visual range group at position `i`.
pub fn scan_rvr(s: &[u8], i: usize) -> (r: Option<(Rvr, usize)>)
    requires
        i <= s@.len(),
    ensures
        match (r, sp_rvr(s@, i as int)) {
            (Some((v, j)), Some((w, k))) => v@ == w && j as int == k && i < j <= s@.len(),
            (None, None) => true,
            _ => false,
        },
{
    let slen = s.len();
    let i1 = match scan_tag1(s, i, 82) {
        Some(j) => j,
        None => {
            return None;
        },
    };
    let e = scan_alnum_end(s, i1);
    if e == i1 {
        return None;
    }
    let runway = copy_range(s, i1, e);
    let e1 = match scan_tag1(s, e, 47) {
        Some(j) => j,
        None => {
            return None;
        },
    };
    let (distance_modifier, p1) = scan_modifier(s, e1);
    match scan_four_digit_field(s, p1) {
        None => None,
        Some((value, p2)) => {
            let (comment, p3) = scan_rvr_trend(s, p2);
            Some((Rvr { runway, value, distance_modifier, comment }, p3))
        },
    }
}

fn scan_fraction(s: &[u8], i: usize) -> (r: Option<((u32, u32), usize)>)
    requires
        i <= s@.len(),
    ensures
        match (r, sp_fraction(s@, i as int)) {
            (Some((v, j)), Some((w, k))) => v == w && j as int == k && i <= j <= s@.len(),
            (None, None) => true,
            _ => false,
        },
{
    let slen = s.len();
    match scan_number(s, i) {
        None => None,
        Some((n, j1)) => {
            match scan_tag1(s, j1, 47) {
                None => None,
                Some(j) => match scan_number(s, j) {
                    None => None,
                    Some((d, j2)) => Some(((n, d), j2)),
                },
            }
        },
    }
}

fn scan_statute_whole(s: &[u8], i: usize) -> (r: Option<(StatuteMilesVisibility, usize)>)
    requires
        i <= s@.len(),
    ensures
        match (r, sp_statute_whole(s@, i as int)) {
            (Some((v, j)), Some((w, k))) => v == w && j as int == k && i <= j <= s@.len(),
            (None, None) => true,
            _ => false,
        },
{
    let slen = s.len();
    let (modifier, i1) = scan_modifier(s, i);
    match scan_number(s, i1) {
        None => None,
        Some((w, j1)) => {
            if let Some(sp1) = scan_tag1(s, j1, 32) {
                match scan_fraction(s, sp1) {
                    Some(((n, d), j2)) => {
                        if let Some(j3) = scan_tag2(s, j2, 83, 77) {
                            Some(
                                (
                                    StatuteMilesVisibility {
                                        whole: Some(w),
                                        fraction: Some((n, d)),
                                        modifier,
                                    },
                                    j3,
                                ),
                            )
                        } else if let Some(j3) = scan_tag2(s, j1, 83, 77) {
                            Some(
                                (
                                    StatuteMilesVisibility {
                                        whole: Some(w),
                                        fraction: None,
                                        modifier,
                                    },
                                    j3,
                                ),
                            )
                        } else {
                            None
                        }
                    },
                    None => {
                        if let Some(j3) = scan_tag2(s, j1, 83, 77) {
                            Some(
                                (
                                    StatuteMilesVisibility {
                                        whole: Some(w),
                                        fraction: None,
                                        modifier,
                                    },
                                    j3,
                                ),
                            )
                        } else {
                            None
                        }
                    },
                }
            } else if let Some(j3) = scan_tag2(s, j1, 83, 77) {
                Some(
                    (StatuteMilesVisibility { whole: Some(w), fraction: None, modifier }, j3),
                )
            } else {
                None
            }
        },
    }
}

fn scan_statute_miles(s: &[u8], i: usize) -> (r: Option<(StatuteMilesVisibility, usize)>)
    requires
        i <= s@.len(),
    ensures
        match (r, sp_statute_miles(s@, i as int)) {
            (Some((v, j)), Some((w, k))) => v == w && j as int == k && i <= j <= s@.len(),
            (None, None) => true,
            _ => false,
        },
{
    let slen = s.len();
    let (modifier, i1) = scan_modifier(s, i);
    match scan_fraction(s, i1) {
        Some(((n, d), j)) => {
            if let Some(j2) = scan_tag2(s, j, 83, 77) {
                Some(
                    (StatuteMilesVisibility { whole: None, fraction: Some((n, d)), modifier }, j2),
                )
            } else {
                scan_statute_whole(s, i)
            }
        },
        None => scan_statute_whole(s, i),
    }
}

/// Scans the visibility group at position `i`.
pub fn scan_visibility(s: &[u8], i: usize) -> (r: Option<(Visibility, usize)>)
    requires
        i <= s@.len(),
    ensures
        match (r, sp_visibility(s@, i as int)) {
            (Some((v, j)), Some((w, k))) => v == w && j as int == k && i <= j <= s@.len(),
            (None, None) => true,
            _ => false,
        },
{
    let slen = s.len();
    let unit: Option<(VisibilityUnit, usize)> = match scan_statute_miles(s, i) {
        Some((sm, j)) => Some((VisibilityUnit::StatuteMiles(sm), j)),
        None => match scan_four_digit_field(s, i) {
            Some((v, j)) => Some((VisibilityUnit::Meters(v), j)),
            None => None,
        },
    };
    match unit {
        None => None,
        Some((value, j)) => {
            if let Some(j2) = scan_tag3(s, j, 78, 68, 86) {
                Some((Visibility { value, ndv: true }, j2))
            } else {
                Some((Visibility { value, ndv: false }, j))
            }
        },
    }
}

fn scan_cloud_coverage(s: &[u8], i: usize) -> (r: Option<(OptionalData<CloudCoverage>, usize)>)
    requires
        i <= s@.len(),
    ensures
        match (r, sp_cloud_coverage(s@, i as int)) {
            (Some((v, j)), Some((w, k))) => v == w && j as int == k && i <= j <= s@.len(),
            (None, None) => true,
            _ => false,
        },
{
    let slen = s.len();
    if scan_slashes(s, i, 3) {
        Some((OptionalData::Undefined, i + 3))
    } else if let Some(j) = scan_tag3(s, i, 70, 69, 87) {
        Some((OptionalData::Data(CloudCoverage::Few), j))
    } else if let Some(j) = scan_tag3(s, i, 83, 67, 84) {
        Some((OptionalData::Data(CloudCoverage::Scattered), j))
    } else if let Some(j) = scan_tag3(s, i, 66, 75, 78) {
        Some((OptionalData::Data(CloudCoverage::Broken), j))
    } else if let Some(j) = scan_tag3(s, i, 79, 86, 67) {
        Some((OptionalData::Data(CloudCoverage::Overcast), j))
    } else {
        None
    }
}

fn scan_cloud_height(s: &[u8], i: usize) -> (r: Option<(OptionalData<CloudHeight>, usize)>)
    requires
        i <= s@.len(),
    ensures
        match (r, sp_cloud_height(s@, i as int)) {
            (Some((v, j)), Some((w, k))) => v == w && j as int == k && i <= j <= s@.len(),
            (None, None) => true,
            _ => false,
        },
{
    let slen = s.len();
    if scan_slashes(s, i, 3) {
        Some((OptionalData::Undefined, i + 3))
    } else {
        match scan_digits_exact(s, i, 3) {
            Some(v) => {
                proof {
                    lemma_digits_value_bound_three(s@, i as int, i + 3int);
                }
                Some((OptionalData::Data(CloudHeight { height: v }), i + 3))
            },
            None => None,
        }
    }
}

fn scan_cloud_type(s: &[u8], i: usize) -> (r: (Option<OptionalData<Vec<u8>>>, usize))
    requires
        i <= s@.len(),
    ensures
        ({
            let (w, k) = sp_cloud_type(s@, i as int);
            &&& match (r.0, w) {
                (Some(OptionalData::Data(v)), Some(OptionalData::Data(ws))) => v@ == ws,
                (Some(OptionalData::Undefined), Some(OptionalData::Undefined)) => true,
                (None, None) => true,
                _ => false,
            }
            &&& r.1 as int == k
            &&& i <= r.1 <= s@.len()
        }),
{
    let slen = s.len();
    if scan_slashes(s, i, 3) {
        (Some(OptionalData::Undefined), i + 3)
    } else {
        let e = scan_alnum_end(s, i);
        if e == i {
            (None, i)
        } else {
            (Some(OptionalData::Data(copy_range(s, i, e))), e)
        }
    }
}

/// Scans one cloud entry at position `i`.
pub fn scan_cloud(s: &[u8], i: usize) -> (r: Option<(Cloud, usize)>)
    requires
        i <= s@.len(),
    ensures
        match (r, sp_cloud(s@, i as int)) {
            (Some((v, j)), Some((w, k))) => v@ == w && j as int == k && i < j <= s@.len(),
            (None, None) => true,
            _ => false,
        },
{
    let slen = s.len();
    if let Some(j) = scan_tag3(s, i, 78, 67, 68) {
        Some((Cloud::NCD, j))
    } else if let Some(j) = scan_tag3(s, i, 78, 83, 67) {
        Some((Cloud::NSC, j))
    } else if let Some(j) = scan_tag3(s, i, 67, 76, 82) {
        Some((Cloud::CLR, j))
    } else {
        match scan_cloud_coverage(s, i) {
            None => None,
            Some((coverage, j1)) => match scan_cloud_height(s, j1) {
                None => None,
                Some((height, j2)) => {
                    let (cloud_type, j3) = scan_cloud_type(s, j2);
                    Some((Cloud::CloudData(CloudData { coverage, height, cloud_type }), j3))
                },
            },
        }
    }
}

/// Scans a vertical visibility group at position `i`.
pub fn scan_vertical_visibility(s: &[u8], i: usize) -> (r: Option<(VerticalVisibility, usize)>)
    requires
        i <= s@.len(),
    ensures
        match (r, sp_vertical_visibility(s@, i as int)) {
            (Some((v, j)), Some((w, k))) => v == w && j as int == k && i <= j <= s@.len(),
            (None, None) => true,
            _ => false,
        },
{
    let slen = s.len();
    let i2 = match scan_tag2(s, i, 86, 86) {
        Some(j) => j,
        None => {
            return None;
        },
    };
    if scan_slashes(s, i2, 3) {
        Some((VerticalVisibility { height: OptionalData::Undefined }, i2 + 3))
    } else {
        match scan_digits_exact(s, i2, 3) {
            Some(v) => {
                proof {
                    lemma_digits_value_bound_three(s@, i2 as int, i2 + 3int);
                }
                Some((VerticalVisibility { height: OptionalData::Data(v) }, i2 + 3))
            },
            None => None,
        }
    }
}

fn opt_space(s: &[u8], i: usize) -> (p: usize)
    requires
        i <= s@.len(),
    ensures
        p as int == sp_opt_space(s@, i as int),
        i <= p <= s@.len(),
{
    let slen = s.len();
    proof {
        assert(seq![32u8][0] == 32u8);
    }
    if i < slen && s[i] == 32u8 {
        assert(has_tag(s@, i as int, seq![32u8]));
        i + 1
    } else {
        assert(!has_tag(s@, i as int, seq![32u8]));
        i
    }
}

fn scan_rvr_list(s: &[u8], i: usize) -> (r: (Vec<Rvr>, usize))
    requires
        i <= s@.len(),
    ensures
        deep_rvrs(r.0@) =~= sp_rvr_list(s@, i as int).0,
        r.1 as int == sp_rvr_list(s@, i as int).1,
        i <= r.1 <= s@.len(),
{
    let slen = s.len();
    let mut acc: Vec<Rvr> = Vec::new();
    let mut cur = i;
    loop
        invariant
            i <= cur <= s@.len(),
            sp_rvr_list(s@, i as int).0 =~= deep_rvrs(acc@) + sp_rvr_list(s@, cur as int).0,
            sp_rvr_list(s@, i as int).1 == sp_rvr_list(s@, cur as int).1,
        decreases s@.len() - cur,
    {
        let p = opt_space(s, cur);
        match scan_rvr(s, p) {
            Some((v, j)) => {
                proof {
                    assert(deep_rvrs(acc@.push(v)) =~= deep_rvrs(acc@).push(v@));
                }
                acc.push(v);
                assert(sp_rvr_list(s@, i as int).0 =~= deep_rvrs(acc@) + sp_rvr_list(
                    s@,
                    j as int,
                ).0);
                cur = j;
            },
            None => {
                assert(sp_rvr_list(s@, cur as int).0 =~= Seq::<SpecRvr>::empty());
                return (acc, cur);
            },
        }
    }
}

pub fn scan_pw_list(s: &[u8], i: usize) -> (r: (Vec<PresentWeather>, usize))
    requires
        i <= s@.len(),
    ensures
        deep_pws(r.0@) =~= sp_pw_list(s@, i as int).0,
        r.1 as int == sp_pw_list(s@, i as int).1,
        i <= r.1 <= s@.len(),
{
    let slen = s.len();
    let mut acc: Vec<PresentWeather> = Vec::new();
    let mut cur = i;
    loop
        invariant
            i <= cur <= s@.len(),
            sp_pw_list(s@, i as int).0 =~= deep_pws(acc@) + sp_pw_list(s@, cur as int).0,
            sp_pw_list(s@, i as int).1 == sp_pw_list(s@, cur as int).1,
        decreases s@.len() - cur,
    {
        let p = opt_space(s, cur);
        match scan_present_weather(s, p) {
            Some((v, j)) => {
                proof {
                    assert(deep_pws(acc@.push(v)) =~= deep_pws(acc@).push(v@));
                }
                if j <= p {
                    // degenerate group that consumed nothing: the list ends
                    acc.push(v);
                    assert(sp_pw_list(s@, cur as int).0 =~= seq![v@]);
                    return (acc, j);
                }
                acc.push(v);
                assert(sp_pw_list(s@, i as int).0 =~= deep_pws(acc@) + sp_pw_list(s@, j as int).0);
                cur = j;
            },
            None => {
                assert(sp_pw_list(s@, cur as int).0 =~= Seq::<SpecPresentWeather>::empty());
                return (acc, cur);
            },
        }
    }
}

pub fn scan_cloud_list(s: &[u8], i: usize) -> (r: (Vec<Cloud>, usize))
    requires
        i <= s@.len(),
    ensures
        deep_clouds(r.0@) =~= sp_cloud_list(s@, i as int).0,
        r.1 as int == sp_cloud_list(s@, i as int).1,
        i <= r.1 <= s@.len(),
{
    let slen = s.len();
    let mut acc: Vec<Cloud> = Vec::new();
    let mut cur = i;
    loop
        invariant
            i <= cur <= s@.len(),
            sp_cloud_list(s@, i as int).0 =~= deep_clouds(acc@) + sp_cloud_list(s@, cur as int).0,
            sp_cloud_list(s@, i as int).1 == sp_cloud_list(s@, cur as int).1,
        decreases s@.len() - cur,
    {
        let p = opt_space(s, cur);
        match scan_cloud(s, p) {
            Some((v, j)) => {
                proof {
                    assert(deep_clouds(acc@.push(v)) =~= deep_clouds(acc@).push(v@));
                }
                acc.push(v);
                assert(sp_cloud_list(s@, i as int).0 =~= deep_clouds(acc@) + sp_cloud_list(
                    s@,
                    j as int,
                ).0);
                cur = j;
            },
            None => {
                assert(sp_cloud_list(s@, cur as int).0 =~= Seq::<SpecCloud>::empty());
                return (acc, cur);
            },
        }
    }
}

fn scan_described(s: &[u8], i: usize) -> (r: Option<(DescribedObscuration, usize)>)
    requires
        i <= s@.len(),
    ensures
        match (r, sp_described(s@, i as int)) {
            (Some((v, j)), Some((w, k))) => v@ == w && j as int == k && i <= j <= s@.len(),
            (None, None) => true,
            _ => false,
        },
{
    let slen = s.len();
    let (visibility, j0) = match scan_visibility(s, i) {
        Some(v) => v,
        None => {
            return None;
        },
    };
    let (rvr, j1) = scan_rvr_list(s, j0);
    let (present_weather, j2) = scan_pw_list(s, j1);
    let (clouds, j3) = scan_cloud_list(s, j2);
    let p = opt_space(s, j3);
    match scan_vertical_visibility(s, p) {
        Some((vv, j4)) => {
            let d = DescribedObscuration {
                visibility,
                rvr,
                present_weather,
                clouds,
                vertical_visibility: Some(vv),
            };
            assert(d@.rvr =~= (sp_described(s@, i as int)->0).0.rvr);
            assert(d@.present_weather =~= (sp_described(s@, i as int)->0).0.present_weather);
            assert(d@.clouds =~= (sp_described(s@, i as int)->0).0.clouds);
            Some((d, j4))
        },
        None => {
            let d = DescribedObscuration {
                visibility,
                rvr,
                present_weather,
                clouds,
                vertical_visibility: None,
            };
            assert(d@.rvr =~= (sp_described(s@, i as int)->0).0.rvr);
            assert(d@.present_weather =~= (sp_described(s@, i as int)->0).0.present_weather);
            assert(d@.clouds =~= (sp_described(s@, i as int)->0).0.clouds);
            Some((d, j3))
        },
    }
}

/// Scans the sky-state group at position `i`.
pub fn scan_obscuration(s: &[u8], i: usize) -> (r: Option<(Obscuration, usize)>)
    requires
        i <= s@.len(),
    ensures
        match (r, sp_obscuration(s@, i as int)) {
            (Some((v, j)), Some((w, k))) => v@ == w && j as int == k && i <= j <= s@.len(),
            (None, None) => true,
            _ => false,
        },
{
    let slen = s.len();
    if let Some(j) = scan_tag5(s, i, 67, 65, 86, 79, 75) {
        Some((Obscuration::Cavok, j))
    } else {
        match scan_described(s, i) {
            Some((d, j)) => Some((Obscuration::Described(d), j)),
            None => None,
        }
    }
}

} // verus!
