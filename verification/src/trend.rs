//! Trend groups of a report (`BECMG` and `TEMPO`): a partial re-statement
//! of wind, visibility, weather and cloud expectations.

use vstd::prelude::*;

use crate::obscuration::{
    deep_clouds, deep_pws, scan_cloud_list, scan_pw_list, scan_vertical_visibility,
    scan_visibility, sp_cloud_list, sp_pw_list, sp_vertical_visibility, sp_visibility, Cloud,
    PresentWeather, SpecCloud, SpecPresentWeather, VerticalVisibility, Visibility,
};
use crate::scan::{skip_spaces, space_run_end};
use crate::wind::{scan_wind, sp_wind, Wind};

verus! {

/// One trend block: each part may be restated or absent.
#[derive(Debug, Clone, PartialEq, Eq)]
pub struct Trend {
    pub wind: Option<Wind>,
    pub visibility: Option<Visibility>,
    pub expected_present_weather: Option<Vec<PresentWeather>>,
    pub cloud_layers: Option<Vec<Cloud>>,
    pub vertical_visibility: Option<VerticalVisibility>,
}

/// Mathematical image of `Trend`.
pub struct SpecTrend {
    pub wind: Option<Wind>,
    pub visibility: Option<Visibility>,
    pub expected_present_weather: Option<Seq<SpecPresentWeather>>,
    pub cloud_layers: Option<Seq<SpecCloud>>,
    pub vertical_visibility: Option<VerticalVisibility>,
}

impl View for Trend {
    type V = SpecTrend;

    open spec fn view(&self) -> SpecTrend {
        SpecTrend {
            wind: self.wind,
            visibility: self.visibility,
            expected_present_weather: match self.expected_present_weather {
                Some(ref v) => Some(deep_pws(v@)),
                None => None,
            },
            cloud_layers: match self.cloud_layers {
                Some(ref v) => Some(deep_clouds(v@)),
                None => None,
            },
            vertical_visibility: self.vertical_visibility,
        }
    }
}

/// A trend block: optional wind, visibility, a `NSW` (no significant
/// weather) mark or weather groups, cloud entries and vertical
/// visibility, in that order, each skipping leading spaces.
pub open spec fn sp_trend(s: Seq<u8>, i: int) -> (SpecTrend, int)
    recommends
        0 <= i <= s.len(),
{
    let (wind, j1) = match sp_wind(s, space_run_end(s, i)) {
        Some((w, j)) => (Some(w), j),
        None => (None, i),
    };
    let (visibility, j2) = match sp_visibility(s, space_run_end(s, j1)) {
        Some((v, j)) => (Some(v), j),
        None => (None, j1),
    };
    let nsw_p = space_run_end(s, j2);
    let nsw = crate::scan::has_tag(s, nsw_p, seq![78u8, 83u8, 87u8]);
    let j2n = if nsw {
        nsw_p + 3
    } else {
        j2
    };
    let (pws, j3) = sp_pw_list(s, j2n);
    let expected_present_weather = if nsw {
        Some(Seq::<SpecPresentWeather>::empty())
    } else if pws.len() == 0 {
        None
    } else {
        Some(pws)
    };
    let (clouds, j4) = sp_cloud_list(s, j3);
    let cloud_layers = if clouds.len() == 0 {
        None
    } else {
        Some(clouds)
    };
    let (vertical_visibility, j5) = match sp_vertical_visibility(s, space_run_end(s, j4)) {
        Some((v, j)) => (Some(v), j),
        None => (None, j4),
    };
    (
        SpecTrend {
            wind,
            visibility,
            expected_present_weather,
            cloud_layers,
            vertical_visibility,
        },
        j5,
    )
}

/// Scans a trend block at position `i`.
#[verifier::rlimit(60)]
pub fn scan_trend(s: &[u8], i: usize) -> (r: (Trend, usize))
    requires
        i <= s@.len(),
    ensures
        r.0@ == sp_trend(s@, i as int).0,
        r.1 as int == sp_trend(s@, i as int).1,
        i <= r.1 <= s@.len(),
{
    let slen = s.len();
    let (wind, j1): (Option<Wind>, usize) = match scan_wind(s, skip_spaces(s, i)) {
        Some((w, j)) => (Some(w), j),
        None => (None, i),
    };
    let (visibility, j2): (Option<Visibility>, usize) = match scan_visibility(
        s,
        skip_spaces(s, j1),
    ) {
        Some((v, j)) => (Some(v), j),
        None => (None, j1),
    };
    let nsw_p = skip_spaces(s, j2);
    let (nsw, j2n): (bool, usize) = match crate::scan::scan_tag3(s, nsw_p, 78, 83, 87) {
        Some(j) => (true, j),
        None => (false, j2),
    };
    let (pws, j3) = scan_pw_list(s, j2n);
    let expected_present_weather: Option<Vec<PresentWeather>> = if nsw {
        Some(Vec::new())
    } else if pws.len() == 0 {
        None
    } else {
        Some(pws)
    };
    proof {
        if nsw {
            assert(crate::obscuration::deep_pws(Seq::<PresentWeather>::empty()) =~= Seq::<
                SpecPresentWeather,
            >::empty());
        }
    }
    let (clouds, j4) = scan_cloud_list(s, j3);
    let cloud_layers: Option<Vec<Cloud>> = if clouds.len() == 0 {
        None
    } else {
        Some(clouds)
    };
    let (vertical_visibility, j5): (Option<VerticalVisibility>, usize) =
        match scan_vertical_visibility(s, skip_spaces(s, j4)) {
        Some((v, j)) => (Some(v), j),
        None => (None, j4),
    };
    let t = Trend { wind, visibility, expected_present_weather, cloud_layers, vertical_visibility };
    assert(t@.expected_present_weather == sp_trend(s@, i as int).0.expected_present_weather);
    assert(t@.cloud_layers == sp_trend(s@, i as int).0.cloud_layers);
    (t, j5)
}

} // verus!
