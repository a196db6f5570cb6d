//! Tests of the wind projection, the selection policies, the merge rule
//! and the output records.

use es_runway_selector::airport::{
    Airport, LocalTime, PolicyError, RunwayInUseSource, RunwaysInUse,
};
use es_runway_selector::airports::Airports;
use es_runway_selector::atis::find_runway_in_use_from_atis;
use es_runway_selector::config::{read_active_airport, RunwayConfig};
use es_runway_selector::diff_angle;
use es_runway_selector::diff_rotation;
use es_runway_selector::metar::Metar;
use es_runway_selector::optional_data::OptionalData;
use es_runway_selector::projection::{
    calculate_max_crosswind, calculate_max_headwind, CrosswindSide,
};
use es_runway_selector::runway::{Runway, RunwayDirection, RunwayUse};
use es_runway_selector::usage_map::{usage_get, usage_len};
use es_runway_selector::wind::{Track, VelocityUnit, Wind, WindDirection, WindVelocity};

fn wind_kts_dir_knots(dir: u16, knots: u16) -> Wind {
    Wind {
        dir: WindDirection::Heading(Track(OptionalData::Data(dir))),
        speed: WindVelocity {
            velocity: OptionalData::Data(knots),
            gust: None,
            unit: VelocityUnit::Knots,
        },
        varying: None,
    }
}

fn wind_kts_varying_knots(start: u16, end: u16, knots: u16) -> Wind {
    Wind {
        dir: WindDirection::Heading(Track(OptionalData::Data((start + end) / 2))),
        speed: WindVelocity {
            velocity: OptionalData::Data(knots),
            gust: None,
            unit: VelocityUnit::Knots,
        },
        varying: Some((Track(OptionalData::Data(start)), Track(OptionalData::Data(end)))),
    }
}

fn rwy(degrees: u16, identifier: &[u8]) -> RunwayDirection {
    RunwayDirection { degrees, identifier: identifier.to_vec() }
}

#[test]
fn test_diff_angle() {
    assert_eq!(diff_angle(10, 350), 20);
    assert_eq!(diff_angle(0, 180), 180);
    assert_eq!(diff_angle(270, 90), 180);
    assert_eq!(diff_angle(90, 270), 180);
    assert_eq!(diff_angle(0, 0), 0);
}

#[test]
fn test_diff_rotation() {
    assert_eq!(diff_rotation(10, 350), 20);
    assert_eq!(diff_rotation(0, 180), 180);
    assert_eq!(diff_rotation(270, 90), 180);
    assert_eq!(diff_rotation(90, 270), 180);
    assert_eq!(diff_rotation(0, 0), 0);
}

#[test]
fn test_calculate_max_crosswind() {
    let wind = wind_kts_dir_knots(270, 10);
    let runway = rwy(360, b"36");
    let crosswind = calculate_max_crosswind(&runway, &wind).unwrap();
    assert_eq!(crosswind.magnitude, 10);
    assert_eq!(crosswind.side, CrosswindSide::Left);
}

#[test]
fn test_calculate_max_headwind() {
    let wind = wind_kts_dir_knots(360, 10);
    let runway = rwy(360, b"36");
    let headwind = calculate_max_headwind(&runway, &wind).unwrap();
    assert_eq!(headwind, 10);
}

#[test]
fn test_calculate_max_headwind_with_varying_direction_should_not_return_full_strength() {
    let wind = wind_kts_varying_knots(250, 330, 9);
    // opposite direction to the wind, i.e. mostly tailwind
    let runway = rwy(167, b"17");
    let result = calculate_max_headwind(&runway, &wind).unwrap();
    assert!(result < 9, "expected headwind < 9 knots, got {}", result);
}

#[test]
fn test_single_direction_headwind() {
    let runway = rwy(180, b"18");
    let wind = wind_kts_dir_knots(180, 10);
    let headwind = calculate_max_headwind(&runway, &wind).unwrap();
    assert_eq!(headwind, 10);
}

#[test]
fn test_varying_crosses_runway_heading() {
    let runway = rwy(180, b"18");
    let wind = wind_kts_varying_knots(150, 210, 10);
    let headwind = calculate_max_headwind(&runway, &wind).unwrap();
    assert_eq!(headwind, 10, "should be full strength inside the arc");
}

#[test]
fn test_varying_does_not_cross_runway_heading() {
    let runway = rwy(180, b"18");
    let wind = wind_kts_varying_knots(120, 150, 10);
    let headwind = calculate_max_headwind(&runway, &wind).unwrap();
    assert!(headwind < 10, "expected partial headwind, got {}", headwind);
    assert!(headwind > 0, "expected nonzero headwind");
}

#[test]
fn test_varying_wraparound_crosses_runway_heading() {
    let runway = rwy(10, b"01");
    let wind = wind_kts_varying_knots(350, 30, 12);
    let headwind = calculate_max_headwind(&runway, &wind).unwrap();
    assert_eq!(headwind, 12, "should be full strength inside the wrapped arc");
}

#[test]
fn test_varying_wraparound_does_not_cross_runway_heading() {
    let runway = rwy(270, b"27");
    let wind = wind_kts_varying_knots(300, 60, 12);
    let headwind = calculate_max_headwind(&runway, &wind).unwrap();
    assert!(headwind < 12, "expected partial headwind, got {}", headwind);
}

#[test]
fn test_projection_recomposes_speed() {
    // the head- and crosswind components recompose the reported speed up
    // to rounding
    let runway = rwy(360, b"36");
    let wind = wind_kts_dir_knots(30, 10);
    let h = calculate_max_headwind(&runway, &wind).unwrap() as i64;
    let c = calculate_max_crosswind(&runway, &wind).unwrap().magnitude as i64;
    let d = h * h + c * c - 100;
    assert!(-44 <= d && d <= 44, "got {}", d);
    assert_eq!(h, 9);
    assert_eq!(c, 5);
}

#[test]
fn test_headwind_magnitude_never_exceeds_speed() {
    let runway = rwy(45, b"04");
    for dir in [0u16, 45, 90, 135, 180, 225, 270, 315, 360] {
        let wind = wind_kts_dir_knots(dir, 17);
        let h = calculate_max_headwind(&runway, &wind).unwrap();
        assert!(-17 <= h && h <= 17);
    }
    let wind = wind_kts_varying_knots(300, 60, 23);
    let h = calculate_max_headwind(&runway, &wind).unwrap();
    assert!(-23 <= h && h <= 23);
}

#[test]
fn test_crosswind_sides() {
    let runway = rwy(360, b"36");
    // wind rotated clockwise from the heading comes from the right
    let right = calculate_max_crosswind(&runway, &wind_kts_dir_knots(90, 10)).unwrap();
    assert_eq!(right.side, CrosswindSide::Right);
    assert_eq!(right.magnitude, 10);
    // counter-clockwise comes from the left
    let left = calculate_max_crosswind(&runway, &wind_kts_dir_knots(270, 10)).unwrap();
    assert_eq!(left.side, CrosswindSide::Left);
    // the opposite runway end reports the swapped side
    let opposite = rwy(180, b"18");
    let swapped = calculate_max_crosswind(&opposite, &wind_kts_dir_knots(90, 10)).unwrap();
    assert_eq!(swapped.side, CrosswindSide::Left);
    assert_eq!(swapped.magnitude, right.magnitude);
}

#[test]
fn test_arc_straddling_reciprocal_gives_full_headwind() {
    // the arc contains the heading 190: its own headwind query gets the
    // full reported speed
    let wind = wind_kts_varying_knots(185, 195, 14);
    let reciprocal_end = rwy(190, b"19");
    let headwind = calculate_max_headwind(&reciprocal_end, &wind).unwrap();
    assert_eq!(headwind, 14);
    // the opposite end sees a near-full tailwind, not a headwind
    let runway = rwy(10, b"01");
    let tailwind = calculate_max_headwind(&runway, &wind).unwrap();
    assert_eq!(tailwind, -13);
}

#[test]
fn test_variable_crosswind_straddling_both_perpendiculars() {
    let runway = rwy(360, b"36");
    // the arc contains both 90 and 270
    let wind = wind_kts_varying_knots(80, 280, 12);
    let crosswind = calculate_max_crosswind(&runway, &wind).unwrap();
    assert_eq!(crosswind.magnitude, 12);
    assert_eq!(crosswind.side, CrosswindSide::Variable);
}

#[test]
fn test_aligned_wind_is_calm_crosswind() {
    let runway = rwy(90, b"09");
    let wind = wind_kts_dir_knots(90, 10);
    let headwind = calculate_max_headwind(&runway, &wind).unwrap();
    let crosswind = calculate_max_crosswind(&runway, &wind).unwrap();
    assert_eq!(headwind, 10);
    assert!(crosswind.magnitude <= 1);
}

#[test]
fn test_unresolvable_speed_gives_no_result() {
    let runway = rwy(90, b"09");
    let wind = Wind {
        dir: WindDirection::Heading(Track(OptionalData::Data(90))),
        speed: WindVelocity {
            velocity: OptionalData::Undefined,
            gust: None,
            unit: VelocityUnit::Knots,
        },
        varying: None,
    };
    assert_eq!(calculate_max_headwind(&runway, &wind), None);
    assert_eq!(calculate_max_crosswind(&runway, &wind), None);
}

#[test]
fn test_merge_rule() {
    assert_eq!(RunwayUse::Arriving.merged_with(RunwayUse::Departing), RunwayUse::Both);
    assert_eq!(RunwayUse::Departing.merged_with(RunwayUse::Arriving), RunwayUse::Both);
    assert_eq!(RunwayUse::Both.merged_with(RunwayUse::Arriving), RunwayUse::Both);
    assert_eq!(RunwayUse::Arriving.merged_with(RunwayUse::Both), RunwayUse::Both);
    // idempotent
    assert_eq!(RunwayUse::Arriving.merged_with(RunwayUse::Arriving), RunwayUse::Arriving);
    assert_eq!(RunwayUse::Departing.merged_with(RunwayUse::Departing), RunwayUse::Departing);
    // commutative on every pair
    for a in [RunwayUse::Arriving, RunwayUse::Departing, RunwayUse::Both] {
        for b in [RunwayUse::Arriving, RunwayUse::Departing, RunwayUse::Both] {
            assert_eq!(a.merged_with(b), b.merged_with(a));
        }
    }
}

#[test]
fn test_runway_use_outputs() {
    assert_eq!(RunwayUse::Arriving.report_suffix(), " Arr");
    assert_eq!(RunwayUse::Departing.report_suffix(), " Dep");
    assert_eq!(RunwayUse::Both.report_suffix(), "");
    assert_eq!(RunwayUse::Departing.active_runway_flags(), vec![1]);
    assert_eq!(RunwayUse::Arriving.active_runway_flags(), vec![0]);
    assert_eq!(RunwayUse::Both.active_runway_flags(), vec![1, 0]);
}

fn airport_with(icao: &[u8], pairs: Vec<((u16, &[u8]), (u16, &[u8]))>, metar: Option<Metar>) -> Airport {
    let runways = pairs
        .into_iter()
        .map(|(a, b)| Runway { runways: [rwy(a.0, a.1), rwy(b.0, b.1)] })
        .collect();
    Airport {
        icao: icao.to_vec(),
        metar,
        runways,
        runways_in_use: RunwaysInUse::none(),
    }
}

fn noon() -> LocalTime {
    LocalTime { hour: 12, minute: 0 }
}

#[test]
fn test_for_enhv() {
    let metar = Metar::parse(b"ENHV 081620Z AUTO 08008KT 9999 OVC006/// 08/07 Q1001").unwrap();
    let ap = airport_with(b"ENHV", vec![((80, b"08"), (260, b"26"))], Some(metar));
    let sel = ap.set_runway_based_on_metar_wind(None, noon()).unwrap();
    assert_eq!(usage_len(&sel), 1);
    assert_eq!(usage_get(&sel, b"08"), Some(RunwayUse::Both));
}

#[test]
fn test_enhv_scenario_projection() {
    let metar = Metar::parse(b"ENHV 081620Z AUTO 08008KT 9999 OVC006/// 08/07 Q1001").unwrap();
    let r08 = rwy(80, b"08");
    let r26 = rwy(260, b"26");
    let headwind = calculate_max_headwind(&r08, &metar.wind).unwrap();
    let crosswind = calculate_max_crosswind(&r08, &metar.wind).unwrap();
    assert_eq!(headwind, 8);
    assert!(crosswind.magnitude <= 1);
    let tailwind = calculate_max_headwind(&r26, &metar.wind).unwrap();
    assert!(tailwind <= -7);
}

#[test]
fn test_metar_enmh() {
    let metar =
        Metar::parse(b"ENMH 220550Z AUTO 30009KT 250V330 9999 BKN028/// OVC049/// 07/02 Q1016")
            .unwrap();
    let ap = airport_with(b"ENMH", vec![((350, b"35"), (170, b"17"))], Some(metar));
    let mut airports = Airports::new();
    airports.add_airport(ap);
    airports.runway_in_use_based_on_metar(&RunwayConfig::new(), noon());
    let a = airports.get(b"ENMH").unwrap();
    let sel = a.runways_in_use.metar.as_ref().unwrap();
    assert_eq!(usage_len(sel), 1);
    assert_eq!(usage_get(sel, b"35"), Some(RunwayUse::Both));
}

#[test]
fn test_engm_segregated_fallback_scenario() {
    // no usable wind pick, no configured default, de-icing weather during
    // the day: departures on the left, arrivals on the right of runway 01
    let metar =
        Metar::parse(b"ENGM 080920Z VRB03KT 9999 -SHSN OVC009 M09/M12 Q1024 NOSIG").unwrap();
    let ap = airport_with(
        b"ENGM",
        vec![((10, b"01L"), (190, b"19R")), ((10, b"01R"), (190, b"19L"))],
        Some(metar),
    );
    let sel = ap.set_runway_based_on_metar_wind(None, LocalTime { hour: 9, minute: 20 }).unwrap();
    assert_eq!(usage_len(&sel), 2);
    assert_eq!(usage_get(&sel, b"01L"), Some(RunwayUse::Departing));
    assert_eq!(usage_get(&sel, b"01R"), Some(RunwayUse::Arriving));
}

#[test]
fn test_engm_single_mode_at_night() {
    let metar = Metar::parse(b"ENGM 080020Z VRB03KT 9999 OVC090 05/01 Q1024").unwrap();
    let ap = airport_with(
        b"ENGM",
        vec![((10, b"01L"), (190, b"19R")), ((10, b"01R"), (190, b"19L"))],
        Some(metar),
    );
    let sel = ap.set_runway_based_on_metar_wind(None, LocalTime { hour: 0, minute: 20 }).unwrap();
    assert_eq!(usage_len(&sel), 1);
    assert_eq!(usage_get(&sel, b"01L"), Some(RunwayUse::Both));
}

#[test]
fn test_engm_invalid_runway_number_is_typed_error() {
    let metar = Metar::parse(b"ENGM 080020Z VRB03KT 9999 OVC090 05/01 Q1024").unwrap();
    let ap = airport_with(
        b"ENGM",
        vec![((10, b"01L"), (190, b"19R")), ((10, b"01R"), (190, b"19L"))],
        Some(metar),
    );
    // a configured default with no canonical single runway, at night
    let r = ap.set_runway_based_on_metar_wind(Some(7), LocalTime { hour: 23, minute: 0 });
    assert_eq!(r.unwrap_err(), PolicyError::InvalidEngmRunway);
}

#[test]
fn test_general_policy_undecided_is_typed_error() {
    // equal headwinds on both ends: no confident pick
    let metar = Metar::parse(b"ENXX 080920Z 09010KT 9999 05/01 Q1024").unwrap();
    let ap = airport_with(b"ENXX", vec![((360, b"36"), (180, b"18"))], Some(metar));
    let r = ap.set_runway_based_on_metar_wind(None, noon());
    assert_eq!(r.unwrap_err(), PolicyError::NoRunwayToSet);
}

#[test]
fn test_unsupported_configuration_is_typed_error() {
    let metar = Metar::parse(b"ENXX 080920Z 09010KT 9999 05/01 Q1024").unwrap();
    let ap = airport_with(
        b"ENXX",
        vec![((360, b"36"), (180, b"18")), ((90, b"09"), (270, b"27"))],
        Some(metar),
    );
    let r = ap.set_runway_based_on_metar_wind(None, noon());
    assert_eq!(r.unwrap_err(), PolicyError::UnsupportedAirportConfiguration);
}

#[test]
fn test_enzv_keeps_main_runway_below_crosswind_limit() {
    // wind straight down runway 18: no crosswind, keep the main runway
    let metar = Metar::parse(b"ENZV 080920Z 18010KT 9999 05/01 Q1024").unwrap();
    let ap = airport_with(
        b"ENZV",
        vec![((180, b"18"), (360, b"36")), ((100, b"10"), (280, b"28"))],
        Some(metar),
    );
    let sel = ap.set_runway_based_on_metar_wind(None, noon()).unwrap();
    assert_eq!(usage_len(&sel), 1);
    assert_eq!(usage_get(&sel, b"18"), Some(RunwayUse::Both));
}

#[test]
fn test_enzv_switches_on_lower_crosswind() {
    // strong wind from the east: heavy crosswind on 18/36, much less on
    // 10/28, so the alternate pair takes over
    let metar = Metar::parse(b"ENZV 080920Z 09020KT 9999 05/01 Q1024").unwrap();
    let ap = airport_with(
        b"ENZV",
        vec![((180, b"18"), (360, b"36")), ((100, b"10"), (280, b"28"))],
        Some(metar),
    );
    let sel = ap.set_runway_based_on_metar_wind(None, noon()).unwrap();
    assert_eq!(usage_len(&sel), 1);
    assert_eq!(usage_get(&sel, b"10"), Some(RunwayUse::Both));
}

#[test]
fn test_arc_over_one_end_picks_into_wind_runway() {
    // wind straight down runway 18, wandering between 150 and 210: the
    // arc covers 180 (full headwind there) but not 360, whose query sees a
    // near-full tailwind, so the general policy picks 18
    let metar = Metar::parse(b"ENXX 080920Z 18010KT 150V210 9999 05/01 Q1024").unwrap();
    let ap = airport_with(b"ENXX", vec![((180, b"18"), (360, b"36"))], Some(metar));
    let sel = ap.set_runway_based_on_metar_wind(None, noon()).unwrap();
    assert_eq!(usage_len(&sel), 1);
    assert_eq!(usage_get(&sel, b"18"), Some(RunwayUse::Both));
}

#[test]
fn test_enzv_single_pair_keeps_fallback() {
    // strong crosswind but no alternate pair to compare: the main runway
    // stays selected
    let metar = Metar::parse(b"ENZV 080920Z 09020KT 9999 05/01 Q1024").unwrap();
    let ap = airport_with(b"ENZV", vec![((180, b"18"), (360, b"36"))], Some(metar));
    let sel = ap.set_runway_based_on_metar_wind(None, noon()).unwrap();
    assert_eq!(usage_len(&sel), 1);
    assert_eq!(usage_get(&sel, b"18"), Some(RunwayUse::Both));
}

#[test]
fn test_selection_precedence() {
    // all three sources present: the effective selection is the
    // bulletin-sourced one
    let atis = find_runway_in_use_from_atis(b"RUNWAY IN USE 19L");
    let mut metar_sel = es_runway_selector::usage_map::new_usage_map();
    es_runway_selector::usage_map::usage_insert(&mut metar_sel, b"01R".to_vec(), RunwayUse::Both);
    let mut fallback_sel = es_runway_selector::usage_map::new_usage_map();
    es_runway_selector::usage_map::usage_insert(
        &mut fallback_sel,
        b"07".to_vec(),
        RunwayUse::Both,
    );
    let ru = RunwaysInUse { atis: Some(atis), metar: Some(metar_sel), fallback: Some(fallback_sel) };
    let eff = ru.effective().unwrap();
    assert_eq!(usage_len(eff), 1);
    assert_eq!(usage_get(eff, b"19L"), Some(RunwayUse::Both));
}

#[test]
fn test_find_runway_in_use_from_atis() {
    let text = b"RUNWAY IN USE 19L";
    let map = find_runway_in_use_from_atis(text);
    assert_eq!(usage_len(&map), 1);
    assert_eq!(usage_get(&map, b"19L"), Some(RunwayUse::Both));
}

#[test]
fn test_atis_phrasings() {
    let map = find_runway_in_use_from_atis(b"EXPECT ILS APPROACH RWY 01R IN OPERATION");
    assert_eq!(usage_get(&map, b"01R"), Some(RunwayUse::Arriving));

    let map = find_runway_in_use_from_atis(b"EXPECT ILS APPROACH RUNWAY 01R SHORTLY");
    assert_eq!(usage_get(&map, b"01R"), Some(RunwayUse::Arriving));

    let map = find_runway_in_use_from_atis(b"DEPARTURE RUNWAY 01L .. MORE TEXT");
    assert_eq!(usage_get(&map, b"01L"), Some(RunwayUse::Departing));

    let map = find_runway_in_use_from_atis(b"RUNWAYS 10 AND 28 IN USE TODAY");
    assert_eq!(usage_len(&map), 2);
    assert_eq!(usage_get(&map, b"10"), Some(RunwayUse::Both));
    assert_eq!(usage_get(&map, b"28"), Some(RunwayUse::Both));

    // repeated mentions of one runway combine under the merge rule
    let map =
        find_runway_in_use_from_atis(b"APPROACH RWY 01L .. DEPARTURE RUNWAY 01L .. GOOD DAY");
    assert_eq!(usage_len(&map), 1);
    assert_eq!(usage_get(&map, b"01L"), Some(RunwayUse::Both));

    let map = find_runway_in_use_from_atis(b"NOTHING RELEVANT HERE");
    assert_eq!(usage_len(&map), 0);
}

#[test]
fn test_engm_single_atis() {
    let atis = b"OSLO GARDERMOEN INFORMATION LIMA .. TIME 1550 .. EXPECT ILS OR RNP APPROACH RUNWAY 01R .. DEPARTURE RUNWAY 01L IN USE .. RCR RWY 01L AT TIME 1427 .. RWYCC 3/3/3 .. 100 PERCENT 06 MM DRY SNOW .. RCR RWY 01R AT TIME 1429 .. RWYCC 3/3/3 .. 100 PERCENT 04 MM DRY SNOW .. TRANSITION LEVEL 85 .. FOR CLEARANCE AND START UP, CONTACT POLARIS CONTROL 121.550 .. MET REPORT .. WIND 020 DEGREES 3 KNOTS .. VISIBILITY 6 KM .. CLOUDS SCT 700 FT BKN 1500 FT .. LIGHT SNOW .. TMP -4 DP -5 .. QNH 1010 .. ACKNOWLEDGE INFORMATION LIMA ON FIRST CONTACT.";
    let a = find_runway_in_use_from_atis(atis);
    assert_eq!(usage_len(&a), 2);
    assert_eq!(usage_get(&a, b"01L"), Some(RunwayUse::Departing));
    assert_eq!(usage_get(&a, b"01R"), Some(RunwayUse::Arriving));
}

#[test]
fn test_engm_split() {
    let arr = b"OSLO GARDERMOEN ARRIVAL INFORMATION CHARLIE .. TIME 1750 .. EXPECT ILS OR RNP APPROACH RUNWAY 01R .. RCR RWY 01R AT TIME 1700 .. RWYCC 4/4/4 .. 100 PERCENT 03 MM DRY SNOW .. CAUTION SLIPPERY TAXIWAYS AND RWY EXITS .. TRANSITION LEVEL 85 .. AIRMET INDIA 04 VALID .. MET REPORT .. WIND 050 DEGREES 4 KNOTS .. VISIBILITY 3300 METERS .. CLOUDS FEW 700 FT SCT 2000 FT OVC 2700 FT .. LIGHT SNOW .. TMP -3 DP -4 .. QNH 1010 .. ACKNOWLEDGE INFORMATION CHARLIE ON FIRST CONTACT.";
    let dep = b"OSLO GARDERMOEN DEPARTURE INFORMATION HOTEL .. TIME 1750 .. RUNWAY 01L IN USE .. RCR RWY 01L AT TIME 1621 .. RWYCC 4/4/4 .. 100 PERCENT 03 MM DRY SNOW .. CAUTION SLIPPERY TAXIWAYS AND RWY EXITS .. ADVISE IF DE-ICE IS REQUIRED ON FIRST CONTACT WITH ATC .. FOR EN-ROUTE CLEARANCE REQUEST VIA DATALINK OR CONTACT TOWER 118.305 .. AIRMET INDIA 04 VALID .. MET REPORT .. WIND 050 DEGREES 4 KNOTS .. VISIBILITY 3300 METERS .. CLOUDS FEW 700 FT SCT 2000 FT OVC 2700 FT .. LIGHT SNOW .. TMP -3 DP -4 .. QNH 1010 .. ACKNOWLEDGE INFORMATION HOTEL ON FIRST CONTACT.";
    let a = find_runway_in_use_from_atis(arr);
    let d = find_runway_in_use_from_atis(dep);
    assert_eq!(
        es_runway_selector::usage_map::usage_get_index(&a, 0),
        Some((b"01R".to_vec(), RunwayUse::Arriving))
    );
    assert_eq!(
        es_runway_selector::usage_map::usage_get_index(&d, 0),
        Some((b"01L".to_vec(), RunwayUse::Departing))
    );
}

#[test]
fn test_apply_atis_merges_usages() {
    let metar = Metar::parse(b"ENGM 080920Z VRB03KT 9999 05/01 Q1024").unwrap();
    let ap = airport_with(b"ENGM", vec![((10, b"01L"), (190, b"19R"))], Some(metar));
    let mut airports = Airports::new();
    airports.add_airport(ap);
    airports.apply_atis_text(b"ENGM", b"DEPARTURE RUNWAY 01L IN OPERATION");
    airports.apply_atis_text(b"ENGM", b"EXPECT ILS APPROACH RWY 01L SHORTLY");
    let a = airports.get(b"ENGM").unwrap();
    let sel = a.runways_in_use.atis.as_ref().unwrap();
    // departing merged with arriving gives both
    assert_eq!(usage_get(sel, b"01L"), Some(RunwayUse::Both));
}

#[test]
fn test_default_runways_applied_when_nothing_selected() {
    let ap = airport_with(b"ENXX", vec![((360, b"36"), (180, b"18"))], None);
    let mut airports = Airports::new();
    airports.add_airport(ap);
    let mut config = RunwayConfig::new();
    config.default_runways.push((b"ENXX".to_vec(), 7));
    airports.apply_default_runways(&config);
    let a = airports.get(b"ENXX").unwrap();
    let sel = a.runways_in_use.fallback.as_ref().unwrap();
    assert_eq!(usage_get(sel, b"07"), Some(RunwayUse::Both));
}

#[test]
fn test_airports_without_config_are_surfaced() {
    let a1 = airport_with(b"ENAA", vec![((360, b"36"), (180, b"18"))], None);
    let a2 = airport_with(b"ENBB", vec![((360, b"36"), (180, b"18"))], None);
    let mut airports = Airports::new();
    airports.add_airport(a1);
    airports.add_airport(a2);
    airports.apply_atis_text(b"ENAA", b"RUNWAY IN USE 36");
    let missing = airports.airports_without_runway_config();
    assert_eq!(missing.len(), 1);
    assert_eq!(missing[0], 1);
}

#[test]
fn test_sort_orders_by_identifier() {
    let mut airports = Airports::new();
    airports.add_airport(airport_with(b"ENZV", vec![], None));
    airports.add_airport(airport_with(b"ENAA", vec![], None));
    airports.add_airport(airport_with(b"ENGM", vec![], None));
    airports.sort();
    let ids = airports.identifiers();
    assert_eq!(ids, vec![b"ENAA".to_vec(), b"ENGM".to_vec(), b"ENZV".to_vec()]);
}

#[test]
fn test_active_runway_records() {
    let metar = Metar::parse(b"ENHV 081620Z AUTO 08008KT 9999 OVC006/// 08/07 Q1001").unwrap();
    let ap = airport_with(b"ENHV", vec![((80, b"08"), (260, b"26"))], Some(metar));
    let mut airports = Airports::new();
    airports.add_airport(ap);
    airports.runway_in_use_based_on_metar(&RunwayConfig::new(), noon());
    let records = airports.active_runway_records();
    assert_eq!(
        records,
        vec![b"ACTIVE_RUNWAY:ENHV:08:1".to_vec(), b"ACTIVE_RUNWAY:ENHV:08:0".to_vec()]
    );
}

#[test]
fn test_selection_counts() {
    let a1 = airport_with(b"ENAA", vec![((360, b"36"), (180, b"18"))], None);
    let a2 = airport_with(b"ENBB", vec![((360, b"36"), (180, b"18"))], None);
    let mut airports = Airports::new();
    airports.add_airport(a1);
    airports.add_airport(a2);
    airports.apply_atis_text(b"ENAA", b"RUNWAY IN USE 36");
    let (atis, metar, fallback, none) = airports.selection_counts();
    assert_eq!((atis, metar, fallback, none), (1, 0, 0, 1));
}

#[test]
fn config_test_read_active_airports() {
    let lines: Vec<Vec<u8>> = vec![
        b"ACTIVE_AIRPORT:ENVA:1".to_vec(),
        b"ACTIVE_AIRPORT:ENBR:1".to_vec(),
        b"ACTIVE_AIRPORT:ENBO:0".to_vec(),
        b"ACTIVE_RUNWAY:ENZV:18:1".to_vec(),
        b"ACTIVE_RUNWAY:ENZV:18:0".to_vec(),
    ];
    let kept = read_active_airport(&lines);
    assert_eq!(
        kept,
        vec![
            b"ACTIVE_AIRPORT:ENVA:1".to_vec(),
            b"ACTIVE_AIRPORT:ENBR:1".to_vec(),
            b"ACTIVE_AIRPORT:ENBO:0".to_vec(),
        ]
    );
}

#[test]
fn test_default_sort_order() {
    assert_eq!(
        RunwayInUseSource::default_sort_order(),
        [RunwayInUseSource::Atis, RunwayInUseSource::Metar, RunwayInUseSource::Default]
    );
}

#[test]
fn airports_test_name() {
}
