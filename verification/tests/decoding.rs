//! Tests of the report decoder.

use es_runway_selector::metar::Metar;
use es_runway_selector::obscuration::{
    scan_cloud, scan_obscuration, Cloud, CloudCoverage, CloudData, CloudHeight,
    DescribedObscuration, Obscuration, Visibility, VisibilityUnit,
};
use es_runway_selector::nato_mil_code::NatoMilCodeType;
use es_runway_selector::optional_data::OptionalData;
use es_runway_selector::pressure::PressureUnit;
use es_runway_selector::sea_surface_indicator::{
    scan_sea_surface, CodeTable3700, SeaSurfaceIndicator, StateOfSea,
};
use es_runway_selector::temperature::{scan_temperature, TemperatureInfo};
use es_runway_selector::wind::{Track, VelocityUnit, Wind, WindDirection, WindVelocity};

#[test]
fn test_parse() {
    let lines: Vec<&[u8]> = vec![
        b"ENBR 111150Z 25006KT 9999 VCSH FEW005 SCT011 BKN014 12/10 Q1026 TEMPO SCT014 BKN020 RMK WIND 1200FT 27013KT",
        b"ENBL 111220Z 25006KT 200V290 1000 R07/0600 FG DZ SCT005 BKN010 09/09 Q1024",
        b"ENZV 111920Z 30010KT 4000 -DZ BR VV007 13/12 Q1027 TEMPO 1200 DZ VV003",
        b"ENBR 120520Z 32007KT 3500 DZ VV005 11/11 Q1026 TEMPO 9999 NSW SCT008 BKN015 RMK WIND 1200FT 33014KT",
        b"EGWC 121350Z AUTO 05002KT //// ///////// ///// Q////",
        b"ENHV 081620Z AUTO 08008KT 9999 OVC006/// 08/07 Q1001",
        b"ENMH 220550Z AUTO 30009KT 250V330 9999 BKN028/// OVC049/// 07/02 Q1016",
        b"ENGM 080920Z VRB03KT 9999 -SHSN OVC009 M09/M12 Q1024 NOSIG",
        b"ENHV 081620Z CAVOK 08008KT CAVOK 08/07 Q1001",
    ];
    for (n, line) in lines.iter().enumerate() {
        if n == lines.len() - 1 {
            // the last line is malformed on purpose
            assert!(Metar::parse(line).is_err());
        } else {
            let decoded = Metar::parse(line);
            assert!(decoded.is_ok(), "failed to decode line {}", n);
            assert_eq!(decoded.unwrap().raw, line.to_vec());
        }
    }
}

#[test]
fn test_parseble_1() {
    let input = b"ENBR 111150Z 25006KT 9999 VCSH FEW005 SCT011 BKN014 12/10 Q1026 TEMPO SCT014 BKN020 RMK WIND 1200FT 27013KT";
    let m = Metar::parse(input).unwrap();
    assert_eq!(m.icao, b"ENBR".to_vec());
    assert!(m.tempo.is_some());
    assert_eq!(m.remarks, Some(b"WIND 1200FT 27013KT".to_vec()));
}

#[test]
fn test_parseble_2() {
    let input = b"ENBL 111220Z 25006KT 200V290 1000 R07/0600 FG DZ SCT005 BKN010 09/09 Q1024";
    let m = Metar::parse(input).unwrap();
    assert_eq!(
        m.wind.varying,
        Some((Track(OptionalData::Data(200)), Track(OptionalData::Data(290))))
    );
    match m.obscuration {
        Obscuration::Described(d) => {
            assert_eq!(d.rvr.len(), 1);
            assert_eq!(d.rvr[0].runway, b"07".to_vec());
            assert_eq!(d.rvr[0].value, OptionalData::Data(600));
            assert_eq!(d.present_weather.len(), 2);
            assert_eq!(d.clouds.len(), 2);
        }
        Obscuration::Cavok => panic!("expected a described sky state"),
    }
}

#[test]
fn test_parseble_3() {
    let input = b"ENZV 111920Z 30010KT 4000 -DZ BR VV007 13/12 Q1027 TEMPO 1200 DZ VV003";
    let m = Metar::parse(input).unwrap();
    match m.obscuration {
        Obscuration::Described(d) => {
            assert!(d.vertical_visibility.is_some());
            assert_eq!(d.vertical_visibility.unwrap().height, OptionalData::Data(7));
        }
        Obscuration::Cavok => panic!("expected a described sky state"),
    }
    assert!(m.tempo.is_some());
}

#[test]
fn test_parseble_4() {
    let input = b"ENBR 120520Z 32007KT 3500 DZ VV005 11/11 Q1026 TEMPO 9999 NSW SCT008 BKN015 RMK WIND 1200FT 33014KT";
    let m = Metar::parse(input).unwrap();
    assert!(m.tempo.is_some());
    assert!(m.remarks.is_some());
}

#[test]
fn test_parseble_5() {
    let input = b"EGWC 121350Z AUTO 05002KT //// ///////// ///// Q////";
    let m = Metar::parse(input).unwrap();
    assert!(m.auto);
    assert_eq!(
        m.temperature,
        TemperatureInfo { temp: OptionalData::Undefined, dew_point: OptionalData::Undefined }
    );
    assert!(m.pressure.qnh.is_some());
    assert_eq!(m.pressure.qnh.unwrap().value, OptionalData::Undefined);
}

#[test]
fn test_unknown_type() {
    let input = b"OVC018///";
    let expected = CloudData {
        coverage: OptionalData::Data(CloudCoverage::Overcast),
        height: OptionalData::Data(CloudHeight { height: 18 }),
        cloud_type: Some(OptionalData::Undefined),
    };
    let r = scan_cloud(input, 0);
    assert_eq!(r, Some((Cloud::CloudData(expected), 9)));
}

#[test]
fn test_known_error() {
    let input = b"9999 OVC018///";
    let expected = DescribedObscuration {
        visibility: Visibility {
            value: VisibilityUnit::Meters(OptionalData::Data(9999)),
            ndv: false,
        },
        rvr: vec![],
        present_weather: vec![],
        clouds: vec![Cloud::CloudData(CloudData {
            coverage: OptionalData::Data(CloudCoverage::Overcast),
            height: OptionalData::Data(CloudHeight { height: 18 }),
            cloud_type: Some(OptionalData::Undefined),
        })],
        vertical_visibility: None,
    };
    let r = scan_obscuration(input, 0);
    assert_eq!(r, Some((Obscuration::Described(expected), 14)));
}

#[test]
fn sea_surface_indicator_test_name() {
    let cases: Vec<(&[u8], SeaSurfaceIndicator)> = vec![
        (
            b"W19/S4",
            SeaSurfaceIndicator {
                temperature: OptionalData::Data(19),
                state_of_sea: OptionalData::Data(StateOfSea::SeaSate(OptionalData::Data(
                    CodeTable3700::Moderate,
                ))),
            },
        ),
        (
            b"WM12/H75",
            SeaSurfaceIndicator {
                temperature: OptionalData::Data(-12),
                state_of_sea: OptionalData::Data(StateOfSea::SignificantWaveHeight(
                    OptionalData::Data(75),
                )),
            },
        ),
        (
            b"W///S3",
            SeaSurfaceIndicator {
                temperature: OptionalData::Undefined,
                state_of_sea: OptionalData::Data(StateOfSea::SeaSate(OptionalData::Data(
                    CodeTable3700::Slight,
                ))),
            },
        ),
        (
            b"W17/S/",
            SeaSurfaceIndicator {
                temperature: OptionalData::Data(17),
                state_of_sea: OptionalData::Data(StateOfSea::SeaSate(OptionalData::Undefined)),
            },
        ),
        (
            b"W17/H///",
            SeaSurfaceIndicator {
                temperature: OptionalData::Data(17),
                state_of_sea: OptionalData::Data(StateOfSea::SignificantWaveHeight(
                    OptionalData::Undefined,
                )),
            },
        ),
        (
            b"W22///",
            SeaSurfaceIndicator {
                temperature: OptionalData::Data(22),
                state_of_sea: OptionalData::Undefined,
            },
        ),
    ];
    for (input, expected) in cases {
        let r = scan_sea_surface(input, 0);
        assert_eq!(r, Some((expected, input.len())), "failed on {:?}", input);
    }
}

#[test]
fn temperature_test_name() {
    let r = scan_temperature(b"34/12", 0);
    assert_eq!(
        r,
        Some((TemperatureInfo { temp: OptionalData::Data(34), dew_point: OptionalData::Data(12) }, 5))
    );

    let r = scan_temperature(b"M12/M34", 0);
    assert_eq!(
        r,
        Some((
            TemperatureInfo { temp: OptionalData::Data(-12), dew_point: OptionalData::Data(-34) },
            7
        ))
    );
}

#[test]
fn test_decode_error_carries_remainder() {
    let r = Metar::parse(b"ENB");
    assert!(r.is_err());
    assert_eq!(r.unwrap_err().remainder, b"ENB".to_vec());

    // decodes through the wind group, then stops on unconsumable text
    let r = Metar::parse(b"ENBR 111150Z 25006KT 9999 12/10 Q1026 &&&");
    assert!(r.is_err());
    assert_eq!(r.unwrap_err().remainder, b" &&&".to_vec());
}

#[test]
fn test_wind_group_forms() {
    let m = Metar::parse(b"ENGM 080920Z VRB03KT 9999 M09/M12 Q1024").unwrap();
    assert_eq!(m.wind.dir, WindDirection::Variable);
    assert_eq!(
        m.wind.speed,
        WindVelocity { velocity: OptionalData::Data(3), gust: None, unit: VelocityUnit::Knots }
    );

    let m = Metar::parse(b"ENGM 080920Z 12015G25KT 9999 M09/M12 Q1024").unwrap();
    assert_eq!(m.wind.dir, WindDirection::Heading(Track(OptionalData::Data(120))));
    assert_eq!(m.wind.speed.gust, Some(25));

    let m = Metar::parse(b"ENGM 080920Z /////KT 9999 M09/M12 Q1024").unwrap();
    assert_eq!(m.wind.dir, WindDirection::Heading(Track(OptionalData::Undefined)));
    assert_eq!(m.wind.speed.velocity, OptionalData::Undefined);
    let w: Wind = m.wind;
    assert_eq!(w.varying, None);
}

#[test]
fn test_cavok_form() {
    let m = Metar::parse(b"ENHV 081620Z 08008KT CAVOK 08/07 Q1001").unwrap();
    assert_eq!(m.obscuration, Obscuration::Cavok);
}

#[test]
fn test_pressure_letters() {
    assert_eq!(PressureUnit::Hectopascals.pressure_letter(), 'Q');
    assert_eq!(PressureUnit::InchesOfMercury.pressure_letter(), 'A');
}

#[test]
fn test_timestamp_fields() {
    let m = Metar::parse(b"ENBR 111150Z 25006KT 9999 12/10 Q1026").unwrap();
    assert_eq!(m.timestamp.day, 11);
    assert_eq!(m.timestamp.hour, 11);
    assert_eq!(m.timestamp.minute, 50);
    assert!(!m.corrected);
    assert!(!m.auto);
}

#[test]
fn test_nato_code_group() {
    let m = Metar::parse(b"ENBR 111150Z 25006KT 9999 12/10 Q1026 BLU+").unwrap();
    match m.nato_mil_code {
        Some(OptionalData::Data(code)) => {
            assert_eq!(code.codes, vec![(NatoMilCodeType::Blue, Some('+'))]);
        }
        _ => panic!("expected a colour code"),
    }
}
