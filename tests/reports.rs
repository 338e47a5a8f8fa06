use metar::{
    parse_obs_time, parse_pressure, parse_temperatures, ObservationTimeError, PressureError, TemperatureError, Time,
    parse_station, parse_wind_varying, CloudDensity, CloudLayer, CloudType, Clouds, ColourCode, CompassDirection,
    Data, ErrorVariant, ExpectedNext, Kind, Metar, MetarError, Pressure, RunwayContamination, RvrTrend,
    RvrUnit, RvrValue, RvrValueInner, StationError, Trend, TrendTime, VerticalVisibility, Visibility, Weather,
    WeatherCondition, Wind, WindDirection, WindSpeed, WindVaryingError, WindshearWarnings,
};

fn layer(density: CloudDensity, height: u32, kind: CloudType) -> CloudLayer {
    CloudLayer { density: Data::Known(density), kind: Data::Known(kind), height: Data::Known(height) }
}

#[test]
fn pressure_without_unit_points_at_its_token() {
    let text = "EGHI 282120Z 19015KT 140V220 6000 RA SCT006 BKN009 16/14 1006";
    let errs = Metar::parse(text).unwrap_err();
    assert_eq!(errs.len(), 1);
    assert_eq!(errs[0].start, text.len() - 4);
    assert_eq!(errs[0].end, text.len());
    assert_eq!(&text[errs[0].start..errs[0].end], "1006");
    match &errs[0].variant {
        ErrorVariant::ExpectedFound { expected, found } => {
            assert_eq!(*found, Some('1'));
            assert!(expected.contains(&ExpectedNext::Literal { value: "Q".to_string() }));
            assert!(expected.contains(&ExpectedNext::Literal { value: "A".to_string() }));
            assert!(expected.contains(&ExpectedNext::EndOfInput));
        },
        other => panic!("unexpected variant {:?}", other),
    }
}

#[test]
fn parsing_twice_gives_the_same_result() {
    let text = "ZGSZ 061900Z 13005MPS 9999 -TSRA FEW015 FEW026CB BKN030 26/25 Q1002 RESHRA BECMG AT1920 -SHRA";
    assert_eq!(Metar::parse(text), Metar::parse(text));
    let bad = "EGHI 282120Z 19015KT 140V220 6000 RA SCT006 BKN009 16/14 1006";
    assert_eq!(Metar::parse(bad), Metar::parse(bad));
}

#[test]
fn out_of_range_times_are_named() {
    let e = Metar::parse("EGHI 322120Z 19015KT 16/14 Q1006").unwrap_err();
    assert_eq!(e[0].variant, ErrorVariant::InvalidDate);
    assert_eq!((e[0].start, e[0].end), (5, 12));
    let e = Metar::parse("EGHI 282420Z 19015KT 16/14 Q1006").unwrap_err();
    assert_eq!(e[0].variant, ErrorVariant::InvalidHour);
    let e = Metar::parse("EGHI 282160Z 19015KT 16/14 Q1006").unwrap_err();
    assert_eq!(e[0].variant, ErrorVariant::InvalidMinute);
}

#[test]
fn every_time_in_range_parses() {
    for d in 0..=31u8 {
        for h in 0..=23u8 {
            let text = format!("{:02}{:02}59Z", d, h);
            assert_eq!(Time::parse(&text).unwrap(), Time { date: d, hour: h, minute: 59 });
        }
    }
    assert!(Time::parse("990000Z").is_err());
    assert!(Time::parse("0000Z").is_err());
}

#[test]
fn heading_above_360_is_named() {
    let e = Metar::parse("EGHI 282120Z 37015KT 16/14 Q1006").unwrap_err();
    assert_eq!(e[0].variant, ErrorVariant::InvalidWindHeading);
    assert_eq!((e[0].start, e[0].end), (13, 20));
    let e = Metar::parse("EGHI 282120Z 19015KT 140V370 16/14 Q1006").unwrap_err();
    assert_eq!(e[0].variant, ErrorVariant::InvalidWindHeading);
    let r = Metar::parse("EGHI 282120Z 36015KT 16/14 Q1006").unwrap();
    assert_eq!(
        r.wind,
        Wind::Present {
            dir: WindDirection::Heading(Data::Known(360)),
            speed: WindSpeed::Knots { speed: Data::Known(15), gusting: None },
            varying: None,
        }
    );
}

#[test]
fn runway_number_out_of_range_is_named() {
    let e = Metar::parse("EGHI 282120Z 19015KT 6000 R40/1000 16/14 Q1006").unwrap_err();
    assert_eq!(e[0].variant, ErrorVariant::InvalidRvrRunwayNumber);
    assert_eq!((e[0].start, e[0].end), (26, 34));
    let r = Metar::parse("EGHI 282120Z 19015KT 6000 R88/1000 16/14 Q1006").unwrap();
    assert_eq!(r.rvr[0].runway, "88");
}

#[test]
fn unknown_data_in_trend_is_named() {
    let e = Metar::parse("EGHI 282120Z 19015KT 16/14 Q1006 TEMPO SCT///").unwrap_err();
    assert_eq!(e[0].variant, ErrorVariant::TrendDataCannotBeUnknown);
    let e = Metar::parse("EGHI 282120Z 19015KT 16/14 Q1006 BECMG ///10KT").unwrap_err();
    assert_eq!(e[0].variant, ErrorVariant::TrendDataCannotBeUnknown);
}

#[test]
fn end_of_input_is_reported_as_nothing_found() {
    let e = Metar::parse("EGHI").unwrap_err();
    assert_eq!(e[0].start, 5.min(4));
    match &e[0].variant {
        ErrorVariant::ExpectedFound { found, .. } => assert_eq!(*found, None),
        other => panic!("unexpected variant {:?}", other),
    }
    assert!(Metar::parse("").is_err());
}

#[test]
fn full_report_with_every_group() {
    let text = "METAR EGXX 011200Z COR 24010G20KT 200V280 1500 2000NE R27/P1500U R09L/1200V1800FT/D \
                +TSRA BR VV005 FEW010CB 05/M02 A2992 BLU RERA REDZ WS R27 R27/190560 NOSIG \
                TEMPO FM1300 30015KT 3000 SHRA BKN015TCU CB/NE/SW RMK AO2 SLP123 =";
    let r = Metar::parse(text).unwrap();
    assert_eq!(r.station, "EGXX");
    assert_eq!(r.kind, Kind::Correction);
    assert_eq!(r.reduced_directional_visibility, vec![(CompassDirection::NorthEast, Data::Known(Visibility::Metres(2000)))]);
    assert_eq!(r.rvr.len(), 2);
    assert_eq!(r.rvr[0].value, Data::Known(RvrValue::Single(RvrValueInner::GreaterThan(1500))));
    assert_eq!(r.rvr[0].trend, Data::Known(RvrTrend::Upwards));
    assert_eq!(r.rvr[1].runway, "09L");
    assert_eq!(r.rvr[1].unit, RvrUnit::Feet);
    assert_eq!(r.rvr[1].trend, Data::Known(RvrTrend::Downwards));
    assert_eq!(r.vert_visibility, Some(VerticalVisibility::Distance(5)));
    assert_eq!(r.cloud_layers, vec![layer(CloudDensity::Few, 10, CloudType::Cumulonimbus)]);
    assert_eq!(r.temperature, Data::Known(5));
    assert_eq!(r.dewpoint, Data::Known(-2));
    assert_eq!(r.pressure, Pressure::InchesOfMercury(Data::Known(2992)));
    assert_eq!(r.colour_code, Some(ColourCode::Blue));
    assert_eq!(r.recent_weather, vec![WeatherCondition::Rain, WeatherCondition::Drizzle]);
    match &r.windshear_warnings {
        Some(WindshearWarnings::SpecificRunways(groups)) => assert_eq!(groups[0].runway_number, "27"),
        other => panic!("unexpected windshear {:?}", other),
    }
    assert_eq!(r.runway_conditions.len(), 1);
    assert_eq!(r.runway_conditions[0].braking_action, Data::Known(60));
    match r.runway_conditions[0].contamination {
        RunwayContamination::Present { contamination, deposit_depth, .. } => {
            assert_eq!(contamination, Data::Known(9));
            assert_eq!(deposit_depth, Data::Known(5));
        },
        RunwayContamination::Cleared => panic!("expected contamination"),
    }
    assert_eq!(r.trends.len(), 2);
    assert_eq!(r.trends[0], Trend::NoSignificantChanges);
    match &r.trends[1] {
        Trend::Temporarily(c) => {
            assert_eq!(c.time, Some(TrendTime::From(1300)));
            assert_eq!(c.visibility, Some(Visibility::Metres(3000)));
            assert_eq!(c.weather.len(), 1);
            assert_eq!(c.cloud, vec![layer(CloudDensity::Broken, 15, CloudType::ToweringCumulus)]);
        },
        other => panic!("unexpected trend {:?}", other),
    }
    assert_eq!(
        r.clouds_in_vicinity,
        vec![(vec![CompassDirection::NorthEast, CompassDirection::SouthWest], Data::Known(CloudType::Cumulonimbus))]
    );
    assert_eq!(r.remarks, Some("AO2 SLP123".to_string()));
}

#[test]
fn windshear_on_all_runways() {
    let r = Metar::parse("EGHI 282120Z 19015KT 16/14 Q1006 WS ALL RWY").unwrap();
    assert_eq!(r.windshear_warnings, Some(WindshearWarnings::AllRunways));
}

#[test]
fn remarks_keep_non_ascii_text() {
    let r = Metar::parse("EGHI 282120Z 19015KT 16/14 Q1006 RMK höhe  ").unwrap();
    assert_eq!(r.remarks, Some("höhe".to_string()));
    assert!(Metar::parse("EGHI 282120Z 19015KT 16/14 Q1006 é").is_err());
}

#[test]
fn simple_passes() {
    let reports = [
        "EDDK 061950Z AUTO 28008KT CAVOK 18/10 Q1015 BECMG 20006KT",
        "EGPC 061950Z AUTO 03004KT 9999 NCD 11/09 Q1017",
        "RJAA 061930Z AUTO 31010KT 9999 SCT002 OVC005 16/16 Q0993 TEMPO 3000 -RA BR RMK A2933",
        "UUDD 061930Z 36003MPS 330V030 CAVOK 16/08 Q1016 R32L/CLRD60 NOSIG",
        "ZGSZ 061900Z 13005MPS 9999 -TSRA FEW015 FEW026CB BKN030 26/25 Q1002 RESHRA BECMG AT1920 -SHRA BECMG AT1950 21005MPS 2500 +TSRA",
        "RJAA 070900Z 03010KT 350V050 9999 -SHRA FEW010 BKN017 16/14 Q1004 WS R34L NOSIG RMK 1CU010 7CU017 A2967",
        "RJAA 071000Z 02008KT 9999 -SHRA FEW010 BKN016 16/14 Q1006 TEMPO FEW008 BKN012 RMK 1CU010 7CU016 A2971",
        "EGGD 071320Z 19009KT 9999 4500NW -SHRA FEW015TCU SCT020 BKN040 17/15 Q1011",
        "KLAX 131253Z 08005KT 2SM -DZ BR FEW005 OVC008 18/17 A2986 RMK AO2 SLP108 VIS N-NE 1 1/4 VIS S 2 1/2 DZB10 P0000 T01780167 $",
        "EDDK 150850Z AUTO VRB03KT 9999 R24/1000U NCD 23/11 Q1018",
        "RJAA 171537Z AUTO 16002KT 3700 BR NCD 19/19 Q1010 RMK A2984",
        "EGHI 150650Z 06001KT 0500 R20/1000 FG VV/// 11/10 Q1003",
        "KEEN 061356Z AUTO 00000KT 10SM CLR 06/M03 A3029 RMK AO2 SLP264 T00611028 $",
        "EGGD 061920Z AUTO 14007KT 9999 SCT035/// //////CB 07/06 Q0997",
        "CWND 220218Z M01/M01 RMK T10091009",
    ];
    for text in reports.iter() {
        assert!(Metar::parse(text).is_ok(), "failed on {}", text);
    }
}

#[test]
fn station_checks() {
    assert_eq!(parse_station("EGHI"), Ok("EGHI"));
    assert_eq!(parse_station("EGH"), Err((0, 3, StationError::IncorrectLength)));
    assert_eq!(parse_station("EG-I"), Err((2, 1, StationError::NonAlphanumericCharacter)));
}

#[test]
fn wind_varying_checks() {
    assert_eq!(parse_wind_varying("140V220"), Ok((140, 220)));
    assert_eq!(parse_wind_varying("140V22"), Err((0, 6, WindVaryingError::NotWindVarying)));
    assert_eq!(parse_wind_varying("140X220"), Err((3, 1, WindVaryingError::NotWindVarying)));
    assert_eq!(parse_wind_varying("14AV220"), Err((2, 1, WindVaryingError::HeadingNotValid)));
    assert_eq!(parse_wind_varying("370V220"), Err((0, 3, WindVaryingError::HeadingNotValid)));
    assert_eq!(parse_wind_varying("140V361"), Err((4, 3, WindVaryingError::HeadingNotValid)));
}

#[test]
fn merging_unites_expectations() {
    let a = MetarError {
        string: "X",
        start: 0,
        end: 1,
        variant: ErrorVariant::ExpectedFound {
            expected: vec![ExpectedNext::Digits, ExpectedNext::Literal { value: "Q".to_string() }],
            found: Some('X'),
        },
    };
    let b = MetarError {
        string: "X",
        start: 0,
        end: 1,
        variant: ErrorVariant::ExpectedFound {
            expected: vec![ExpectedNext::Literal { value: "Q".to_string() }, ExpectedNext::EndOfInput],
            found: Some('X'),
        },
    };
    let m = a.merge(b);
    assert_eq!(
        m.variant,
        ErrorVariant::ExpectedFound {
            expected: vec![
                ExpectedNext::Digits,
                ExpectedNext::Literal { value: "Q".to_string() },
                ExpectedNext::EndOfInput,
            ],
            found: Some('X'),
        }
    );
    let c = MetarError { string: "X", start: 0, end: 1, variant: ErrorVariant::InvalidDate };
    assert_eq!(c.clone().merge(m).variant, ErrorVariant::InvalidDate);
}

#[test]
fn rendering_draws_the_span() {
    let text = "EGHI 282120Z 19015KT 140V220 6000 RA SCT006 BKN009 16/14 1006";
    let errs = Metar::parse(text).unwrap_err();
    let shown = errs[0].render();
    assert_ne!(shown, text);
    assert!(shown.contains("expected one of:"));
    assert!(shown.contains("found \"1\""));
    assert!(shown.contains("1006"));
    assert!(shown.lines().count() > 2);
    let owned = errs[0].into_owned();
    assert_eq!(owned.string, text);
    assert_eq!(owned.render(), shown);
    assert_eq!(ErrorVariant::InvalidDate.message(), "invalid observation date");
}

#[test]
fn weather_in_report_can_be_unknown() {
    let r = Metar::parse("EGHI 282120Z 19015KT 9999 // NSC 16/14 Q1006").unwrap();
    assert_eq!(r.weather, Data::<Vec<Weather>>::Unknown);
    assert_eq!(r.clouds, Clouds::NoSignificantCloud);
}

#[test]
fn observation_time_checks() {
    assert_eq!(parse_obs_time("282120Z"), Ok(Time { date: 28, hour: 21, minute: 20 }));
    assert_eq!(parse_obs_time("28212Z"), Err((0, 6, ObservationTimeError::IncorrectLength)));
    assert_eq!(parse_obs_time("2A2120Z"), Err((1, 1, ObservationTimeError::DateNotValid)));
    assert_eq!(parse_obs_time("322120Z"), Err((0, 2, ObservationTimeError::DateNotValid)));
    assert_eq!(parse_obs_time("282420Z"), Err((2, 2, ObservationTimeError::HourNotValid)));
    assert_eq!(parse_obs_time("282160Z"), Err((4, 2, ObservationTimeError::MinuteNotValid)));
    assert_eq!(parse_obs_time("282120A"), Err((6, 1, ObservationTimeError::InvalidTimeZone)));
}

#[test]
fn pressure_checks() {
    assert_eq!(parse_pressure("Q1013"), Ok(Data::Known(Pressure::Hectopascals(Data::Known(1013)))));
    assert_eq!(parse_pressure("A2992"), Ok(Data::Known(Pressure::InchesOfMercury(Data::Known(2992)))));
    assert_eq!(parse_pressure("Q////"), Ok(Data::Unknown));
    assert_eq!(parse_pressure("Q10"), Err((1, 3, PressureError::UnitNotValid)));
    assert_eq!(parse_pressure("Q10A3"), Err((3, 1, PressureError::PressureNotValid)));
    assert_eq!(parse_pressure("X1013"), Err((0, 1, PressureError::UnitNotValid)));
}

#[test]
fn expectations_at_the_failing_token_are_merged() {
    let text = "EGHI 282120Z 19015KT 140V220 6000 RA SCT006 BKN009 16/14 1006";
    let errs = Metar::parse(text).unwrap_err();
    let lit = |v: &str| ExpectedNext::Literal { value: v.to_string() };
    let mut want: Vec<ExpectedNext> = ["Q", "A", "BLU", "WHT", "GRN", "YLO", "AMB", "RED", "RE", "WS", "R", "NOSIG", "NSW", "BECMG", "TEMPO", "CB", "TCU", "RMK", "="]
        .iter()
        .map(|v| lit(v))
        .collect();
    want.push(ExpectedNext::EndOfInput);
    assert_eq!(errs[0].variant, ErrorVariant::ExpectedFound { expected: want, found: Some('1') });
    let station = Metar::parse("EG 282120Z").unwrap_err();
    assert_eq!(
        station[0].variant,
        ErrorVariant::ExpectedFound { expected: vec![ExpectedNext::SomethingElse], found: Some('E') }
    );
}

#[test]
fn temperature_pair_checks() {
    assert_eq!(parse_temperatures("16/14"), Ok((Data::Known(16), Data::Known(14))));
    assert_eq!(parse_temperatures("M01/M12"), Ok((Data::Known(-1), Data::Known(-12))));
    assert_eq!(parse_temperatures("/////"), Ok((Data::Unknown, Data::Unknown)));
    assert_eq!(parse_temperatures("12/7"), Err((3, 1, TemperatureError::DewpointNotValid)));
    assert_eq!(parse_temperatures("1/70"), Err((0, 1, TemperatureError::TemperatureNotValid)));
    assert_eq!(parse_temperatures("R24/1000"), Err((0, 8, TemperatureError::NotTemperatureDewpointPair)));
    assert_eq!(parse_temperatures("1/2SM"), Err((0, 5, TemperatureError::NotTemperatureDewpointPair)));
    assert_eq!(parse_temperatures("1234"), Err((0, 4, TemperatureError::NotTemperatureDewpointPair)));
    assert_eq!(parse_temperatures("M12/5"), Err((5, 1, TemperatureError::DewpointNotValid)));
    assert_eq!(parse_temperatures("12/3A"), Err((4, 1, TemperatureError::DewpointNotValid)));
}

#[test]
fn runway_range_errors_are_named() {
    let e = metar::RunwayVisualRange::parse("R40/1000").unwrap_err();
    assert_eq!(e.len(), 1);
    assert_eq!(e[0].variant, ErrorVariant::InvalidRvrRunwayNumber);
    assert_eq!((e[0].start, e[0].end), (0, 8));
    let e = metar::RunwayVisualRange::parse("X40/1000").unwrap_err();
    match &e[0].variant {
        ErrorVariant::ExpectedFound { found, .. } => assert_eq!(*found, Some('X')),
        other => panic!("unexpected variant {:?}", other),
    }
}

#[test]
fn diagnostics_on_multibyte_text_are_drawn() {
    let text = "EGHI 282120Z 19015KT 16/14 Q1006 éé";
    let errs = Metar::parse(text).unwrap_err();
    assert_eq!(&text[errs[0].start..errs[0].end], "éé");
    let shown = errs[0].render();
    assert!(shown.contains("éé"));
    assert!(shown.lines().count() > 2);
}

#[test]
fn token_check_messages() {
    assert_eq!(StationError::IncorrectLength.message(), "The station ID was not the correct length.");
    assert_eq!(WindVaryingError::HeadingNotValid.message(), "The heading is invalid.");
    assert_eq!(PressureError::UnitNotValid.message(), "The unit is invalid.");
}
