use metar::{
    CloudDensity, CloudLayer, CloudType, Clouds, Data, Kind, Metar, Pressure, RunwayVisualRange, RvrTrend, RvrUnit,
    RvrValue, RvrValueInner, Trend, VerticalVisibility, Visibility, Weather, WeatherCondition, WeatherIntensity,
    Wind, WindDirection, WindSpeed,
};

fn knots(dir: u32, speed: u32, gust: Option<u32>, varying: Option<(u32, u32)>) -> Wind {
    Wind::Present {
        dir: WindDirection::Heading(Data::Known(dir)),
        speed: WindSpeed::Knots { speed: Data::Known(speed), gusting: gust.map(Data::Known) },
        varying: varying.map(|(a, b)| (Data::Known(a), Data::Known(b))),
    }
}

fn variable(speed: u32) -> Wind {
    Wind::Present {
        dir: WindDirection::Variable,
        speed: WindSpeed::Knots { speed: Data::Known(speed), gusting: None },
        varying: None,
    }
}

fn layer(density: CloudDensity, height: u32, kind: CloudType) -> CloudLayer {
    CloudLayer { density: Data::Known(density), kind: Data::Known(kind), height: Data::Known(height) }
}

fn wx(intensity: WeatherIntensity, conditions: Vec<WeatherCondition>) -> Weather {
    Weather { intensity, conditions }
}

fn metres(m: u16) -> Data<Visibility> {
    Data::Known(Visibility::Metres(m))
}

fn miles(numerator: u32, denominator: u32) -> Data<Visibility> {
    Data::Known(Visibility::StatuteMiles { numerator, denominator })
}

fn hpa(v: u16) -> Pressure {
    Pressure::Hectopascals(Data::Known(v))
}

fn inhg(v: u16) -> Pressure {
    Pressure::InchesOfMercury(Data::Known(v))
}

/// Everything a report test states about the decoded report.
struct Expected {
    station: &'static str,
    time: (u8, u8, u8),
    wind: Wind,
    visibility: Data<Visibility>,
    clouds: Clouds,
    cloud_layers: Vec<CloudLayer>,
    vert_visibility: Option<VerticalVisibility>,
    weather: Vec<Weather>,
    temperature: Data<i32>,
    dewpoint: Data<i32>,
    pressure: Pressure,
}

fn check(text: &str, e: Expected) -> Metar {
    let r = Metar::parse(text).unwrap();
    assert_eq!(r.station, e.station);
    assert_eq!(r.time.date, e.time.0);
    assert_eq!(r.time.hour, e.time.1);
    assert_eq!(r.time.minute, e.time.2);
    assert_eq!(r.wind, e.wind);
    assert_eq!(r.visibility, e.visibility);
    assert_eq!(r.clouds, e.clouds);
    assert_eq!(r.cloud_layers.len(), e.cloud_layers.len());
    assert_eq!(r.cloud_layers, e.cloud_layers);
    assert_eq!(r.vert_visibility, e.vert_visibility);
    assert_eq!(r.weather, Data::Known(e.weather));
    assert_eq!(r.temperature, e.temperature);
    assert_eq!(r.dewpoint, e.dewpoint);
    assert_eq!(r.pressure, e.pressure);
    r
}

#[test]
fn test_metar_1() {
    let r = check(
        "EGHI 282120Z 19015KT 140V220 6000 RA SCT006 BKN009 16/14 Q1006",
        Expected {
            station: "EGHI",
            time: (28, 21, 20),
            wind: knots(190, 15, None, Some((140, 220))),
            visibility: metres(6000),
            clouds: Clouds::CloudLayers,
            cloud_layers: vec![
                layer(CloudDensity::Scattered, 6, CloudType::Normal),
                layer(CloudDensity::Broken, 9, CloudType::Normal),
            ],
            vert_visibility: None,
            weather: vec![wx(WeatherIntensity::Moderate, vec![WeatherCondition::Rain])],
            temperature: Data::Known(16),
            dewpoint: Data::Known(14),
            pressure: hpa(1006),
        },
    );
    assert_eq!(r.kind, Kind::Normal);
    assert_eq!(r.remarks, None);
    assert!(r.trends.is_empty());
}

#[test]
fn test_metar_2() {
    check(
        "EGHI 062050Z 31006KT 270V340 CAVOK 13/07 Q1017",
        Expected {
            station: "EGHI",
            time: (6, 20, 50),
            wind: knots(310, 6, None, Some((270, 340))),
            visibility: Data::Known(Visibility::CAVOK),
            clouds: Clouds::NoCloudDetected,
            cloud_layers: vec![],
            vert_visibility: None,
            weather: vec![],
            temperature: Data::Known(13),
            dewpoint: Data::Known(7),
            pressure: hpa(1017),
        },
    );
}

#[test]
fn test_metar_3() {
    check(
        "EGHI 071520Z 19013KT 160V220 3000 -RADZ BR BKN006 15/14 Q1012",
        Expected {
            station: "EGHI",
            time: (7, 15, 20),
            wind: knots(190, 13, None, Some((160, 220))),
            visibility: metres(3000),
            clouds: Clouds::CloudLayers,
            cloud_layers: vec![layer(CloudDensity::Broken, 6, CloudType::Normal)],
            vert_visibility: None,
            weather: vec![
                wx(WeatherIntensity::Light, vec![WeatherCondition::Rain, WeatherCondition::Drizzle]),
                wx(WeatherIntensity::Moderate, vec![WeatherCondition::Mist]),
            ],
            temperature: Data::Known(15),
            dewpoint: Data::Known(14),
            pressure: hpa(1012),
        },
    );
}

#[test]
fn test_metar_4() {
    check(
        "EGHI 071750Z 21010KT 3500 -RADZ BR BKN004 16/15 Q1011",
        Expected {
            station: "EGHI",
            time: (7, 17, 50),
            wind: knots(210, 10, None, None),
            visibility: metres(3500),
            clouds: Clouds::CloudLayers,
            cloud_layers: vec![layer(CloudDensity::Broken, 4, CloudType::Normal)],
            vert_visibility: None,
            weather: vec![
                wx(WeatherIntensity::Light, vec![WeatherCondition::Rain, WeatherCondition::Drizzle]),
                wx(WeatherIntensity::Moderate, vec![WeatherCondition::Mist]),
            ],
            temperature: Data::Known(16),
            dewpoint: Data::Known(15),
            pressure: hpa(1011),
        },
    );
}

#[test]
fn test_metar_5() {
    check(
        "EGHI 080650Z VRB03KT CAVOK 12/10 Q1009",
        Expected {
            station: "EGHI",
            time: (8, 6, 50),
            wind: variable(3),
            visibility: Data::Known(Visibility::CAVOK),
            clouds: Clouds::NoCloudDetected,
            cloud_layers: vec![],
            vert_visibility: None,
            weather: vec![],
            temperature: Data::Known(12),
            dewpoint: Data::Known(10),
            pressure: hpa(1009),
        },
    );
}

#[test]
fn test_metar_6() {
    check(
        "EGHI 081650Z 23010KT 9999 VCSH FEW018 FEW025TCU 15/11 Q1006",
        Expected {
            station: "EGHI",
            time: (8, 16, 50),
            wind: knots(230, 10, None, None),
            visibility: metres(9999),
            clouds: Clouds::CloudLayers,
            cloud_layers: vec![
                layer(CloudDensity::Few, 18, CloudType::Normal),
                layer(CloudDensity::Few, 25, CloudType::ToweringCumulus),
            ],
            vert_visibility: None,
            weather: vec![wx(WeatherIntensity::InVicinity, vec![WeatherCondition::Showers])],
            temperature: Data::Known(15),
            dewpoint: Data::Known(11),
            pressure: hpa(1006),
        },
    );
}

#[test]
fn test_metar_7() {
    // The trailing RERA is a recent-weather group: it is kept apart from the present weather.
    let r = check(
        "EGHI 110750Z 22017G28KT 190V250 6000 -RA FEW007 BKN010 15/14 Q1008 RERA",
        Expected {
            station: "EGHI",
            time: (11, 7, 50),
            wind: knots(220, 17, Some(28), Some((190, 250))),
            visibility: metres(6000),
            clouds: Clouds::CloudLayers,
            cloud_layers: vec![
                layer(CloudDensity::Few, 7, CloudType::Normal),
                layer(CloudDensity::Broken, 10, CloudType::Normal),
            ],
            vert_visibility: None,
            weather: vec![wx(WeatherIntensity::Light, vec![WeatherCondition::Rain])],
            temperature: Data::Known(15),
            dewpoint: Data::Known(14),
            pressure: hpa(1008),
        },
    );
    assert_eq!(r.recent_weather, vec![WeatherCondition::Rain]);
}

#[test]
fn test_metar_8() {
    check(
        "EGHI 131950Z 06001KT 9999 MIFG NSC 09/08 Q1010",
        Expected {
            station: "EGHI",
            time: (13, 19, 50),
            wind: knots(60, 1, None, None),
            visibility: metres(9999),
            clouds: Clouds::NoSignificantCloud,
            cloud_layers: vec![],
            vert_visibility: None,
            weather: vec![wx(WeatherIntensity::Moderate, vec![WeatherCondition::Shallow, WeatherCondition::Fog])],
            temperature: Data::Known(9),
            dewpoint: Data::Known(8),
            pressure: hpa(1010),
        },
    );
}

#[test]
fn test_metar_9() {
    let r = check(
        "EGHI 150650Z 06001KT 0500 R20/1000 FG VV/// 11/10 Q1003",
        Expected {
            station: "EGHI",
            time: (15, 6, 50),
            wind: knots(60, 1, None, None),
            visibility: metres(500),
            clouds: Clouds::CloudLayers,
            cloud_layers: vec![],
            vert_visibility: Some(VerticalVisibility::ReducedByUnknownAmount),
            weather: vec![wx(WeatherIntensity::Moderate, vec![WeatherCondition::Fog])],
            temperature: Data::Known(11),
            dewpoint: Data::Known(10),
            pressure: hpa(1003),
        },
    );
    assert_eq!(
        r.rvr,
        vec![RunwayVisualRange {
            runway: "20".to_string(),
            value: Data::Known(RvrValue::Single(RvrValueInner::Exactly(1000))),
            unit: RvrUnit::Metres,
            trend: Data::Known(RvrTrend::NoChange),
        }]
    );
}

#[test]
fn test_metar_10() {
    let r = check(
        "KEEN 061356Z AUTO 00000KT 10SM CLR 06/M03 A3029 RMK AO2 SLP264 T00611028 $",
        Expected {
            station: "KEEN",
            time: (6, 13, 56),
            wind: knots(0, 0, None, None),
            visibility: miles(10, 1),
            clouds: Clouds::NoCloudDetected,
            cloud_layers: vec![],
            vert_visibility: None,
            weather: vec![],
            temperature: Data::Known(6),
            dewpoint: Data::Known(-3),
            pressure: inhg(3029),
        },
    );
    assert_eq!(r.kind, Kind::Automatic);
    // The remark text (with its sea-level pressure group) is kept as it stands.
    assert_eq!(r.remarks, Some("AO2 SLP264 T00611028 $".to_string()));
}

#[test]
fn test_metar_11() {
    let r = check(
        "KLAX 061853Z 26007KT 5SM BR SCT006 BKN013 19/13 A3000 RMK AO2 SLP158 T01890133 $",
        Expected {
            station: "KLAX",
            time: (6, 18, 53),
            wind: knots(260, 7, None, None),
            visibility: miles(5, 1),
            clouds: Clouds::CloudLayers,
            cloud_layers: vec![
                layer(CloudDensity::Scattered, 6, CloudType::Normal),
                layer(CloudDensity::Broken, 13, CloudType::Normal),
            ],
            vert_visibility: None,
            weather: vec![wx(WeatherIntensity::Moderate, vec![WeatherCondition::Mist])],
            temperature: Data::Known(19),
            dewpoint: Data::Known(13),
            pressure: inhg(3000),
        },
    );
    assert_eq!(r.remarks, Some("AO2 SLP158 T01890133 $".to_string()));
}

#[test]
fn test_metar_12() {
    check(
        "EGGD 061920Z AUTO 14007KT 9999 SCT035/// //////CB 07/06 Q0997",
        Expected {
            station: "EGGD",
            time: (6, 19, 20),
            wind: knots(140, 7, None, None),
            visibility: metres(9999),
            clouds: Clouds::CloudLayers,
            cloud_layers: vec![
                CloudLayer {
                    density: Data::Known(CloudDensity::Scattered),
                    kind: Data::Unknown,
                    height: Data::Known(35),
                },
                CloudLayer {
                    density: Data::Unknown,
                    kind: Data::Known(CloudType::Cumulonimbus),
                    height: Data::Unknown,
                },
            ],
            vert_visibility: None,
            weather: vec![],
            temperature: Data::Known(7),
            dewpoint: Data::Known(6),
            pressure: hpa(997),
        },
    );
}

#[test]
fn test_metar_13() {
    check(
        "EGSS 081750Z AUTO 31006KT 280V360 7000 -RA BKN007 BKN012 BKN019 06/05 Q1009",
        Expected {
            station: "EGSS",
            time: (8, 17, 50),
            wind: knots(310, 6, None, Some((280, 360))),
            visibility: metres(7000),
            clouds: Clouds::CloudLayers,
            cloud_layers: vec![
                layer(CloudDensity::Broken, 7, CloudType::Normal),
                layer(CloudDensity::Broken, 12, CloudType::Normal),
                layer(CloudDensity::Broken, 19, CloudType::Normal),
            ],
            vert_visibility: None,
            weather: vec![wx(WeatherIntensity::Light, vec![WeatherCondition::Rain])],
            temperature: Data::Known(6),
            dewpoint: Data::Known(5),
            pressure: hpa(1009),
        },
    );
}

#[test]
fn test_metar_14() {
    let r = check(
        "KLAX 101335Z 10008KT 1/4SM R25L/1800V3000FT FG VV001 16/15 A2999 RMK AO2 VIS 1/8V1/2 T01610150",
        Expected {
            station: "KLAX",
            time: (10, 13, 35),
            wind: knots(100, 8, None, None),
            visibility: miles(1, 4),
            clouds: Clouds::CloudLayers,
            cloud_layers: vec![],
            vert_visibility: Some(VerticalVisibility::Distance(1)),
            weather: vec![wx(WeatherIntensity::Moderate, vec![WeatherCondition::Fog])],
            temperature: Data::Known(16),
            dewpoint: Data::Known(15),
            pressure: inhg(2999),
        },
    );
    assert_eq!(r.rvr[0].runway, "25L");
    assert_eq!(r.rvr[0].unit, RvrUnit::Feet);
    assert_eq!(r.remarks, Some("AO2 VIS 1/8V1/2 T01610150".to_string()));
}

#[test]
fn test_metar_15() {
    let r = check(
        "KLAX 101753Z COR VRB04KT 5SM HZ FEW009 19/14 A3002 RMK AO2 SLP165 T01940139 10194 20156 51006",
        Expected {
            station: "KLAX",
            time: (10, 17, 53),
            wind: variable(4),
            visibility: miles(5, 1),
            clouds: Clouds::CloudLayers,
            cloud_layers: vec![layer(CloudDensity::Few, 9, CloudType::Normal)],
            vert_visibility: None,
            weather: vec![wx(WeatherIntensity::Moderate, vec![WeatherCondition::Haze])],
            temperature: Data::Known(19),
            dewpoint: Data::Known(14),
            pressure: inhg(3002),
        },
    );
    assert_eq!(r.kind, Kind::Correction);
    assert_eq!(r.remarks, Some("AO2 SLP165 T01940139 10194 20156 51006".to_string()));
}

#[test]
fn test_metar_16() {
    let r = check(
        "KLAX 041828Z 02004KT 2 1/2SM -RA BR BKN007 OVC013 14/12 A2996 RMK AO2 VIS 1 1/2V3 P0002 T01390122 $",
        Expected {
            station: "KLAX",
            time: (4, 18, 28),
            wind: knots(20, 4, None, None),
            visibility: miles(5, 2),
            clouds: Clouds::CloudLayers,
            cloud_layers: vec![
                layer(CloudDensity::Broken, 7, CloudType::Normal),
                layer(CloudDensity::Overcast, 13, CloudType::Normal),
            ],
            vert_visibility: None,
            weather: vec![
                wx(WeatherIntensity::Light, vec![WeatherCondition::Rain]),
                wx(WeatherIntensity::Moderate, vec![WeatherCondition::Mist]),
            ],
            temperature: Data::Known(14),
            dewpoint: Data::Known(12),
            pressure: inhg(2996),
        },
    );
    assert_eq!(r.remarks, Some("AO2 VIS 1 1/2V3 P0002 T01390122 $".to_string()));
}

#[test]
fn test_metar_17() {
    let r = check(
        "ESSA 081950Z 22021KT 9999 OVC025 06/03 Q0973 R01L/29//95 R08/29//95 R01R/29//95 NOSIG",
        Expected {
            station: "ESSA",
            time: (8, 19, 50),
            wind: knots(220, 21, None, None),
            visibility: metres(9999),
            clouds: Clouds::CloudLayers,
            cloud_layers: vec![layer(CloudDensity::Overcast, 25, CloudType::Normal)],
            vert_visibility: None,
            weather: vec![],
            temperature: Data::Known(6),
            dewpoint: Data::Known(3),
            pressure: hpa(973),
        },
    );
    assert_eq!(r.runway_conditions.len(), 3);
    assert_eq!(r.runway_conditions[2].runway_number, "01R");
    assert_eq!(r.runway_conditions[0].braking_action, Data::Known(95));
    assert_eq!(r.trends, vec![Trend::NoSignificantChanges]);
}

#[test]
fn test_metar_18() {
    check(
        "KC62 220155Z AUTO 28015G21KT 10SM 03/00 A2971 RMK AO2 T00360000",
        Expected {
            station: "KC62",
            time: (22, 1, 55),
            wind: knots(280, 15, Some(21), None),
            visibility: miles(10, 1),
            clouds: Clouds::CloudLayers,
            cloud_layers: vec![],
            vert_visibility: None,
            weather: vec![],
            temperature: Data::Known(3),
            dewpoint: Data::Known(0),
            pressure: inhg(2971),
        },
    );
}

#[test]
fn test_metar_20() {
    check(
        "CWPF 220145Z AUTO 25008KT 02/01 RMK AO1 SLP034 T00240009 51016",
        Expected {
            station: "CWPF",
            time: (22, 1, 45),
            wind: knots(250, 8, None, None),
            visibility: Data::Unknown,
            clouds: Clouds::CloudLayers,
            cloud_layers: vec![],
            vert_visibility: None,
            weather: vec![],
            temperature: Data::Known(2),
            dewpoint: Data::Known(1),
            pressure: Pressure::Hectopascals(Data::Unknown),
        },
    );
}

#[test]
fn test_metar_21() {
    check(
        "CWND 220218Z M01/M01 RMK T10091009",
        Expected {
            station: "CWND",
            time: (22, 2, 18),
            wind: Wind::Present {
                dir: WindDirection::Heading(Data::Unknown),
                speed: WindSpeed::Knots { speed: Data::Unknown, gusting: None },
                varying: None,
            },
            visibility: Data::Unknown,
            clouds: Clouds::CloudLayers,
            cloud_layers: vec![],
            vert_visibility: None,
            weather: vec![],
            temperature: Data::Known(-1),
            dewpoint: Data::Known(-1),
            pressure: Pressure::Hectopascals(Data::Unknown),
        },
    );
}
