use metar::{
    CloudDensity, CloudLayer, CloudType, Data, Pressure, RunwayVisualRange, RvrTrend, RvrUnit, RvrValue,
    RvrValueInner, SeaCondition, SeaConditionInner, SeaState, Time, VerticalVisibility, Visibility, Weather,
    WeatherCondition, WeatherIntensity, WindDirection, WindSpeed,
};

#[test]
fn test_cloud_layers() {
    assert_eq!(
        CloudLayer::parse("BKN300CB").unwrap(),
        CloudLayer {
            density: Data::Known(CloudDensity::Broken),
            height: Data::Known(300),
            kind: Data::Known(CloudType::Cumulonimbus),
        }
    );
    assert_eq!(
        CloudLayer::parse("/////////").unwrap(),
        CloudLayer {
            density: Data::Unknown,
            height: Data::Unknown,
            kind: Data::Unknown,
        }
    );
}

#[test]
fn valid_hpa() {
    assert_eq!(Pressure::parse("Q1013").unwrap(), Pressure::Hectopascals(Data::Known(1013)));
}

#[test]
fn valid_mmhg() {
    // 30.12 inHg, held in hundredths of an inch
    assert_eq!(Pressure::parse("A3012").unwrap(), Pressure::InchesOfMercury(Data::Known(3012)));
}

#[test]
fn valid_unknown_hpa() {
    assert_eq!(Pressure::parse("Q////").unwrap(), Pressure::Hectopascals(Data::Unknown));
}

#[test]
fn valid_unknown_mmhg() {
    assert_eq!(Pressure::parse("A////").unwrap(), Pressure::InchesOfMercury(Data::Unknown));
}

#[test]
fn test_rvr() {
    assert_eq!(
        RunwayVisualRange::parse("R24L/P1500").unwrap(),
        RunwayVisualRange {
            runway: "24L".to_string(),
            value: Data::Known(RvrValue::Single(RvrValueInner::GreaterThan(1500))),
            unit: RvrUnit::Metres,
            trend: Data::Known(RvrTrend::NoChange),
        }
    );
    assert_eq!(
        RunwayVisualRange::parse("R25L/1800V3000FT").unwrap(),
        RunwayVisualRange {
            runway: "25L".to_string(),
            value: Data::Known(RvrValue::Between(RvrValueInner::Exactly(1800), RvrValueInner::Exactly(3000))),
            unit: RvrUnit::Feet,
            trend: Data::Known(RvrTrend::NoChange),
        }
    );
}

#[test]
fn test_sea_condition() {
    assert_eq!(
        SeaCondition::parse("W15/S2").unwrap(),
        SeaCondition {
            temperature: Data::Known(15),
            condition: Data::Known(SeaConditionInner::State(Data::Known(SeaState::Smooth))),
        }
    );
    assert_eq!(
        SeaCondition::parse("W15/H123").unwrap(),
        SeaCondition {
            temperature: Data::Known(15),
            condition: Data::Known(SeaConditionInner::WaveHeight(Data::Known(123))),
        }
    );
}

#[test]
fn valid_time() {
    assert_eq!(Time::parse("010101Z").unwrap(), Time { date: 1, hour: 1, minute: 1 });
}

#[test]
fn invalid_date() {
    assert!(Time::parse("320101Z").is_err());
}

#[test]
fn invalid_hour() {
    assert!(Time::parse("012401Z").is_err());
}

#[test]
fn invalid_minute() {
    assert!(Time::parse("010160Z").is_err());
}

#[test]
fn test_vvis() {
    assert_eq!(VerticalVisibility::parse("VV///").unwrap(), VerticalVisibility::ReducedByUnknownAmount);
    assert_eq!(VerticalVisibility::parse("VV350").unwrap(), VerticalVisibility::Distance(350));
}

#[test]
fn valid_visibility() {
    assert_eq!(Visibility::parse("CAVOK").unwrap(), Visibility::CAVOK);
    assert_eq!(Visibility::parse("5000").unwrap(), Visibility::Metres(5000));
    assert_eq!(
        Visibility::parse("3SM").unwrap(),
        Visibility::StatuteMiles { numerator: 3, denominator: 1 }
    );
    assert_eq!(
        Visibility::parse("1/4SM").unwrap(),
        Visibility::StatuteMiles { numerator: 1, denominator: 4 }
    );
    assert_eq!(
        Visibility::parse("3 1/2SM").unwrap(),
        Visibility::StatuteMiles { numerator: 7, denominator: 2 }
    );
}

#[test]
fn test_weather() {
    assert_eq!(
        Weather::parse("+SHRA").unwrap(),
        Weather {
            intensity: WeatherIntensity::Heavy,
            conditions: vec![WeatherCondition::Showers, WeatherCondition::Rain],
        }
    );
    assert_eq!(
        Weather::parse("VCTS").unwrap(),
        Weather {
            intensity: WeatherIntensity::InVicinity,
            conditions: vec![WeatherCondition::Thunderstorm],
        }
    );
}

#[test]
fn valid_heading() {
    assert_eq!(WindDirection::parse("015").unwrap(), WindDirection::Heading(Data::Known(15)));
}

#[test]
fn valid_unknown() {
    assert_eq!(WindDirection::parse("///").unwrap(), WindDirection::Heading(Data::Unknown));
}

#[test]
fn valid_variable() {
    assert_eq!(WindDirection::parse("VRB").unwrap(), WindDirection::Variable);
}

#[test]
fn valid_kts() {
    assert_eq!(
        WindSpeed::parse("//KT").unwrap(),
        WindSpeed::Knots { speed: Data::Unknown, gusting: None }
    );
    assert_eq!(
        WindSpeed::parse("00KT").unwrap(),
        WindSpeed::Knots { speed: Data::Known(0), gusting: None }
    );
    assert_eq!(
        WindSpeed::parse("40G60KT").unwrap(),
        WindSpeed::Knots { speed: Data::Known(40), gusting: Some(Data::Known(60)) }
    );
    assert_eq!(
        WindSpeed::parse("40G//KT").unwrap(),
        WindSpeed::Knots { speed: Data::Known(40), gusting: Some(Data::Unknown) }
    );
    assert_eq!(
        WindSpeed::parse("99KT").unwrap(),
        WindSpeed::Knots { speed: Data::Known(99), gusting: None }
    );
    assert_eq!(WindSpeed::parse("P99KT").unwrap(), WindSpeed::Greater);
}

#[test]
fn valid_mps() {
    assert_eq!(
        WindSpeed::parse("//MPS").unwrap(),
        WindSpeed::MetresPerSecond { speed: Data::Unknown, gusting: None }
    );
    assert_eq!(
        WindSpeed::parse("00MPS").unwrap(),
        WindSpeed::MetresPerSecond { speed: Data::Known(0), gusting: None }
    );
    assert_eq!(
        WindSpeed::parse("40G60MPS").unwrap(),
        WindSpeed::MetresPerSecond { speed: Data::Known(40), gusting: Some(Data::Known(60)) }
    );
    assert_eq!(
        WindSpeed::parse("40G//MPS").unwrap(),
        WindSpeed::MetresPerSecond { speed: Data::Known(40), gusting: Some(Data::Unknown) }
    );
    assert_eq!(
        WindSpeed::parse("99MPS").unwrap(),
        WindSpeed::MetresPerSecond { speed: Data::Known(99), gusting: None }
    );
    assert_eq!(WindSpeed::parse("P99MPS").unwrap(), WindSpeed::Greater);
}

#[test]
fn valid_kph() {
    assert_eq!(
        WindSpeed::parse("//KPH").unwrap(),
        WindSpeed::KilometresPerHour { speed: Data::Unknown, gusting: None }
    );
    assert_eq!(
        WindSpeed::parse("000KPH").unwrap(),
        WindSpeed::KilometresPerHour { speed: Data::Known(0), gusting: None }
    );
    assert_eq!(
        WindSpeed::parse("040G060KPH").unwrap(),
        WindSpeed::KilometresPerHour { speed: Data::Known(40), gusting: Some(Data::Known(60)) }
    );
    assert_eq!(
        WindSpeed::parse("040G//KPH").unwrap(),
        WindSpeed::KilometresPerHour { speed: Data::Known(40), gusting: Some(Data::Unknown) }
    );
    assert_eq!(
        WindSpeed::parse("199KPH").unwrap(),
        WindSpeed::KilometresPerHour { speed: Data::Known(199), gusting: None }
    );
    assert_eq!(WindSpeed::parse("P199KPH").unwrap(), WindSpeed::Greater);
}

#[test]
fn known_and_unknown_data() {
    let known: Data<u32> = Data::Known(7);
    let unknown: Data<u32> = Data::Unknown;
    assert!(known.is_known());
    assert!(!unknown.is_known());
    assert_eq!(known.as_ref(), Data::Known(&7));
    assert_eq!(unknown.as_ref(), Data::Unknown);
    assert_eq!(known.unwrap(), 7);
}

#[test]
fn largest_speeds_and_headings() {
    assert_eq!(WindDirection::parse("360").unwrap(), WindDirection::Heading(Data::Known(360)));
    assert!(WindDirection::parse("361").is_err());
    assert_eq!(WindDirection::Heading(Data::Known(90)).unwrap_heading(), Data::Known(90));
    assert_eq!(
        WindSpeed::parse("999G999KPH").unwrap(),
        WindSpeed::KilometresPerHour { speed: Data::Known(999), gusting: Some(Data::Known(999)) }
    );
    assert!(WindSpeed::parse("100KT").is_err());
    assert_eq!(Visibility::parse("9999").unwrap(), Visibility::Metres(9999));
    assert!(Visibility::parse("1/0SM").is_err());
    assert_eq!(
        Visibility::parse("99 9/9SM").unwrap(),
        Visibility::StatuteMiles { numerator: 900, denominator: 9 }
    );
}
