use metar::{CloudLayer, Clouds, Data, Kind, Metar, Pressure, Visibility, Wind, WindDirection, WindSpeed};

#[test]
fn test_all_blank() {
    let metar = "EGPC 241950Z AUTO /////KT //// ///////// ///// Q////";
    let r = Metar::parse(metar);
    assert!(r.is_ok());
    let r = r.unwrap();
    assert_eq!(r.station, "EGPC");

    assert_eq!(r.time.date, 24);
    assert_eq!(r.time.hour, 19);
    assert_eq!(r.time.minute, 50);
    assert_eq!(r.kind, Kind::Automatic);

    assert_eq!(
        r.wind,
        Wind::Present {
            dir: WindDirection::Heading(Data::Unknown),
            speed: WindSpeed::Knots { speed: Data::Unknown, gusting: None },
            varying: None,
        }
    );

    assert_eq!(r.visibility, Data::<Visibility>::Unknown);
    assert_eq!(r.clouds, Clouds::CloudLayers);
    assert_eq!(r.cloud_layers.len(), 1);
    assert!(r.cloud_layers.contains(&CloudLayer {
        density: Data::Unknown,
        kind: Data::Unknown,
        height: Data::Unknown,
    }));

    assert_eq!(r.temperature, Data::Unknown);
    assert_eq!(r.dewpoint, Data::Unknown);
    assert_eq!(r.pressure, Pressure::Hectopascals(Data::Unknown));
}

#[test]
fn test_doesnt_panic_with_bad_pressure() {
    let metar = "EGHI 282120Z 19015KT 140V220 6000 RA SCT006 BKN009 16/14 1006";
    let r = Metar::parse(metar);
    assert!(r.is_err());

    let metar = "EGHI 282120Z 19015KT 140V220 6000 RA SCT006 BKN009 16/14 Q10";
    let r = Metar::parse(metar);
    assert!(r.is_err());
}

#[test]
fn test_doesnt_panic_with_bad_temps() {
    let metar = "EGPC 211650Z 33026G37KT 9999 FEW021 12/7 Q1026";
    let r = Metar::parse(metar);
    assert!(r.is_err());

    let metar = "EGPC 211650Z 33026G37KT 9999 FEW021 1/70 Q1026";
    let r = Metar::parse(metar);
    assert!(r.is_err());
}

#[test]
fn test_doesnt_panic_with_bad_visibility() {
    let metar = "EGPC 211650Z 33026G37KT 1 FEW021 12/7 Q1026";
    let r = Metar::parse(metar);
    assert!(r.is_err());

    let metar = "EGPC 211650Z 33026G37KT 100SM FEW021 1/70 Q1026";
    let r = Metar::parse(metar);
    assert!(r.is_err());
}

#[test]
fn test_doesnt_panic_with_bad_wind() {
    let metar = "EGPC 211650Z 3026KT 9999 FEW021 12/7 Q1026";
    let r = Metar::parse(metar);
    assert!(r.is_err());
}
