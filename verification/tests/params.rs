use mapfan_route::codes::{CarType, OnOff, OutputFormat, Priority, Tollway, VehicleType};
use mapfan_route::params::CalcRouteRequestParam;
use mapfan_route::position::Position;

fn pair(key: &str, value: &str) -> (String, String) {
    (key.to_string(), value.to_string())
}

fn tokyo() -> (Position, Position) {
    (
        Position { longitude: "139.767".to_string(), latitude: "35.681".to_string() },
        Position { longitude: "139.69".to_string(), latitude: "35.64".to_string() },
    )
}

#[test]
fn onoff_should_be_number() {
    let params = CalcRouteRequestParam {
        tollroad: Some(OnOff::On),
        ..Default::default()
    };
    assert_eq!(
        params.to_params(),
        vec![
            ("start".to_string(), "".to_string()),
            ("destination".to_string(), "".to_string()),
            ("tollroad".to_string(), "1".to_string())
        ]
    );

    let params = CalcRouteRequestParam {
        tollroad: Some(OnOff::Off),
        ..Default::default()
    };
    assert_eq!(
        params.to_params(),
        vec![
            ("start".to_string(), "".to_string()),
            ("destination".to_string(), "".to_string()),
            ("tollroad".to_string(), "0".to_string())
        ]
    );
}

#[test]
fn date_should_be_date() {
    let params = CalcRouteRequestParam {
        date: Some("20221204_100000".to_string()),
        ..Default::default()
    };
    assert_eq!(
        params.to_params(),
        vec![
            ("start".to_string(), "".to_string()),
            ("destination".to_string(), "".to_string()),
            ("date".to_string(), "20221204_100000".to_string())
        ]
    );
}

#[test]
fn new_request_sends_only_start_and_destination() {
    let (start, goal) = tokyo();
    let params = CalcRouteRequestParam::new(start, goal);
    assert_eq!(
        params.to_params(),
        vec![pair("start", "139.767,35.681"), pair("destination", "139.69,35.64")]
    );
}

#[test]
fn unset_modifiers_leave_no_key_behind() {
    let (start, goal) = tokyo();
    let mut params = CalcRouteRequestParam::new(start, goal);
    params.car_type(CarType::Big);
    let sent = params.to_params();
    assert_eq!(sent.len(), 3);
    for (key, value) in &sent {
        assert!(!value.is_empty());
        assert!(key == "start" || key == "destination" || key == "cartype");
    }
    assert!(!sent.iter().any(|(key, _)| key == "via" || key == "date"));
}

#[test]
fn result_id_is_sent_alone() {
    let params = CalcRouteRequestParam::new_with_result_id("abc123".to_string());
    assert_eq!(params.to_params(), vec![pair("routeresultid", "abc123")]);
}

#[test]
fn result_id_hides_every_other_field() {
    let mut params = CalcRouteRequestParam::new_with_result_id("abc123".to_string());
    params.start = "1,2".to_string();
    params.destination = "3,4".to_string();
    params.via("5,6,0,0".to_string()).car_type(CarType::Small).date("20221204_100000".to_string());
    params.tollroad = Some(OnOff::On);
    params.height = Some(380);
    assert_eq!(params.to_params(), vec![pair("routeresultid", "abc123")]);
}

#[test]
fn setters_chain_and_set_one_field_each() {
    let mut params = CalcRouteRequestParam::default();
    params
        .via("139.7,35.6,0,0".to_string())
        .car_type(CarType::Middle)
        .vehicle_type(VehicleType::BigSpecial)
        .result_type(OnOff::Off)
        .date("20230101_000000".to_string());
    assert_eq!(params.via, Some("139.7,35.6,0,0".to_string()));
    assert_eq!(params.cartype, Some(CarType::Middle));
    assert_eq!(params.vehicletype, Some(VehicleType::BigSpecial));
    assert_eq!(params.resulttype, Some(OnOff::Off));
    assert_eq!(params.date, Some("20230101_000000".to_string()));
    assert_eq!(params.startangle, None);
    assert_eq!(params.routeresultid, None);
}

#[test]
fn modifiers_are_sent_in_the_order_of_declaration() {
    let mut params = CalcRouteRequestParam::default();
    params.start = "a".to_string();
    params.destination = "b".to_string();
    params.result_type(OnOff::On);
    params.vehicle_type(VehicleType::BigCargo);
    params.car_type(CarType::SuperBig);
    params.date("20221204_100000".to_string());
    params.via("v".to_string());
    assert_eq!(
        params.to_params(),
        vec![
            pair("start", "a"),
            pair("destination", "b"),
            pair("via", "v"),
            pair("date", "20221204_100000"),
            pair("cartype", "4"),
            pair("vehicletype", "2"),
            pair("resulttype", "1"),
        ]
    );
}

#[test]
fn every_modifier_has_its_key_and_text() {
    let params = CalcRouteRequestParam {
        start: "1,2".to_string(),
        destination: "3,4".to_string(),
        startangle: Some(359),
        via: Some("5,6,0,0|7,8,0,0".to_string()),
        date: Some("20221204_100000".to_string()),
        priority: Some(Priority::WalkerLessSteps),
        tollway: Some(Tollway::Never),
        ferry: Some(mapfan_route::codes::Ferry::Avoid),
        smartic: Some(OnOff::On),
        etc: Some(OnOff::Off),
        tolltarget: Some(1),
        cartype: Some(CarType::Normal),
        normalspeed: Some("30.5".to_string()),
        highwayspeed: Some("80".to_string()),
        tollwayspeed: Some("100".to_string()),
        ferryspeed: Some("20".to_string()),
        vehicletype: Some(VehicleType::BigSpecial),
        height: Some(380),
        loadage: Some(-1),
        weight: Some(20000),
        width: Some(250),
        danger: Some(1),
        daytime: Some(0),
        generalroad: Some(255),
        tollroad: Some(OnOff::On),
        regulations: Some(OnOff::Off),
        travel: Some(OnOff::On),
        resulttype: Some(OnOff::On),
        routeresultid: None,
        fmt: Some(OutputFormat::Json),
    };
    assert_eq!(
        params.to_params(),
        vec![
            pair("start", "1,2"),
            pair("destination", "3,4"),
            pair("startangle", "359"),
            pair("via", "5,6,0,0|7,8,0,0"),
            pair("date", "20221204_100000"),
            pair("priority", "103"),
            pair("tollway", "3"),
            pair("ferry", "2"),
            pair("smartic", "1"),
            pair("etc", "0"),
            pair("tolltarget", "1"),
            pair("cartype", "1"),
            pair("normalspeed", "30.5"),
            pair("highwayspeed", "80"),
            pair("tollwayspeed", "100"),
            pair("ferryspeed", "20"),
            pair("vehicletype", "11"),
            pair("height", "380"),
            pair("loadage", "-1"),
            pair("weight", "20000"),
            pair("width", "250"),
            pair("danger", "1"),
            pair("daytime", "0"),
            pair("generalroad", "255"),
            pair("tollroad", "1"),
            pair("regulations", "0"),
            pair("travel", "1"),
            pair("resulttype", "1"),
            pair("fmt", "json"),
        ]
    );
}

#[test]
fn no_key_is_sent_twice() {
    let mut params = CalcRouteRequestParam::default();
    params.via("v".to_string()).date("d".to_string()).car_type(CarType::Small);
    params.fmt = Some(OutputFormat::Xml);
    let sent = params.to_params();
    for (i, (key, _)) in sent.iter().enumerate() {
        assert!(sent.iter().skip(i + 1).all(|(other, _)| other != key));
    }
    assert_eq!(sent.last(), Some(&pair("fmt", "xml")));
}

#[test]
fn codes_are_the_numbers_of_the_service() {
    assert_eq!(OnOff::Off.code(), 0);
    assert_eq!(OnOff::On.code(), 1);
    assert_eq!(Priority::Normal.code(), 0);
    assert_eq!(Priority::RoadWidthFirst.code(), 4);
    assert_eq!(Priority::NormalWalker.code(), 100);
    assert_eq!(Priority::WalkerLessSteps.code(), 103);
    assert_eq!(Tollway::Avoid.code(), 2);
    assert_eq!(CarType::SuperBig.code(), 4);
    assert_eq!(VehicleType::Unclassified.code(), 0);
    assert_eq!(VehicleType::BigCargo.code(), 2);
    assert_eq!(VehicleType::BigSpecial.code(), 11);
    assert_eq!(OutputFormat::Json.name(), "json");
    assert_eq!(OutputFormat::Xml.name(), "xml");
}
