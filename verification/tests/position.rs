use mapfan_route::error::RouteError;
use mapfan_route::params::CalcRouteRequestParam;
use mapfan_route::position::{endpoints, Position};
use mapfan_route::text::{has_char, split_fields};

fn strings(items: &[&str]) -> Vec<String> {
    items.iter().map(|s| s.to_string()).collect()
}

/// The coordinates of a command-line argument, each read as a number and
/// written out again, as the program around the library does it.
fn coordinates(argument: &str) -> Option<Vec<String>> {
    let mut out = Vec::new();
    for field in split_fields(argument) {
        let degrees: f32 = field.parse().ok()?;
        out.push(degrees.to_string());
    }
    Some(out)
}

#[test]
fn split_cuts_at_every_comma() {
    assert_eq!(split_fields("139.767,35.681"), strings(&["139.767", "35.681"]));
    assert_eq!(split_fields("a,b,c"), strings(&["a", "b", "c"]));
    assert_eq!(split_fields("not,a,number"), strings(&["not", "a", "number"]));
}

#[test]
fn split_keeps_empty_fields() {
    assert_eq!(split_fields(""), strings(&[""]));
    assert_eq!(split_fields(","), strings(&["", ""]));
    assert_eq!(split_fields("a,,b"), strings(&["a", "", "b"]));
    assert_eq!(split_fields("a,"), strings(&["a", ""]));
    assert_eq!(split_fields(",a"), strings(&["", "a"]));
}

#[test]
fn split_without_comma_is_one_field() {
    assert_eq!(split_fields("139.767"), strings(&["139.767"]));
    assert_eq!(split_fields(" 1 2 "), strings(&[" 1 2 "]));
}

#[test]
fn split_counts_characters_not_bytes() {
    assert_eq!(split_fields("東経,北緯"), strings(&["東経", "北緯"]));
    assert_eq!(split_fields("é,ü,"), strings(&["é", "ü", ""]));
}

#[test]
fn split_agrees_with_the_standard_library() {
    for text in ["", ",", "1,2", "1,2,3", ",,", "abc", "1.5,-2.25", "x,y,", "東,京"] {
        let expected: Vec<String> = text.split(',').map(|s| s.to_string()).collect();
        assert_eq!(split_fields(text), expected);
    }
}

#[test]
fn position_needs_exactly_two_fields() {
    let p = Position::from_fields(&strings(&["139.767", "35.681"])).unwrap();
    assert_eq!(p.longitude, "139.767");
    assert_eq!(p.latitude, "35.681");
    assert_eq!(Position::from_fields(&strings(&[])), None);
    assert_eq!(Position::from_fields(&strings(&["1"])), None);
    assert_eq!(Position::from_fields(&strings(&["1", "2", "3"])), None);
}

#[test]
fn position_text_is_longitude_comma_latitude() {
    let p = Position { longitude: "139.767".to_string(), latitude: "35.681".to_string() };
    assert_eq!(p.text(), "139.767,35.681");
    let q = Position { longitude: "-0.5".to_string(), latitude: "0".to_string() };
    assert_eq!(q.text(), "-0.5,0");
}

#[test]
fn position_text_splits_back_into_its_coordinates() {
    let p = Position { longitude: "139.767".to_string(), latitude: "35.681".to_string() };
    assert_eq!(split_fields(&p.text()), strings(&["139.767", "35.681"]));
}

#[test]
fn endpoints_take_two_fields_each() {
    let (start, goal) =
        endpoints(&strings(&["139.767", "35.681"]), &strings(&["139.69", "35.64"])).unwrap();
    assert_eq!(start.text(), "139.767,35.681");
    assert_eq!(goal.text(), "139.69,35.64");
}

#[test]
fn endpoints_reject_any_other_number_of_fields() {
    let two = strings(&["1", "2"]);
    assert_eq!(endpoints(&strings(&["1"]), &two), Err(RouteError::Endpoints));
    assert_eq!(endpoints(&two, &strings(&["1", "2", "3"])), Err(RouteError::Endpoints));
    assert_eq!(endpoints(&strings(&[]), &strings(&[])), Err(RouteError::Endpoints));
    assert_eq!(endpoints(&strings(&["1", "2", "3"]), &two), Err(RouteError::Endpoints));
}

#[test]
fn malformed_origin_is_rejected() {
    let fields = split_fields("not,a,number");
    assert_eq!(fields.len(), 3);
    assert!(fields[0].parse::<f32>().is_err());
    assert_eq!(coordinates("not,a,number"), None);
    assert_eq!(Position::from_fields(&fields), None);
    assert_eq!(endpoints(&fields, &strings(&["139.69", "35.64"])), Err(RouteError::Endpoints));
}

#[test]
fn origin_and_destination_become_start_and_destination() {
    let origin = coordinates("139.767,35.681").unwrap();
    let destination = coordinates("139.69,35.64").unwrap();
    let (start, goal) = endpoints(&origin, &destination).unwrap();
    let sent = CalcRouteRequestParam::new(start, goal).to_params();
    assert_eq!(
        sent,
        vec![
            ("start".to_string(), "139.767,35.681".to_string()),
            ("destination".to_string(), "139.69,35.64".to_string()),
        ]
    );
    assert!(!sent.iter().any(|(key, _)| key == "via" || key == "date"));
}

#[test]
fn has_char_finds_a_character_anywhere() {
    assert!(has_char("a#b", '#'));
    assert!(has_char("#", '#'));
    assert!(has_char("ab#", '#'));
    assert!(has_char("東京", '京'));
    assert!(!has_char("", '#'));
    assert!(!has_char("abc", '#'));
}

#[test]
fn split_always_gives_a_field() {
    for text in ["", ",", "a", "a,b", ",,,", "東京"] {
        assert!(!split_fields(text).is_empty());
    }
}

#[test]
fn has_char_reads_a_long_text() {
    let long = "a".repeat(1 << 20);
    assert!(!has_char(&long, '#'));
    assert!(has_char(&format!("{}#", long), '#'));
}
