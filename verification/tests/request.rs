use mapfan_route::codes::{CarType, VehicleType};
use mapfan_route::error::RouteError;
use mapfan_route::params::CalcRouteRequestParam;
use mapfan_route::position::Position;
use mapfan_route::request::{
    check_status, request_url, route_request, url_with_params, RequestHeader, API_HOST, BASE_URL,
    MAX_BASE_LEN,
};

fn pair(key: &str, value: &str) -> (String, String) {
    (key.to_string(), value.to_string())
}

fn place(longitude: &str, latitude: &str) -> Position {
    Position { longitude: longitude.to_string(), latitude: latitude.to_string() }
}

#[test]
fn header_carries_key_and_fixed_host() {
    let header = RequestHeader::new("secret".to_string());
    assert_eq!(header.api_key, "secret");
    assert_eq!(header.api_host, "mapfanapi-route.p.rapidapi.com");
    assert_eq!(header.api_host, API_HOST);
    assert_eq!(
        header.to_pairs(),
        vec![
            pair("X-RapidAPI-Key", "secret"),
            pair("X-RapidAPI-Host", "mapfanapi-route.p.rapidapi.com"),
        ]
    );
}

#[test]
fn route_request_sets_no_modifier_of_its_own() {
    let p = route_request(place("139.767", "35.681"), place("139.69", "35.64"), None, None);
    assert_eq!(p.vehicletype, None);
    assert_eq!(p.via, None);
    assert_eq!(p.date, None);
    assert_eq!(p.routeresultid, None);
    assert_eq!(
        p.to_params(),
        vec![pair("start", "139.767,35.681"), pair("destination", "139.69,35.64")]
    );
}

#[test]
fn route_request_takes_waypoints_and_departure() {
    let p = route_request(
        place("139.767", "35.681"),
        place("139.69", "35.64"),
        Some("139.7,35.66".to_string()),
        Some("20221204_100000".to_string()),
    );
    assert_eq!(
        p.to_params(),
        vec![
            pair("start", "139.767,35.681"),
            pair("destination", "139.69,35.64"),
            pair("via", "139.7,35.66"),
            pair("date", "20221204_100000"),
        ]
    );
}

#[test]
fn route_request_takes_a_departure_alone() {
    let p = route_request(
        place("139.767", "35.681"),
        place("139.69", "35.64"),
        None,
        Some("20221204_100000".to_string()),
    );
    assert_eq!(
        p.to_params(),
        vec![
            pair("start", "139.767,35.681"),
            pair("destination", "139.69,35.64"),
            pair("date", "20221204_100000"),
        ]
    );
}

#[test]
fn url_holds_the_pairs_as_a_query() {
    let p = route_request(place("139.767", "35.681"), place("139.69", "35.64"), None, None);
    assert_eq!(
        request_url(p),
        Ok("https://mapfanapi-route.p.rapidapi.com/calcroute?start=139.767%2C35.681&destination=139.69%2C35.64".to_string())
    );
}

#[test]
fn url_holds_a_modifier_that_the_caller_sets() {
    let mut p = route_request(place("139.767", "35.681"), place("139.69", "35.64"), None, None);
    p.vehicle_type(VehicleType::BigCargo);
    assert_eq!(
        request_url(p),
        Ok("https://mapfanapi-route.p.rapidapi.com/calcroute?start=139.767%2C35.681&destination=139.69%2C35.64&vehicletype=2".to_string())
    );
}

#[test]
fn url_escapes_what_a_query_cannot_hold() {
    let mut p = CalcRouteRequestParam::new(place("1", "2"), place("3", "4"));
    p.via("5,6,0,0|7,8,0,0".to_string()).car_type(CarType::Big);
    let url = request_url(p).unwrap();
    assert!(url.starts_with(BASE_URL));
    assert_eq!(
        url,
        "https://mapfanapi-route.p.rapidapi.com/calcroute?start=1%2C2&destination=3%2C4&via=5%2C6%2C0%2C0%7C7%2C8%2C0%2C0&cartype=3"
    );
}

#[test]
fn url_for_an_earlier_result_holds_the_id_alone() {
    let p = CalcRouteRequestParam::new_with_result_id("abc 123".to_string());
    assert_eq!(
        request_url(p),
        Ok("https://mapfanapi-route.p.rapidapi.com/calcroute?routeresultid=abc+123".to_string())
    );
}

#[test]
fn only_status_200_is_accepted() {
    assert_eq!(check_status(200), Ok(()));
    assert_eq!(check_status(201), Err(RouteError::Status(201)));
    assert_eq!(check_status(204), Err(RouteError::Status(204)));
    assert_eq!(check_status(404), Err(RouteError::Status(404)));
    assert_eq!(check_status(500), Err(RouteError::Status(500)));
    assert_eq!(check_status(0), Err(RouteError::Status(0)));
}

#[test]
fn pairs_are_added_to_a_query_that_is_there() {
    let pairs = vec![pair("lang", "rust"), pair("browser", "servo")];
    assert_eq!(
        url_with_params("https://example.net?dont=clobberme", &pairs),
        Ok("https://example.net/?dont=clobberme&lang=rust&browser=servo".to_string())
    );
    assert_eq!(url_with_params("https://example.net/a", &vec![]), Ok("https://example.net/a?".to_string()));
}

#[test]
fn a_base_that_is_no_absolute_url_is_refused() {
    let pairs = vec![pair("start", "1,2")];
    assert_eq!(url_with_params("not a url", &pairs), Err(RouteError::Url));
    assert_eq!(url_with_params("", &pairs), Err(RouteError::Url));
    assert_eq!(url_with_params("/calcroute", &pairs), Err(RouteError::Url));
}

#[test]
fn a_base_with_a_fragment_is_refused() {
    let pairs = vec![pair("start", "1,2")];
    assert_eq!(url_with_params("https://example.net/a#part", &pairs), Err(RouteError::Url));
    assert_eq!(url_with_params("https://example.net/a#", &vec![]), Err(RouteError::Url));
}

#[test]
fn a_base_that_is_too_long_is_refused() {
    let pairs = vec![pair("start", "1,2")];
    let head = "https://example.net/";
    let longest = format!("{}{}", head, "a".repeat(MAX_BASE_LEN - head.len()));
    assert_eq!(longest.chars().count(), MAX_BASE_LEN);
    let url = url_with_params(&longest, &pairs).unwrap();
    assert!(url.starts_with(head));
    assert!(url.ends_with("a?start=1%2C2"));
    assert_eq!(url.len(), MAX_BASE_LEN + "?start=1%2C2".len());
    let too_long = format!("{}a", longest);
    assert_eq!(url_with_params(&too_long, &pairs), Err(RouteError::Url));
}

#[test]
fn the_length_of_a_base_is_counted_in_characters() {
    let head = "https://example.net/";
    let base = format!("{}{}", head, "東".repeat(MAX_BASE_LEN - head.len()));
    assert!(base.len() > MAX_BASE_LEN);
    assert!(url_with_params(&base, &vec![]).is_ok());
    assert_eq!(url_with_params(&format!("{}東", base), &vec![]), Err(RouteError::Url));
}

#[test]
fn the_address_of_the_service_is_short_and_has_no_fragment() {
    assert!(BASE_URL.chars().count() <= MAX_BASE_LEN);
    assert!(!BASE_URL.contains('#'));
    assert_eq!(BASE_URL.chars().count(), 48);
}
