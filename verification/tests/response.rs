use mapfan_route::error::RouteError;
use mapfan_route::guide::{
    EtcCode, Facility, FacilityType, Guide, GuideDetail, GuideDetailCode, GuideDirection,
    GuideInfo, GuideToll, GuideType, Point, RoadType, ShapeType, TollGateCode,
};
use mapfan_route::response::{answer_text, parse_response, DateTime, RouteResult, RouteSummary, Toll};
use mapfan_route::schema::{Mismatch, Schema};

const FULL: &str = "{\"guide\":[{\"guideInfo\":{\"distance\":120.5,\"guideCrossing\":{\"name\":\"Ginza 4\"},\"guideDetail\":{\"code\":32,\"name\":\"Kasumigaseki\"},\"guideDirection\":5,\"guideHighway\":{\"facilities\":[{\"info\":33554688,\"name\":\"Ebina\",\"type\":1},{\"name\":\"Yokohama-Aoba\",\"type\":5}]},\"guideRoad\":{\"name\":\"Route 246\",\"number\":246},\"guideToll\":{\"name\":\"Tokyo\",\"toll\":1320,\"tollGateCode\":2},\"guideTollEtc\":{\"etcCode\":1,\"name\":\"Tokyo\",\"toll\":930,\"tollGateCode\":2},\"order\":[0,1,4294967295],\"roadType\":101,\"shape\":[5,4,6],\"shapeIndexFirst\":{\"shapeIndex\":0,\"shapePointsIndex\":0},\"shapeIndexLast\":{\"shapeIndex\":2,\"shapePointsIndex\":65535},\"shapeInfo\":{\"dataId\":3,\"distance\":98.25,\"info\":1048832,\"roadType\":101},\"shapePoints\":[{\"el\":12,\"lat\":35.681,\"lon\":139.767},{\"el\":0,\"lat\":35.64,\"lon\":139.69}],\"travelTime\":14.2},\"guidePoints\":[{\"lat\":35.681,\"lon\":139.767},{\"lat\":35.64,\"lon\":139.69}],\"type\":1},{\"guideInfo\":{\"guideDirection\":0,\"guideToll\":{\"toll\":-5}},\"type\":2}],\"routeId\":\"r-20221204\",\"routeResultId\":\"res-42\",\"status\":\"OK\",\"summary\":{\"departureTime\":{\"date\":\"20221204\",\"time\":\"100000\"},\"sectionTime\":[14.2,0.5,3],\"totalDistance\":10234.5,\"totalToll\":{\"toll\":1320},\"totalTollEtc\":{\"toll\":930.0},\"totalTravelTime\":1260}}";

fn number(text: &str) -> serde_json::Number {
    text.parse().unwrap()
}

fn document(text: &str) -> serde_json::Value {
    serde_json::from_str(text).unwrap()
}

fn empty_result() -> RouteResult {
    RouteResult { route_id: None, status: None, route_result_id: None, summary: None, guide: None }
}

fn empty_info() -> GuideInfo {
    GuideInfo {
        guide_direction: None,
        road_type: None,
        distance: None,
        travel_time: None,
        guide_detail: None,
        guide_highway: None,
        guide_crossing: None,
        guide_road: None,
        guide_toll: None,
        guide_toll_etc: None,
        shape_index_first: None,
        shape_index_last: None,
        shape: None,
        shape_info: None,
        shape_points: None,
        order: None,
    }
}

#[test]
fn minimal_response_round_trips() {
    let body = "{\"routeId\": \"r1\", \"status\": \"OK\"}";
    let result = parse_response(body).unwrap();
    assert_eq!(result.route_id, Some("r1".to_string()));
    assert_eq!(result.status, Some("OK".to_string()));
    assert_eq!(result.route_result_id, None);
    assert_eq!(result.summary, None);
    assert_eq!(result.guide, None);
    let text = result.to_json_text();
    assert_eq!(text, "{\"routeId\":\"r1\",\"status\":\"OK\"}");
    assert!(!text.contains("null"));
}

#[test]
fn status_only_response_has_nothing_else() {
    let result = parse_response("{\"status\":\"NG\"}").unwrap();
    assert_eq!(result.status, Some("NG".to_string()));
    assert_eq!(result.summary, None);
    assert_eq!(result.guide, None);
    assert_eq!(result.route_id, None);
    assert_eq!(result.route_result_id, None);
    assert_eq!(result.to_json_text(), "{\"status\":\"NG\"}");
}

#[test]
fn empty_object_is_an_empty_result() {
    let result = parse_response("{}").unwrap();
    assert_eq!(result, empty_result());
    assert_eq!(result.to_json_text(), "{}");
}

#[test]
fn full_response_round_trips() {
    let result = parse_response(FULL).unwrap();
    assert_eq!(result.to_json_text(), FULL);
}

#[test]
fn full_response_is_read_field_by_field() {
    let result = parse_response(FULL).unwrap();
    assert_eq!(result.route_id, Some("r-20221204".to_string()));
    assert_eq!(result.route_result_id, Some("res-42".to_string()));
    let summary = result.summary.unwrap();
    assert_eq!(summary.total_distance, Some(number("10234.5")));
    assert_eq!(summary.total_travel_time, Some(number("1260")));
    assert_eq!(summary.total_toll, Some(Toll { toll: Some(number("1320")) }));
    assert_eq!(summary.total_toll_etc, Some(Toll { toll: Some(number("930.0")) }));
    assert_eq!(
        summary.departure_time,
        Some(DateTime { date: Some("20221204".to_string()), time: Some("100000".to_string()) })
    );
    assert_eq!(summary.section_time, Some(vec![number("14.2"), number("0.5"), number("3")]));
    let guide = result.guide.unwrap();
    assert_eq!(guide.len(), 2);
    assert_eq!(guide[0].type_, Some(GuideType::Start));
    assert_eq!(
        guide[0].guide_points,
        Some(vec![
            Point { lon: Some(number("139.767")), lat: Some(number("35.681")) },
            Point { lon: Some(number("139.69")), lat: Some(number("35.64")) },
        ])
    );
    let info = guide[0].guide_info.as_ref().unwrap();
    assert_eq!(info.guide_direction, Some(GuideDirection::Right));
    assert_eq!(info.road_type, Some(101));
    assert_eq!(info.distance, Some(number("120.5")));
    assert_eq!(
        info.guide_detail,
        Some(GuideDetail {
            code: Some(GuideDetailCode::HighwayEntrance),
            name: Some("Kasumigaseki".to_string())
        })
    );
    let facilities = info.guide_highway.as_ref().unwrap().facilities.as_ref().unwrap();
    assert_eq!(
        facilities[0],
        Facility {
            type_: Some(FacilityType::Sa),
            name: Some("Ebina".to_string()),
            info: Some(33554688)
        }
    );
    assert_eq!(facilities[1].type_, Some(FacilityType::Ic));
    assert_eq!(facilities[1].info, None);
    assert_eq!(
        info.guide_toll,
        Some(GuideToll {
            toll_gate_code: Some(TollGateCode::Settle),
            toll: Some(1320),
            name: Some("Tokyo".to_string())
        })
    );
    let etc = info.guide_toll_etc.as_ref().unwrap();
    assert_eq!(etc.etc_code, Some(EtcCode::Gate));
    assert_eq!(etc.toll, Some(930));
    assert_eq!(info.shape, Some(vec![ShapeType::Start, ShapeType::Road, ShapeType::End]));
    assert_eq!(info.order, Some(vec![0, 1, 4294967295]));
    let shape_info = info.shape_info.as_ref().unwrap();
    assert_eq!(shape_info.road_type, Some(101));
    assert_eq!(shape_info.data_id, Some(3));
    assert_eq!(shape_info.info, Some(1048832));
    assert_eq!(info.shape_index_last.as_ref().unwrap().shape_points_index, Some(65535));
    assert_eq!(info.shape_points.as_ref().unwrap()[0].el, Some(12));
    assert_eq!(guide[1].type_, Some(GuideType::Goal));
    let last = guide[1].guide_info.as_ref().unwrap();
    assert_eq!(last.guide_direction, Some(GuideDirection::Unknown));
    assert_eq!(last.guide_toll.as_ref().unwrap().toll, Some(-5));
    assert_eq!(last.guide_toll.as_ref().unwrap().name, None);
}

#[test]
fn members_in_any_order_give_the_same_document() {
    let body = "{\"status\":\"OK\",\"summary\":{\"totalTravelTime\":12.5,\"totalDistance\":3},\"routeId\":\"r1\",\"guide\":[{\"type\":0,\"guidePoints\":[{\"lon\":139.7,\"lat\":35.6}]}]}";
    let text = parse_response(body).unwrap().to_json_text();
    assert_eq!(document(&text), document(body));
}

#[test]
fn null_fields_are_read_as_missing_and_left_out() {
    let result =
        parse_response("{\"routeId\":null,\"status\":\"OK\",\"summary\":null,\"guide\":null}")
            .unwrap();
    assert_eq!(result.route_id, None);
    assert_eq!(result.summary, None);
    assert_eq!(result.guide, None);
    assert_eq!(result.to_json_text(), "{\"status\":\"OK\"}");
}

#[test]
fn unknown_members_are_passed_over() {
    let result = parse_response("{\"status\":\"OK\",\"extra\":[1,2],\"summary\":{\"note\":true}}")
        .unwrap();
    assert_eq!(result.status, Some("OK".to_string()));
    assert_eq!(result.to_json_text(), "{\"status\":\"OK\",\"summary\":{}}");
}

#[test]
fn empty_lists_stay_empty_lists() {
    let body = "{\"guide\":[],\"summary\":{\"sectionTime\":[]}}";
    let result = parse_response(body).unwrap();
    assert_eq!(result.guide, Some(vec![]));
    assert_eq!(result.to_json_text(), body);
}

#[test]
fn text_that_is_no_json_is_a_syntax_error() {
    assert_eq!(parse_response(""), Err(RouteError::Syntax));
    assert_eq!(parse_response("{\"status\":"), Err(RouteError::Syntax));
    assert_eq!(parse_response("{\"status\":\"OK\"} trailing"), Err(RouteError::Syntax));
    assert_eq!(parse_response("<html></html>"), Err(RouteError::Syntax));
}

#[test]
fn a_document_that_is_no_object_is_a_shape_error() {
    assert_eq!(parse_response("[]"), Err(RouteError::Shape));
    assert_eq!(parse_response("null"), Err(RouteError::Shape));
    assert_eq!(parse_response("\"OK\""), Err(RouteError::Shape));
    assert_eq!(parse_response("12"), Err(RouteError::Shape));
    assert_eq!(parse_response("true"), Err(RouteError::Shape));
}

#[test]
fn a_field_of_the_wrong_type_is_a_shape_error() {
    for body in [
        "{\"status\":5}",
        "{\"routeId\":[\"r1\"]}",
        "{\"summary\":\"short\"}",
        "{\"summary\":[]}",
        "{\"guide\":{}}",
        "{\"guide\":[null]}",
        "{\"guide\":[{\"type\":\"start\"}]}",
        "{\"summary\":{\"totalDistance\":\"far\"}}",
        "{\"summary\":{\"sectionTime\":[1,\"2\"]}}",
        "{\"summary\":{\"sectionTime\":[1,null]}}",
        "{\"summary\":{\"departureTime\":{\"date\":20221204}}}",
        "{\"guide\":[{\"guideInfo\":{\"guideToll\":{\"toll\":\"1320\"}}}]}",
        "{\"guide\":[{\"guideInfo\":{\"shape\":4}}]}",
    ] {
        assert_eq!(parse_response(body), Err(RouteError::Shape), "{}", body);
    }
}

#[test]
fn a_number_out_of_range_is_a_shape_error() {
    for body in [
        "{\"guide\":[{\"guideInfo\":{\"roadType\":65536}}]}",
        "{\"guide\":[{\"guideInfo\":{\"roadType\":-1}}]}",
        "{\"guide\":[{\"guideInfo\":{\"roadType\":1.5}}]}",
        "{\"guide\":[{\"guideInfo\":{\"roadType\":1.0}}]}",
        "{\"guide\":[{\"guideInfo\":{\"shapeInfo\":{\"roadType\":256}}}]}",
        "{\"guide\":[{\"guideInfo\":{\"shapeInfo\":{\"info\":4294967296}}}]}",
        "{\"guide\":[{\"guideInfo\":{\"order\":[4294967296]}}]}",
        "{\"guide\":[{\"guideInfo\":{\"guideToll\":{\"toll\":9223372036854775808}}}]}",
        "{\"guide\":[{\"guideInfo\":{\"guideToll\":{\"toll\":1.5}}}]}",
    ] {
        assert_eq!(parse_response(body), Err(RouteError::Shape), "{}", body);
    }
}

#[test]
fn numbers_at_the_ends_of_their_ranges_are_read() {
    let body = "{\"guide\":[{\"guideInfo\":{\"guideToll\":{\"toll\":9223372036854775807},\"guideTollEtc\":{\"toll\":-9223372036854775808},\"order\":[0,4294967295],\"roadType\":65535,\"shapeInfo\":{\"dataId\":0,\"info\":4294967295,\"roadType\":255}}}]}";
    let result = parse_response(body).unwrap();
    let guide = result.guide.as_ref().unwrap();
    let info = guide[0].guide_info.as_ref().unwrap();
    assert_eq!(info.road_type, Some(65535));
    assert_eq!(info.guide_toll.as_ref().unwrap().toll, Some(i64::MAX));
    assert_eq!(info.guide_toll_etc.as_ref().unwrap().toll, Some(i64::MIN));
    assert_eq!(info.shape_info.as_ref().unwrap().road_type, Some(255));
    assert_eq!(result.to_json_text(), body);
}

#[test]
fn a_code_that_the_service_does_not_know_is_a_shape_error() {
    for body in [
        "{\"guide\":[{\"type\":4}]}",
        "{\"guide\":[{\"guideInfo\":{\"guideDirection\":14}}]}",
        "{\"guide\":[{\"guideInfo\":{\"shape\":[4,7]}}]}",
        "{\"guide\":[{\"guideInfo\":{\"shape\":[3]}}]}",
        "{\"guide\":[{\"guideInfo\":{\"guideToll\":{\"tollGateCode\":0}}}]}",
        "{\"guide\":[{\"guideInfo\":{\"guideToll\":{\"tollGateCode\":9}}}]}",
        "{\"guide\":[{\"guideInfo\":{\"guideTollEtc\":{\"etcCode\":3}}}]}",
        "{\"guide\":[{\"guideInfo\":{\"guideHighway\":{\"facilities\":[{\"type\":6}]}}}]}",
        "{\"guide\":[{\"guideInfo\":{\"guideDetail\":{\"code\":35}}}]}",
    ] {
        assert_eq!(parse_response(body), Err(RouteError::Shape), "{}", body);
    }
}

#[test]
fn every_code_is_read_and_written_as_its_number() {
    for code in 0..=13u64 {
        let body = format!("{{\"guide\":[{{\"guideInfo\":{{\"guideDirection\":{}}}}}]}}", code);
        let result = parse_response(&body).unwrap();
        let direction =
            result.guide.as_ref().unwrap()[0].guide_info.as_ref().unwrap().guide_direction;
        assert_eq!(direction, GuideDirection::from_code(code));
        assert_eq!(u64::from(direction.unwrap().code()), code);
        assert_eq!(result.to_json_text(), body);
    }
    assert_eq!(GuideType::from_code(3), Some(GuideType::Waypoint));
    assert_eq!(GuideType::from_code(4), None);
    assert_eq!(ShapeType::Road.code(), 4);
    assert_eq!(ShapeType::from_code(6), Some(ShapeType::End));
    assert_eq!(EtcCode::from_code(2), Some(EtcCode::Antena));
    assert_eq!(TollGateCode::from_code(8), Some(TollGateCode::SettleAndIssue));
    assert_eq!(TollGateCode::Issue.code(), 1);
    assert_eq!(FacilityType::SmartIc.code(), 7);
    assert_eq!(FacilityType::from_code(6), None);
    assert_eq!(GuideDetailCode::FerryTerminal.code(), 48);
    assert_eq!(GuideDetailCode::from_code(34), Some(GuideDetailCode::HighwayService));
    assert_eq!(RoadType::from_code(101), Some(RoadType::Highway));
    assert_eq!(RoadType::from_code(11), None);
    assert_eq!(RoadType::OtherToll.code(), 108);
}

#[test]
fn a_result_built_by_hand_is_written_with_its_set_fields() {
    let mut info = empty_info();
    info.guide_direction = Some(GuideDirection::Left);
    info.road_type = Some(3);
    info.distance = Some(number("42.5"));
    info.order = Some(vec![2, 1]);
    let result = RouteResult {
        route_id: Some("r \"quoted\"".to_string()),
        status: Some("OK".to_string()),
        route_result_id: None,
        summary: Some(RouteSummary {
            total_distance: Some(number("1000")),
            total_travel_time: None,
            total_toll: Some(Toll { toll: None }),
            total_toll_etc: None,
            departure_time: None,
            section_time: Some(vec![number("1.5")]),
        }),
        guide: Some(vec![Guide {
            type_: Some(GuideType::Waypoint),
            guide_points: None,
            guide_info: Some(info),
        }]),
    };
    let text = result.to_json_text();
    assert_eq!(
        text,
        "{\"guide\":[{\"guideInfo\":{\"distance\":42.5,\"guideDirection\":11,\"order\":[2,1],\"roadType\":3},\"type\":3}],\"routeId\":\"r \\\"quoted\\\"\",\"status\":\"OK\",\"summary\":{\"sectionTime\":[1.5],\"totalDistance\":1000,\"totalToll\":{}}}"
    );
    assert_eq!(parse_response(&text), Ok(result));
}

#[test]
fn a_document_in_memory_is_read_like_its_text() {
    let doc = document(FULL);
    let from_document = RouteResult::decode(&doc).unwrap();
    assert_eq!(Ok(from_document), parse_response(FULL));
    assert_eq!(RouteResult::decode(&document("[1]")), Err(Mismatch));
    assert_eq!(RouteResult::decode(&document("{\"status\":1}")), Err(Mismatch));
}

#[test]
fn a_result_is_written_as_the_document_it_was_read_from() {
    let result = parse_response(FULL).unwrap();
    assert_eq!(result.encode(), document(FULL));
    assert_eq!(empty_result().encode(), document("{}"));
}

#[test]
fn parts_of_a_result_have_their_own_json_form() {
    assert_eq!(String::decode(&document("\"abc\"")), Ok("abc".to_string()));
    assert_eq!(String::decode(&document("1")), Err(Mismatch));
    assert_eq!(u8::decode(&document("255")), Ok(255));
    assert_eq!(u8::decode(&document("256")), Err(Mismatch));
    assert_eq!(u16::decode(&document("65535")), Ok(65535));
    assert_eq!(u16::decode(&document("65536")), Err(Mismatch));
    assert_eq!(u32::decode(&document("4294967295")), Ok(4294967295));
    assert_eq!(u32::decode(&document("-1")), Err(Mismatch));
    assert_eq!(i64::decode(&document("-7")), Ok(-7));
    assert_eq!(i64::decode(&document("7.0")), Err(Mismatch));
    assert_eq!(Vec::<u32>::decode(&document("[1,2,3]")), Ok(vec![1, 2, 3]));
    assert_eq!(Vec::<u32>::decode(&document("[1,\"2\"]")), Err(Mismatch));
    assert_eq!(Vec::<u32>::decode(&document("{}")), Err(Mismatch));
    assert_eq!(serde_json::Number::decode(&document("1.25")), Ok(number("1.25")));
    assert_eq!(serde_json::Number::decode(&document("\"1.25\"")), Err(Mismatch));
    assert_eq!("abc".to_string().encode(), document("\"abc\""));
    assert_eq!(7u8.encode(), document("7"));
    assert_eq!(300u16.encode(), document("300"));
    assert_eq!(70000u32.encode(), document("70000"));
    assert_eq!((-7i64).encode(), document("-7"));
    assert_eq!(vec![1u16, 2].encode(), document("[1,2]"));
    assert_eq!(number("1.25").encode(), document("1.25"));
    assert_eq!(GuideType::Goal.encode(), document("2"));
    assert_eq!(GuideType::decode(&document("2")), Ok(GuideType::Goal));
    assert_eq!(GuideType::decode(&document("\"2\"")), Err(Mismatch));
    assert_eq!(
        Point::decode(&document("{\"lon\":1,\"lat\":null}")),
        Ok(Point { lon: Some(number("1")), lat: None })
    );
    assert_eq!(Point::decode(&document("[1,2]")), Err(Mismatch));
}

#[test]
fn answer_is_written_only_for_status_200() {
    assert_eq!(
        answer_text(200, "{\"status\": \"OK\", \"routeId\": \"r1\"}"),
        Ok("{\"routeId\":\"r1\",\"status\":\"OK\"}".to_string())
    );
    assert_eq!(answer_text(404, "{\"status\":\"OK\"}"), Err(RouteError::Status(404)));
    assert_eq!(answer_text(500, "not json"), Err(RouteError::Status(500)));
    assert_eq!(answer_text(201, "{}"), Err(RouteError::Status(201)));
}

#[test]
fn answer_with_a_bad_body_is_an_error() {
    assert_eq!(answer_text(200, "not json"), Err(RouteError::Syntax));
    assert_eq!(answer_text(200, "[]"), Err(RouteError::Shape));
    assert_eq!(answer_text(200, "{\"guide\":[{\"type\":9}]}"), Err(RouteError::Shape));
}
