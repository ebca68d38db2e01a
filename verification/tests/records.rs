use odpt_bus::decode::{number, object, optional_text, text, texts, Decode};
use odpt_bus::error::{DecodeError, Field};
use odpt_bus::json::{Json, Shape};
use odpt_bus::route::RoutePattern;
use odpt_bus::stop::BusStop;
use odpt_bus::timetable::{StopTimetable, TimetableEntry};
use odpt_bus::vehicle::{VehiclePosition, VehiclePositionFeed};

const STOP: &str = "{\"title\":{\"ja\":\"東京駅\",\"en\":\"Tokyo Sta.\"},\
    \"owl:sameAs\":\"odpt.BusstopPole:Toei.Tokyo.1\",\
    \"geo:lat\":35.68,\"geo:long\":139.76,\
    \"odpt:busroutePattern\":[\"odpt.BusroutePattern:Toei.A\",\"odpt.BusroutePattern:Toei.B\"],\
    \"odpt:busstopPoleTimetable\":[\"odpt.BusstopPoleTimetable:Toei.T\"],\
    \"odpt:note\":null}";

fn parse(text: &str) -> Json {
    Json::parse(text.as_bytes()).unwrap()
}

#[test]
fn stop_is_read_member_by_member() {
    let stop = BusStop::decode(&parse(STOP)).unwrap();
    let title = stop.title.unwrap();
    assert_eq!(title.primary_name, "東京駅");
    assert_eq!(title.localized_name, Some("Tokyo Sta.".to_string()));
    assert_eq!(title.alternate_script_name, None);
    assert_eq!(stop.external_id, "odpt.BusstopPole:Toei.Tokyo.1");
    assert_eq!(stop.short_id, "");
    assert_eq!(stop.latitude.as_f64(), Some(35.68));
    assert_eq!(stop.longitude.as_f64(), Some(139.76));
    assert_eq!(
        stop.route_pattern_refs,
        vec!["odpt.BusroutePattern:Toei.A".to_string(), "odpt.BusroutePattern:Toei.B".to_string()]
    );
    assert_eq!(stop.timetable_refs, vec!["odpt.BusstopPoleTimetable:Toei.T".to_string()]);
}

#[test]
fn stop_takes_whole_numbers_as_coordinates() {
    let json = parse(
        "{\"title\":\"x\",\"owl:sameAs\":\"a.b\",\"geo:lat\":35,\"geo:long\":-139,\
         \"odpt:busroutePattern\":[],\"odpt:busstopPoleTimetable\":[]}",
    );
    let stop = BusStop::decode(&json).unwrap();
    assert_eq!(stop.latitude.as_f64(), Some(35.0));
    assert_eq!(stop.longitude.as_f64(), Some(-139.0));
}

#[test]
fn stop_reports_the_first_member_that_fails() {
    let json = parse("{}");
    assert_eq!(BusStop::decode(&json), Err(DecodeError::Missing(Field::Title)));
    let json = parse("{\"title\":5}");
    assert_eq!(
        BusStop::decode(&json),
        Err(DecodeError::Unexpected(Field::Title, Shape::Number))
    );
    let json = parse("{\"title\":\"x\",\"geo:lat\":\"north\"}");
    assert_eq!(BusStop::decode(&json), Err(DecodeError::Missing(Field::ExternalId)));
    let json = parse("{\"title\":\"x\",\"owl:sameAs\":\"a.b\",\"geo:lat\":\"north\"}");
    assert_eq!(
        BusStop::decode(&json),
        Err(DecodeError::Unexpected(Field::Latitude, Shape::String))
    );
    let json = parse("{\"title\":\"x\",\"owl:sameAs\":\"a.b\",\"geo:lat\":1,\"geo:long\":null}");
    assert_eq!(
        BusStop::decode(&json),
        Err(DecodeError::Unexpected(Field::Longitude, Shape::Null))
    );
    let json = parse(
        "{\"title\":\"x\",\"owl:sameAs\":\"a.b\",\"geo:lat\":1,\"geo:long\":2,\
         \"odpt:busroutePattern\":[\"a\",7,true],\"odpt:busstopPoleTimetable\":[]}",
    );
    assert_eq!(
        BusStop::decode(&json),
        Err(DecodeError::Unexpected(Field::RoutePatternRefs, Shape::Number))
    );
    let json = parse(
        "{\"title\":\"x\",\"owl:sameAs\":\"a.b\",\"geo:lat\":1,\"geo:long\":2,\
         \"odpt:busroutePattern\":[],\"odpt:busstopPoleTimetable\":\"t\"}",
    );
    assert_eq!(
        BusStop::decode(&json),
        Err(DecodeError::Unexpected(Field::TimetableRefs, Shape::String))
    );
}

#[test]
fn what_is_no_object_is_no_record() {
    assert_eq!(
        BusStop::decode(&parse("[]")),
        Err(DecodeError::NotARecord(Shape::Array))
    );
    assert_eq!(
        RoutePattern::decode(&parse("\"r\"")),
        Err(DecodeError::NotARecord(Shape::String))
    );
    assert_eq!(
        StopTimetable::decode(&parse("null")),
        Err(DecodeError::NotARecord(Shape::Null))
    );
    assert_eq!(
        TimetableEntry::decode(&parse("1")),
        Err(DecodeError::NotARecord(Shape::Number))
    );
    assert_eq!(
        VehiclePosition::decode(&parse("true")),
        Err(DecodeError::NotARecord(Shape::Bool))
    );
    assert_eq!(
        VehiclePositionFeed::decode(&parse("[]")),
        Err(DecodeError::NotARecord(Shape::Array))
    );
}

#[test]
fn route_is_read_with_its_identifier_left_empty() {
    let json = parse(
        "{\"odpt:routeName\":\"都01\",\"odpt:fromBusstopPole\":\"odpt.BusstopPole:Toei.A.1\",\
         \"odpt:toBusstopPole\":\"odpt.BusstopPole:Toei.B.2\",\"odpt:busroutePatternId\":\"p\"}",
    );
    assert_eq!(
        RoutePattern::decode(&json),
        Ok(RoutePattern {
            pattern_id: String::new(),
            route_name: "都01".to_string(),
            from_stop_ref: "odpt.BusstopPole:Toei.A.1".to_string(),
            to_stop_ref: "odpt.BusstopPole:Toei.B.2".to_string(),
        })
    );
}

#[test]
fn route_reports_the_first_member_that_fails() {
    assert_eq!(
        RoutePattern::decode(&parse("{}")),
        Err(DecodeError::Missing(Field::RouteName))
    );
    assert_eq!(
        RoutePattern::decode(&parse("{\"odpt:routeName\":\"r\",\"odpt:toBusstopPole\":1}")),
        Err(DecodeError::Missing(Field::FromStopRef))
    );
    assert_eq!(
        RoutePattern::decode(&parse(
            "{\"odpt:routeName\":\"r\",\"odpt:fromBusstopPole\":\"a\",\"odpt:toBusstopPole\":[]}"
        )),
        Err(DecodeError::Unexpected(Field::ToStopRef, Shape::Array))
    );
}

#[test]
fn timetable_keeps_its_departures_in_order() {
    let json = parse(
        "{\"odpt:busstopPole\":\"odpt.BusstopPole:Toei.A.1\",\"odpt:timeTable\":[\
         {\"odpt:departureTime\":\"06:15\"},{\"odpt:departureTime\":\"06:45\",\"odpt:note\":\"x\"},\
         {\"odpt:departureTime\":\"25:05\"}]}",
    );
    let timetable = StopTimetable::decode(&json).unwrap();
    assert_eq!(timetable.stop_ref, "odpt.BusstopPole:Toei.A.1");
    assert_eq!(
        timetable.departures,
        vec![
            TimetableEntry { departure_time: "06:15".to_string() },
            TimetableEntry { departure_time: "06:45".to_string() },
            TimetableEntry { departure_time: "25:05".to_string() },
        ]
    );
}

#[test]
fn timetable_reports_the_first_departure_that_fails() {
    assert_eq!(
        StopTimetable::decode(&parse("{\"odpt:timeTable\":[]}")),
        Err(DecodeError::Missing(Field::StopRef))
    );
    assert_eq!(
        StopTimetable::decode(&parse("{\"odpt:busstopPole\":\"s\"}")),
        Err(DecodeError::Missing(Field::Departures))
    );
    assert_eq!(
        StopTimetable::decode(&parse("{\"odpt:busstopPole\":\"s\",\"odpt:timeTable\":{}}")),
        Err(DecodeError::Unexpected(Field::Departures, Shape::Object))
    );
    assert_eq!(
        StopTimetable::decode(&parse(
            "{\"odpt:busstopPole\":\"s\",\"odpt:timeTable\":[{\"odpt:departureTime\":\"1\"},{},7]}"
        )),
        Err(DecodeError::Missing(Field::DepartureTime))
    );
    assert_eq!(
        StopTimetable::decode(&parse(
            "{\"odpt:busstopPole\":\"s\",\"odpt:timeTable\":[{\"odpt:departureTime\":\"1\"},7,{}]}"
        )),
        Err(DecodeError::NotARecord(Shape::Number))
    );
    assert_eq!(
        StopTimetable::decode(&parse(
            "{\"odpt:busstopPole\":\"s\",\"odpt:timeTable\":[{\"odpt:departureTime\":615}]}"
        )),
        Err(DecodeError::Unexpected(Field::DepartureTime, Shape::Number))
    );
}

#[test]
fn vehicle_reports_the_first_member_that_fails() {
    assert_eq!(
        VehiclePosition::decode(&parse("{}")),
        Err(DecodeError::Missing(Field::Id))
    );
    assert_eq!(
        VehiclePosition::decode(&parse("{\"id\":\"v\"}")),
        Err(DecodeError::Missing(Field::Trip))
    );
    assert_eq!(
        VehiclePosition::decode(&parse("{\"id\":\"v\",\"gtfs:trip\":\"t\"}")),
        Err(DecodeError::Unexpected(Field::Trip, Shape::String))
    );
    assert_eq!(
        VehiclePosition::decode(&parse("{\"id\":\"v\",\"gtfs:trip\":{}}")),
        Err(DecodeError::Missing(Field::TripId))
    );
    assert_eq!(
        VehiclePosition::decode(&parse(
            "{\"id\":\"v\",\"gtfs:trip\":{\"gtfs:tripId\":\"t\"},\"gtfs:vehicle\":{\"gtfs:id\":3}}"
        )),
        Err(DecodeError::Unexpected(Field::VehicleId, Shape::Number))
    );
    assert_eq!(
        VehiclePosition::decode(&parse(
            "{\"id\":\"v\",\"gtfs:trip\":{\"gtfs:tripId\":\"t\"},\"gtfs:vehicle\":{\"gtfs:id\":\"x\"}}"
        )),
        Err(DecodeError::Missing(Field::Position))
    );
    assert_eq!(
        VehiclePosition::decode(&parse(
            "{\"id\":\"v\",\"gtfs:trip\":{\"gtfs:tripId\":\"t\"},\"gtfs:vehicle\":{\"gtfs:id\":\"x\"},\
             \"position\":{\"latitude\":1}}"
        )),
        Err(DecodeError::Missing(Field::PositionLongitude))
    );
    assert_eq!(
        VehiclePosition::decode(&parse(
            "{\"id\":\"v\",\"gtfs:trip\":{\"gtfs:tripId\":\"t\"},\"gtfs:vehicle\":{\"gtfs:id\":\"x\"},\
             \"position\":{\"latitude\":\"1\",\"longitude\":2}}"
        )),
        Err(DecodeError::Unexpected(Field::PositionLatitude, Shape::String))
    );
}

#[test]
fn feed_needs_its_entities() {
    assert_eq!(
        VehiclePositionFeed::decode(&parse("{}")),
        Err(DecodeError::Missing(Field::Entity))
    );
    assert_eq!(
        VehiclePositionFeed::decode(&parse("{\"entity\":null}")),
        Err(DecodeError::Unexpected(Field::Entity, Shape::Null))
    );
    assert_eq!(
        VehiclePositionFeed::decode(&parse("{\"entity\":[]}")),
        Ok(VehiclePositionFeed { entity: vec![] })
    );
    assert_eq!(
        VehiclePositionFeed::decode(&parse("{\"entity\":[[]]}")),
        Err(DecodeError::NotARecord(Shape::Array))
    );
}

#[test]
fn list_is_read_item_by_item() {
    let json = parse(
        "[{\"odpt:departureTime\":\"a\"},{\"odpt:departureTime\":\"b\"}]",
    );
    assert_eq!(
        Vec::<TimetableEntry>::decode(&json),
        Ok(vec![
            TimetableEntry { departure_time: "a".to_string() },
            TimetableEntry { departure_time: "b".to_string() },
        ])
    );
    assert_eq!(Vec::<TimetableEntry>::decode(&parse("[]")), Ok(vec![]));
}

#[test]
fn list_fails_as_its_first_bad_item_does() {
    let json = parse("[{\"odpt:departureTime\":\"a\"},{\"odpt:departureTime\":1},5]");
    assert_eq!(
        Vec::<TimetableEntry>::decode(&json),
        Err(DecodeError::Unexpected(Field::DepartureTime, Shape::Number))
    );
}

#[test]
fn what_is_no_array_is_no_list() {
    assert_eq!(
        Vec::<BusStop>::decode(&parse("{}")),
        Err(DecodeError::NotAList(Shape::Object))
    );
    assert_eq!(
        Vec::<RoutePattern>::decode(&parse("\"x\"")),
        Err(DecodeError::NotAList(Shape::String))
    );
}

#[test]
fn members_are_read_by_their_shape() {
    let json = parse(
        "{\"id\":\"v\",\"en\":null,\"ja\":\"j\",\"geo:lat\":2.5,\"position\":{\"latitude\":1},\
         \"odpt:busroutePattern\":[\"a\",\"b\"],\"gtfs:trip\":7}",
    );
    assert_eq!(text(&json, Field::Id), Ok("v".to_string()));
    assert_eq!(text(&json, Field::PrimaryName), Ok("j".to_string()));
    assert_eq!(text(&json, Field::LocalizedName), Err(DecodeError::Unexpected(Field::LocalizedName, Shape::Null)));
    assert_eq!(text(&json, Field::RouteName), Err(DecodeError::Missing(Field::RouteName)));
    assert_eq!(optional_text(&json, Field::LocalizedName), Ok(None));
    assert_eq!(optional_text(&json, Field::AlternateScriptName), Ok(None));
    assert_eq!(optional_text(&json, Field::PrimaryName), Ok(Some("j".to_string())));
    assert_eq!(
        optional_text(&json, Field::Latitude),
        Err(DecodeError::Unexpected(Field::Latitude, Shape::Number))
    );
    assert_eq!(number(&json, Field::Latitude).unwrap().as_f64(), Some(2.5));
    assert_eq!(number(&json, Field::Longitude), Err(DecodeError::Missing(Field::Longitude)));
    assert_eq!(
        number(&json, Field::Id),
        Err(DecodeError::Unexpected(Field::Id, Shape::String))
    );
    assert_eq!(
        texts(&json, Field::RoutePatternRefs),
        Ok(vec!["a".to_string(), "b".to_string()])
    );
    assert_eq!(texts(&json, Field::TimetableRefs), Err(DecodeError::Missing(Field::TimetableRefs)));
    assert_eq!(
        texts(&json, Field::Id),
        Err(DecodeError::Unexpected(Field::Id, Shape::String))
    );
    assert_eq!(object(&json, Field::Position), Ok(&parse("{\"latitude\":1}")));
    assert_eq!(
        object(&json, Field::Trip),
        Err(DecodeError::Unexpected(Field::Trip, Shape::Number))
    );
    assert_eq!(object(&json, Field::Vehicle), Err(DecodeError::Missing(Field::Vehicle)));
}

#[test]
fn fields_carry_the_names_of_the_service() {
    assert_eq!(Field::Title.name(), "title");
    assert_eq!(Field::LocalizedName.name(), "en");
    assert_eq!(Field::PrimaryName.name(), "ja");
    assert_eq!(Field::AlternateScriptName.name(), "ja-Hrkt");
    assert_eq!(Field::ExternalId.name(), "owl:sameAs");
    assert_eq!(Field::Latitude.name(), "geo:lat");
    assert_eq!(Field::Longitude.name(), "geo:long");
    assert_eq!(Field::RoutePatternRefs.name(), "odpt:busroutePattern");
    assert_eq!(Field::TimetableRefs.name(), "odpt:busstopPoleTimetable");
    assert_eq!(Field::RouteName.name(), "odpt:routeName");
    assert_eq!(Field::FromStopRef.name(), "odpt:fromBusstopPole");
    assert_eq!(Field::ToStopRef.name(), "odpt:toBusstopPole");
    assert_eq!(Field::StopRef.name(), "odpt:busstopPole");
    assert_eq!(Field::Departures.name(), "odpt:timeTable");
    assert_eq!(Field::DepartureTime.name(), "odpt:departureTime");
    assert_eq!(Field::Entity.name(), "entity");
    assert_eq!(Field::Id.name(), "id");
    assert_eq!(Field::Trip.name(), "gtfs:trip");
    assert_eq!(Field::TripId.name(), "gtfs:tripId");
    assert_eq!(Field::Vehicle.name(), "gtfs:vehicle");
    assert_eq!(Field::VehicleId.name(), "gtfs:id");
    assert_eq!(Field::Position.name(), "position");
    assert_eq!(Field::PositionLatitude.name(), "latitude");
    assert_eq!(Field::PositionLongitude.name(), "longitude");
}
