use odpt_bus::error::{DecodeError, Field};
use odpt_bus::json::{Json, Shape};
use odpt_bus::title::{deserialize_title, Title};

fn text(s: &str) -> Json {
    Json::String(s.to_string())
}

fn object(members: Vec<(&str, Json)>) -> Json {
    Json::Object(members.into_iter().map(|(k, v)| (k.to_string(), v)).collect())
}

#[test]
fn bare_string_becomes_the_primary_name() {
    let title = deserialize_title(&text("東京駅")).unwrap().unwrap();
    assert_eq!(
        title,
        Title {
            localized_name: None,
            primary_name: "東京駅".to_string(),
            alternate_script_name: None,
        }
    );
}

#[test]
fn empty_string_is_a_title_too() {
    let title = deserialize_title(&text("")).unwrap().unwrap();
    assert_eq!(title.primary_name, "");
    assert_eq!(title.localized_name, None);
    assert_eq!(title.alternate_script_name, None);
}

#[test]
fn structured_title_maps_field_for_field() {
    let json = object(vec![
        ("en", text("Tokyo Sta.")),
        ("ja", text("東京駅")),
        ("ja-Hrkt", text("とうきょうえき")),
    ]);
    let title = deserialize_title(&json).unwrap().unwrap();
    assert_eq!(
        title,
        Title {
            localized_name: Some("Tokyo Sta.".to_string()),
            primary_name: "東京駅".to_string(),
            alternate_script_name: Some("とうきょうえき".to_string()),
        }
    );
}

#[test]
fn structured_title_may_leave_out_the_optional_names() {
    let json = object(vec![("ja", text("新宿"))]);
    let title = deserialize_title(&json).unwrap().unwrap();
    assert_eq!(title.primary_name, "新宿");
    assert_eq!(title.localized_name, None);
    assert_eq!(title.alternate_script_name, None);
}

#[test]
fn structured_title_takes_null_for_absent() {
    let json = object(vec![("en", Json::Null), ("ja", text("新宿")), ("ja-Hrkt", Json::Null)]);
    let title = deserialize_title(&json).unwrap().unwrap();
    assert_eq!(title.localized_name, None);
    assert_eq!(title.alternate_script_name, None);
}

#[test]
fn structured_title_passes_over_other_members() {
    let json = object(vec![("ja", text("新宿")), ("ko", text("신주쿠"))]);
    let title = deserialize_title(&json).unwrap().unwrap();
    assert_eq!(title.primary_name, "新宿");
}

#[test]
fn title_from_parsed_text() {
    let json = Json::parse("{\"ja\":\"渋谷\",\"en\":\"Shibuya\"}".as_bytes()).unwrap();
    let title = deserialize_title(&json).unwrap().unwrap();
    assert_eq!(title.primary_name, "渋谷");
    assert_eq!(title.localized_name, Some("Shibuya".to_string()));
    assert_eq!(title.alternate_script_name, None);
}

#[test]
fn object_without_primary_name_is_no_title() {
    let json = object(vec![("en", text("Tokyo"))]);
    assert_eq!(
        deserialize_title(&json),
        Err(DecodeError::Unexpected(Field::Title, Shape::Object))
    );
}

#[test]
fn object_with_a_misshapen_name_is_no_title() {
    let json = object(vec![("ja", text("東京")), ("en", Json::Bool(true))]);
    assert_eq!(
        deserialize_title(&json),
        Err(DecodeError::Unexpected(Field::Title, Shape::Object))
    );
    let json = object(vec![("ja", Json::Null)]);
    assert_eq!(
        deserialize_title(&json),
        Err(DecodeError::Unexpected(Field::Title, Shape::Object))
    );
}

#[test]
fn other_shapes_are_no_title() {
    assert_eq!(
        deserialize_title(&Json::Null),
        Err(DecodeError::Unexpected(Field::Title, Shape::Null))
    );
    assert_eq!(
        deserialize_title(&Json::Bool(true)),
        Err(DecodeError::Unexpected(Field::Title, Shape::Bool))
    );
    assert_eq!(
        deserialize_title(&Json::Number(serde_json::Number::from(3))),
        Err(DecodeError::Unexpected(Field::Title, Shape::Number))
    );
    assert_eq!(
        deserialize_title(&Json::Array(vec![text("東京")])),
        Err(DecodeError::Unexpected(Field::Title, Shape::Array))
    );
}
