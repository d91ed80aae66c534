use jest_companion::json::{Json, JsonObject};
use jest_companion::json_io::{from_value, integer, into_value, read_text, write_text};

const SAMPLE: &str = r#"{"a":[1,-2,2.5,"x\n",null,true,{}],"b":{"c":{"d":[]}}}"#;

fn value(text: &str) -> serde_json::Value {
    serde_json::from_str(text).unwrap()
}

#[test]
fn values_come_back_as_they_went() {
    assert_eq!(into_value(from_value(value(SAMPLE))), value(SAMPLE));
    assert_eq!(into_value(from_value(value(SAMPLE)).clone()), value(SAMPLE));
}

#[test]
fn reads_and_writes_text() {
    let json = read_text(SAMPLE).unwrap();
    assert_eq!(write_text(json), SAMPLE);
}

#[test]
fn refuses_what_is_not_json() {
    assert!(read_text("{").is_err());
    assert!(read_text("{} {}").is_err());
    assert_eq!(read_text("").unwrap_err(), "EOF while parsing a value at line 1 column 0");
}

#[test]
fn line_feeds_are_escaped() {
    let text = write_text(Json::text("one\ntwo"));
    assert_eq!(text, "\"one\\ntwo\"");
}

#[test]
fn integers_are_numbers() {
    assert_eq!(write_text(integer(-32601)), "-32601");
    assert_eq!(into_value(integer(5000)), value("5000"));
}

#[test]
fn later_members_replace_earlier_ones() {
    let mut object = JsonObject::new();
    object.insert("k", Json::Bool(false));
    object.insert("l", Json::Null);
    object.insert("k", Json::Bool(true));
    assert!(matches!(object.get("k"), Some(Json::Bool(true))));
    assert!(matches!(object.get("l"), Some(Json::Null)));
    assert!(object.get("m").is_none());
    assert_eq!(object.members.len(), 2);
    assert_eq!(into_value(Json::Object(object)), value(r#"{"k":true,"l":null}"#));
}

#[test]
fn overlay_prefers_the_new_members() {
    let mut base = JsonObject::new();
    base.insert("kept", Json::text("base"));
    base.insert("changed", Json::text("base"));
    let mut over = JsonObject::new();
    over.insert("changed", Json::text("over"));
    over.insert("added", Json::text("over"));
    base.overlay(over);
    assert_eq!(
        into_value(Json::Object(base)),
        value(r#"{"kept":"base","changed":"over","added":"over"}"#)
    );
}

#[test]
fn members_and_texts_are_found() {
    let json = read_text(r#"{"name":"n","count":1}"#).unwrap();
    assert_eq!(json.get_str("name"), Some("n"));
    assert_eq!(json.get_str("count"), None);
    assert!(json.get("count").is_some());
    assert!(json.get("other").is_none());
    assert!(Json::Null.get("name").is_none());
    assert_eq!(Json::text("t").as_str(), Some("t"));
    assert_eq!(Json::Bool(true).as_str(), None);
}
