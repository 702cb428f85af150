use leafcast::incoming::{to_struct, MessageValues, ParsedMessage, ScreenStatus};
use leafcast::json::JsonValue;
use leafcast::outgoing::{PiStatus, Response, StructuredResponse};

fn doc_from(v: &serde_json::Value) -> JsonValue {
    match v {
        serde_json::Value::Null => JsonValue::Null,
        serde_json::Value::Bool(b) => JsonValue::Bool(*b),
        serde_json::Value::Number(n) => match (n.as_u64(), n.as_i64()) {
            (Some(u), _) => JsonValue::UInt(u),
            (None, Some(i)) => JsonValue::NegInt(i),
            _ => JsonValue::OtherNumber(n.to_string()),
        },
        serde_json::Value::String(s) => JsonValue::Str(s.clone()),
        serde_json::Value::Array(a) => JsonValue::Array(a.iter().map(doc_from).collect()),
        serde_json::Value::Object(m) => {
            JsonValue::Object(m.iter().map(|(k, v)| (k.clone(), doc_from(v))).collect())
        }
    }
}

fn value_from(d: &JsonValue) -> serde_json::Value {
    match d {
        JsonValue::Null => serde_json::Value::Null,
        JsonValue::Bool(b) => serde_json::Value::Bool(*b),
        JsonValue::UInt(u) => serde_json::Value::from(*u),
        JsonValue::NegInt(i) => serde_json::Value::from(*i),
        JsonValue::OtherNumber(t) => serde_json::from_str(t).unwrap_or(serde_json::Value::Null),
        JsonValue::Str(s) => serde_json::Value::String(s.clone()),
        JsonValue::Array(a) => serde_json::Value::Array(a.iter().map(value_from).collect()),
        JsonValue::Object(fs) => serde_json::Value::Object(
            fs.iter().map(|(k, v)| (k.clone(), value_from(v))).collect(),
        ),
    }
}

fn parse(text: &str) -> Option<MessageValues> {
    let value = serde_json::from_str::<serde_json::Value>(text).ok()?;
    to_struct(&doc_from(&value))
}

fn test_is_none(json: &str) {
    let result = parse(json);
    assert!(result.is_none());
}

fn test_is_some(json: &str) {
    let result = parse(json);
    assert!(result.is_some());
    match result.unwrap() {
        MessageValues::Valid(_, _) => (),
        MessageValues::Invalid(_) => unreachable!("this indicates the test has failed"),
    }
}

#[test]
fn message_incoming_parse_invalid() {
    let data = "";
    let result = parse(data);
    assert!(result.is_none());

    let data = "{}";
    let result = parse(data);
    assert!(result.is_none());
}

#[test]
fn message_incoming_parse_status() {
    // body included
    test_is_none(
        r#"{ "data": { "name": "status", "body": { "minute": 6 } }, "unique": "random_string"}"#,
    );

    // no unique
    test_is_none(r#"{ "data": { "name": "status" } }"#);

    // valid message
    test_is_some(r#"{ "data": { "name": "status" }, "unique": "random_string"}"#);
}

#[test]
fn message_incoming_parse_screen() {
    // valid screen on
    test_is_some(r#"{ "data": { "name": "screen_on" }, "unique":"true"}"#);

    // valid screen off
    test_is_some(r#"{ "data": { "name": "screen_off" }, "unique":"true"}"#);
}

#[test]
fn incoming_empty_string_document_is_not_actionable() {
    assert!(parse(r#""""#).is_none());
    assert!(to_struct(&JsonValue::Str(String::new())).is_none());
}

#[test]
fn incoming_status_with_token() {
    match parse(r#"{"data":{"name":"status"},"unique":"abc"}"#) {
        Some(MessageValues::Valid(ParsedMessage::Status, token)) => assert_eq!(token, "abc"),
        other => panic!("unexpected {other:?}"),
    }
}

#[test]
fn incoming_built_by_calls() {
    let doc = JsonValue::Object(vec![
        (
            String::from("data"),
            JsonValue::Object(vec![(String::from("name"), JsonValue::Str(String::from("screen_off")))]),
        ),
        (String::from("unique"), JsonValue::Str(String::from("t1"))),
    ]);
    match to_struct(&doc) {
        Some(MessageValues::Valid(ParsedMessage::ScreenOff, token)) => assert_eq!(token, "t1"),
        other => panic!("unexpected {other:?}"),
    }
}

#[test]
fn incoming_unknown_name_and_bad_unique() {
    test_is_none(r#"{"data":{"name":"reboot"},"unique":"abc"}"#);
    test_is_none(r#"{"data":{"name":"status"},"unique":7}"#);
    test_is_none(r#"{"data":{"name":"status", "body": 1},"unique":"abc"}"#);
    // a null body counts as none
    test_is_some(r#"{"data":{"name":"status", "body": null},"unique":"abc"}"#);
    // an envelope without data carries nothing
    test_is_none(r#"{"unique":"abc"}"#);
}

#[test]
fn incoming_error_envelopes() {
    match parse(r#"{"error":"something","message":"bad"}"#) {
        Some(MessageValues::Invalid(leafcast::incoming::ErrorData::Something(m))) => {
            assert_eq!(m, "bad")
        }
        other => panic!("unexpected {other:?}"),
    }
    match parse(r#"{"data":{"name":"status"},"error":{"error":"something","message":"x"},"unique":"u"}"#) {
        Some(MessageValues::Invalid(_)) => (),
        other => panic!("unexpected {other:?}"),
    }
}

fn sample_status() -> PiStatus {
    PiStatus {
        ip_address: String::from("192.168.1.20"),
        screen_status: Some(ScreenStatus::On),
        time_off: (22, 5),
        time_on: (-1, 30),
        timezone: String::from("Europe/Berlin"),
        uptime_app: 42,
        uptime_ws: 7,
        uptime: 123_456,
        version: String::from("0.1.0"),
    }
}

#[test]
fn outgoing_status_envelope_shape() {
    let doc = StructuredResponse::data(Response::Status(sample_status()), None);
    let value = value_from(&doc);
    assert_eq!(value["data"]["name"], "status");
    assert_eq!(value["data"]["data"]["screen_status"], "on");
    assert_eq!(value["data"]["data"]["uptime"], 123_456);
    assert_eq!(value["data"]["data"]["time_on"][0], -1);
    assert_eq!(value["data"]["data"]["time_off"][1], 5);
    assert!(value.get("unique").is_none());

    let doc = StructuredResponse::data(Response::Error(String::from("no display")), Some(String::from("r9")));
    let value = value_from(&doc);
    assert_eq!(value["data"]["name"], "error");
    assert_eq!(value["data"]["data"], "no display");
    assert_eq!(value["unique"], "r9");
}

#[test]
fn outgoing_round_trip_through_text() {
    for screen in [Some(ScreenStatus::On), Some(ScreenStatus::Off), None] {
        let mut status = sample_status();
        status.screen_status = screen;
        let doc = StructuredResponse::data(Response::Status(status), Some(String::from("abc")));
        let text = serde_json::to_string(&value_from(&doc)).unwrap();
        let back = doc_from(&serde_json::from_str(&text).unwrap());
        let decoded = StructuredResponse::from_json(&back).unwrap();
        assert_eq!(decoded.unique.as_deref(), Some("abc"));
        match decoded.data {
            Response::Status(s) => {
                let expected = sample_status();
                assert_eq!(s.ip_address, expected.ip_address);
                assert_eq!(s.screen_status, screen);
                assert_eq!(s.time_off, expected.time_off);
                assert_eq!(s.time_on, expected.time_on);
                assert_eq!(s.timezone, expected.timezone);
                assert_eq!(s.uptime_app, expected.uptime_app);
                assert_eq!(s.uptime_ws, expected.uptime_ws);
                assert_eq!(s.uptime, expected.uptime);
                assert_eq!(s.version, expected.version);
            }
            Response::Error(_) => panic!("status expected"),
        }
    }
}

#[test]
fn outgoing_decode_rejects_missing_field() {
    let value: serde_json::Value = serde_json::from_str(
        r#"{"data":{"name":"status","data":{"ip_address":"x","uptime":1}}}"#,
    )
    .unwrap();
    assert!(StructuredResponse::from_json(&doc_from(&value)).is_none());
}
