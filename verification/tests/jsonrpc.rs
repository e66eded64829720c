use copilot_helix::framing::{header_line, read_frame, write_frame, FrameError, HeaderStep};
use copilot_helix::json::{JsonValue, Number, Object};
use copilot_helix::jsonrpc::{
    deserialize_message, read_message, serialize_message, write_message, Message, MessageKind,
    ReadError,
};

fn convert(value: &serde_json::Value) -> JsonValue {
    match value {
        serde_json::Value::Null => JsonValue::Null,
        serde_json::Value::Bool(b) => JsonValue::Bool(*b),
        serde_json::Value::Number(n) => JsonValue::Number(match (n.as_u64(), n.as_i64()) {
            (Some(n), _) => Number::PosInt(n),
            (None, Some(n)) => Number::NegInt(n),
            (None, None) => Number::Float(n.as_f64().unwrap().to_bits()),
        }),
        serde_json::Value::String(s) => JsonValue::text(s),
        serde_json::Value::Array(items) => JsonValue::Array(items.iter().map(convert).collect()),
        serde_json::Value::Object(members) => JsonValue::Object(
            members
                .iter()
                .fold(Object::new(), |object, (key, value)| object.with(key, convert(value))),
        ),
    }
}

fn json(text: &str) -> JsonValue {
    convert(&serde_json::from_str::<serde_json::Value>(text).expect("JSON text"))
}

fn unconvert(value: &JsonValue) -> serde_json::Value {
    match value {
        JsonValue::Null => serde_json::Value::Null,
        JsonValue::Bool(b) => serde_json::Value::Bool(*b),
        JsonValue::Number(Number::PosInt(n)) => serde_json::Value::from(*n),
        JsonValue::Number(Number::NegInt(n)) => serde_json::Value::from(*n),
        JsonValue::Number(Number::Float(bits)) => serde_json::Value::from(f64::from_bits(*bits)),
        JsonValue::String(s) => serde_json::Value::from(s.as_str()),
        JsonValue::Array(items) => serde_json::Value::Array(items.iter().map(unconvert).collect()),
        JsonValue::Object(members) => serde_json::Value::Object(
            (0..members.len())
                .filter_map(|i| members.member_at(i))
                .map(|(key, value)| (key.to_owned(), unconvert(value)))
                .collect(),
        ),
    }
}

fn decode(body: &[u8]) -> Option<JsonValue> {
    serde_json::from_slice::<serde_json::Value>(body).ok().map(|value| convert(&value))
}

fn append_message(buf: &mut Vec<u8>, msg: &Message) {
    let frame = write_message(msg, |value: &JsonValue| serde_json::to_vec(&unconvert(value)));
    buf.extend(frame.unwrap());
}

fn round_trip(msg: &Message) -> Message {
    let mut buf = Vec::new();
    append_message(&mut buf, msg);
    read_message(&buf, decode).unwrap().0
}

#[test]
fn request_round_trip() {
    let msg = Message::request(1, "textDocument/completion", json(r#"{"key": "value"}"#));
    let got = round_trip(&msg);
    assert_eq!(got.id, Some(json("1")));
    assert_eq!(got.method(), Some("textDocument/completion"));
    assert!(got.is_request());
}

#[test]
fn notification_round_trip() {
    let msg = Message::notification("initialized", json("{}"));
    let got = round_trip(&msg);
    assert!(got.is_notification());
    assert_eq!(got.method(), Some("initialized"));
}

#[test]
fn response_round_trip() {
    let msg = Message::success(json("42"), json(r#"{"items": []}"#));
    let got = round_trip(&msg);
    assert!(got.is_response());
    assert_eq!(got.id, Some(json("42")));
    assert_eq!(got.result, Some(json(r#"{"items": []}"#)));
}

#[test]
fn multi_message_stream() {
    let msgs = vec![
        Message::request(1, "initialize", json("{}")),
        Message::notification("initialized", json("{}")),
        Message::success(json("1"), json(r#"{"capabilities": {}}"#)),
    ];
    let mut buf = Vec::new();
    for m in &msgs {
        append_message(&mut buf, m);
    }
    let mut input = buf.as_slice();
    for expected in &msgs {
        let (got, end) = read_message(input, decode).unwrap();
        input = &input[end..];
        assert_eq!(got.method, expected.method);
        assert_eq!(got.id, expected.id);
    }
    assert!(input.is_empty());
}

#[test]
fn ignores_extra_headers() {
    // Some LSP clients send Content-Type alongside Content-Length.
    let body = r#"{"jsonrpc":"2.0","method":"ping","id":1}"#;
    let raw = format!(
        "Content-Length: {}\r\nContent-Type: application/vscode-jsonrpc; charset=utf-8\r\n\r\n{}",
        body.len(),
        body
    );
    let (msg, _) = read_message(raw.as_bytes(), decode).unwrap();
    assert_eq!(msg.method(), Some("ping"));
}

#[test]
fn missing_content_length_errors() {
    let raw = "Content-Type: application/json\r\n\r\n{}";
    assert!(read_message(raw.as_bytes(), decode).is_err());
}

#[test]
fn eof_on_empty_stream_errors() {
    assert!(read_message(b"", decode).is_err());
}

#[test]
fn response_without_payload_serializes_as_null_result() {
    let raw = "Content-Length: 38\r\n\r\n{\"jsonrpc\":\"2.0\",\"id\":2,\"result\":null}";
    let (msg, _) = read_message(raw.as_bytes(), decode).unwrap();

    let mut buf = Vec::new();
    append_message(&mut buf, &msg);

    let encoded = String::from_utf8(buf).unwrap();
    assert!(encoded.contains(r#""result":null"#));
}

#[test]
fn frames_have_a_header_and_the_body() {
    assert_eq!(write_frame(b"{}"), b"Content-Length: 2\r\n\r\n{}");
    assert_eq!(write_frame(b""), b"Content-Length: 0\r\n\r\n");
    assert_eq!(
        write_frame("äö".repeat(30).as_bytes()),
        format!("Content-Length: 120\r\n\r\n{}", "äö".repeat(30)).as_bytes()
    );
}

#[test]
fn frames_are_read_to_their_length() {
    let input = b"Content-Length: 3\r\n\r\nabcdef";
    let (start, end) = read_frame(input).unwrap();
    assert_eq!(&input[start..end], b"abc");
    assert_eq!(&input[end..], b"def");
}

#[test]
fn last_content_length_counts() {
    let input = b"Content-Length: 9\nContent-Length:\t+2 \r\n\r\nab";
    let (start, end) = read_frame(input).unwrap();
    assert_eq!(&input[start..end], b"ab");
}

#[test]
fn broken_frames_are_told_apart() {
    assert_eq!(read_frame(b"Content-Length: 3\r\n"), Err(FrameError::Closed));
    assert_eq!(read_frame(b"\xff\xfe\r\n\r\n"), Err(FrameError::NotText));
    assert_eq!(read_frame(b"Content-Length: x\r\n\r\n"), Err(FrameError::BadLength));
    assert_eq!(read_frame(b"Content-Length: -1\r\n\r\n"), Err(FrameError::BadLength));
    assert_eq!(
        read_frame(b"Content-Length: 99999999999999999999999\r\n\r\n"),
        Err(FrameError::BadLength)
    );
    assert_eq!(read_frame(b"\r\n"), Err(FrameError::NoLength));
    assert_eq!(read_frame(b"content-length: 1\r\n\r\na"), Err(FrameError::NoLength));
    assert_eq!(read_frame(b"Content-Length: 3\r\n\r\nab"), Err(FrameError::ShortBody));
}

#[test]
fn header_lines_lead_to_the_body() {
    assert_eq!(
        header_line(None, b"Content-Length: 12\r\n"),
        HeaderStep::More(Some(12))
    );
    assert_eq!(header_line(Some(12), b"X: y\r\n"), HeaderStep::More(Some(12)));
    assert_eq!(header_line(Some(12), b"\r\n"), HeaderStep::Body(12));
    assert_eq!(header_line(None, b"\n"), HeaderStep::Failed(FrameError::NoLength));
    assert_eq!(header_line(Some(1), b""), HeaderStep::Failed(FrameError::Closed));
    assert_eq!(
        header_line(None, "ä: ü\r\n".as_bytes()),
        HeaderStep::More(None)
    );
}

#[test]
fn frame_errors_are_described() {
    assert_eq!(
        FrameError::Closed.description(),
        "connection closed while reading headers"
    );
    assert_eq!(FrameError::NotText.description(), "reading header line");
    assert_eq!(FrameError::BadLength.description(), "parsing Content-Length value");
    assert_eq!(FrameError::NoLength.description(), "no Content-Length header found");
    assert_eq!(FrameError::ShortBody.description(), "reading message body");
}

#[test]
fn kinds_depend_on_id_and_method() {
    let request = Message::request(1, "m", JsonValue::Null);
    let response = Message::success(json("1"), JsonValue::Null);
    let mut bare = Message::notification("m", JsonValue::Null);
    assert_eq!(request.kind(), MessageKind::Request);
    assert_eq!(response.kind(), MessageKind::Response);
    assert_eq!(bare.kind(), MessageKind::Notification);
    bare.method = None;
    assert_eq!(bare.kind(), MessageKind::Notification);
}

#[test]
fn members_that_are_missing_are_left_out() {
    let msg = Message::notification("m", json("[1.5]"));
    assert_eq!(
        serialize_message(&msg),
        json(r#"{ "jsonrpc": "2.0", "method": "m", "params": [1.5] }"#)
    );
    let msg = Message::error_response(json("\"a\""), -1, "no");
    assert_eq!(
        serialize_message(&msg),
        json(r#"{ "jsonrpc": "2.0", "id": "a", "error": { "code": -1, "message": "no" } }"#)
    );
}

#[test]
fn errors_keep_their_data() {
    let value = json(
        r#"{ "jsonrpc": "2.0", "id": 1, "error": { "code": -5, "message": "m", "data": [0] } }"#,
    );
    let msg = deserialize_message(&value).unwrap();
    assert_eq!(msg.error.as_ref().unwrap().data, Some(json("[0]")));
    assert_eq!(serialize_message(&msg), value);
}

#[test]
fn malformed_messages_are_rejected() {
    for text in [
        "1",
        "{}",
        r#"{ "jsonrpc": 2 }"#,
        r#"{ "jsonrpc": "2.0", "method": 1 }"#,
        r#"{ "jsonrpc": "2.0", "error": {} }"#,
        r#"{ "jsonrpc": "2.0", "error": { "code": 1.5, "message": "m" } }"#,
        r#"{ "jsonrpc": "2.0", "error": { "code": 1, "message": null } }"#,
    ] {
        assert!(deserialize_message(&json(text)).is_none(), "{text}");
    }
}

#[test]
fn null_members_count_as_absent() {
    let msg = deserialize_message(&json(
        r#"{ "jsonrpc": "2.0", "id": null, "method": null, "params": null, "error": null }"#,
    ))
    .unwrap();
    assert!(msg.id.is_none() && msg.method.is_none() && msg.params.is_none());
    assert!(msg.result.is_none() && msg.error.is_none());
}

#[test]
fn json_numbers_compare_by_value_within_a_kind() {
    assert_eq!(JsonValue::signed(3), JsonValue::unsigned(3));
    assert_ne!(json("3.0"), json("3"));
    assert_eq!(json("-0.0"), json("0.0"));
    assert_eq!(json(r#"{ "a": 1, "b": [2] }"#), json(r#"{ "b": [2], "a": 1 }"#));
    assert_ne!(json(r#"{ "a": 1 }"#), json(r#"{ "a": 1, "b": 2 }"#));
    assert_ne!(json("[1, 2]"), json("[2, 1]"));
}

#[test]
fn unreadable_messages_are_told_apart() {
    let read = |input: &[u8]| read_message(input, decode).map(|(_, end)| end);
    assert_eq!(read(b""), Err(ReadError::Frame(FrameError::Closed)));
    assert_eq!(read(b"Content-Length: 1\r\n\r\n{"), Err(ReadError::NotJson));
    assert_eq!(read(b"Content-Length: 2\r\n\r\n{}"), Err(ReadError::NotMessage));
    let valid = write_frame(br#"{"jsonrpc":"2.0"}"#);
    assert_eq!(read(&valid), Ok(valid.len()));
    assert_eq!(
        ReadError::Frame(FrameError::NoLength).description(),
        "no Content-Length header found"
    );
    assert_eq!(ReadError::NotJson.description(), "deserializing JSON-RPC message");
    assert_eq!(ReadError::NotMessage.description(), "deserializing JSON-RPC message");
}

#[test]
fn encoding_failures_are_passed_on() {
    let msg = Message::notification("m", json("{}"));
    assert_eq!(write_message(&msg, |_: &JsonValue| Err("no")), Err("no"));
    assert_eq!(
        write_message(&msg, |_: &JsonValue| Ok::<Vec<u8>, ()>(b"x".to_vec())),
        Ok(b"Content-Length: 1\r\n\r\nx".to_vec())
    );
}

#[test]
fn lists_of_all_fields_are_messages() {
    let msg = deserialize_message(&json(r#"["2.0", 1, "ping", null, null, null]"#)).unwrap();
    assert_eq!(msg.jsonrpc, "2.0");
    assert_eq!(msg.id, Some(json("1")));
    assert_eq!(msg.method(), Some("ping"));
    assert!(msg.params.is_none() && msg.result.is_none() && msg.error.is_none());

    let msg = deserialize_message(&json(
        r#"["2.0", 1, null, [0], {}, [-5, "bad", null]]"#,
    ))
    .unwrap();
    assert_eq!(msg.params, Some(json("[0]")));
    assert_eq!(msg.result, Some(json("{}")));
    let error = msg.error.unwrap();
    assert_eq!((error.code, error.message.as_str()), (-5, "bad"));
    assert!(error.data.is_none());

    let msg = deserialize_message(&json(r#"{ "jsonrpc": "2.0", "error": [1, "m", [2]] }"#)).unwrap();
    assert_eq!(msg.error.unwrap().data, Some(json("[2]")));
}

#[test]
fn lists_of_other_lengths_are_rejected() {
    for text in [
        "[]",
        r#"["2.0", 1, "ping", null, null]"#,
        r#"["2.0", 1, "ping", null, null, null, null]"#,
        r#"[2, 1, "ping", null, null, null]"#,
        r#"["2.0", 1, 2, null, null, null]"#,
        r#"["2.0", 1, "ping", null, null, [1, "m"]]"#,
        r#"{ "jsonrpc": "2.0", "error": [1, "m", 2, 3] }"#,
    ] {
        assert!(deserialize_message(&json(text)).is_none(), "{text}");
    }
}

#[test]
fn members_are_listed_once_each() {
    let object = Object::new()
        .with("b", json("1"))
        .with("a", json("2"))
        .with("b", json("3"));
    assert_eq!(object.len(), 2);
    let listed: Vec<(&str, &JsonValue)> = (0..3).filter_map(|i| object.member_at(i)).collect();
    assert_eq!(listed, [("b", &json("3")), ("a", &json("2"))]);
}
