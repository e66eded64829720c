use copilot_helix::json::{JsonValue, Number, Object};
use copilot_helix::jsonrpc::Message;
use copilot_helix::proxy::{
    completion_log_fields, log_helix_message, prepare_helix_message,
    prepare_helix_message_with_action, prepare_upstream_message, translate_helix_intercept,
    HelixLog,
};
use copilot_helix::router::RouteAction;
use copilot_helix::translator::Translator;

fn convert(value: &serde_json::Value) -> JsonValue {
    match value {
        serde_json::Value::Null => JsonValue::Null,
        serde_json::Value::Bool(b) => JsonValue::Bool(*b),
        serde_json::Value::Number(n) => JsonValue::Number(match (n.as_u64(), n.as_i64()) {
            (Some(n), _) => Number::PosInt(n),
            (None, Some(n)) => Number::NegInt(n),
            (None, None) => Number::Float(n.as_f64().unwrap().to_bits()),
        }),
        serde_json::Value::String(s) => JsonValue::text(s),
        serde_json::Value::Array(items) => JsonValue::Array(items.iter().map(convert).collect()),
        serde_json::Value::Object(members) => JsonValue::Object(
            members
                .iter()
                .fold(Object::new(), |object, (key, value)| object.with(key, convert(value))),
        ),
    }
}

fn json(text: &str) -> JsonValue {
    convert(&serde_json::from_str::<serde_json::Value>(text).expect("JSON text"))
}

fn completion() -> Message {
    Message::request(
        1,
        "textDocument/completion",
        json(
            r#"{
                "textDocument": { "uri": "file:///src/main.rs" },
                "position": { "line": 7, "character": 3 },
                "context": { "triggerKind": 1 }
            }"#,
        ),
    )
}

#[test]
fn completion_log_fields_skip_extraction_when_debug_is_disabled() {
    let msg = completion();

    assert!(completion_log_fields(&msg, false).is_none());
}

#[test]
fn completion_log_fields_extract_expected_values_when_enabled() {
    let msg = completion();

    let fields = completion_log_fields(&msg, true).expect("expected completion log fields");
    assert_eq!(fields.uri, "file:///src/main.rs");
    assert_eq!(fields.line, 7);
    assert_eq!(fields.character, 3);
    assert_eq!(fields.trigger_kind, Some(1));
}

#[test]
fn completion_log_fields_have_defaults() {
    let msg = Message::request(1, "textDocument/completion", json("{}"));
    let fields = completion_log_fields(&msg, true).expect("expected completion log fields");
    assert_eq!(fields.uri, "<missing>");
    assert_eq!((fields.line, fields.character), (0, 0));
    assert_eq!(fields.trigger_kind, None);
    assert!(completion_log_fields(&Message::request(1, "m", json("{}")), true).is_none());
}

#[test]
fn log_tells_of_completions_and_documents() {
    assert!(matches!(log_helix_message(&completion(), true), HelixLog::Completion(_)));
    assert!(matches!(log_helix_message(&completion(), false), HelixLog::Nothing));
    for method in ["textDocument/didOpen", "textDocument/didChange", "textDocument/didClose"] {
        let msg = Message::notification(method, json("{}"));
        assert!(matches!(log_helix_message(&msg, true), HelixLog::DocumentSync));
        assert!(matches!(log_helix_message(&msg, false), HelixLog::Nothing));
    }
    let msg = Message::notification("textDocument/didSave", json("{}"));
    assert!(matches!(log_helix_message(&msg, true), HelixLog::Nothing));
    let msg = Message::success(json("1"), json("{}"));
    assert!(matches!(log_helix_message(&msg, true), HelixLog::Nothing));
}

#[test]
fn completion_goes_out_and_its_answer_comes_back() {
    let mut translator = Translator::new();
    let sent = prepare_helix_message(completion(), &mut translator);
    assert_eq!(sent.method(), Some("textDocument/inlineCompletion"));

    let reply = Message::success(sent.id.unwrap(), json(r#"{ "items": [{ "insertText": "x" }] }"#));
    let answer = prepare_upstream_message(reply, &mut translator).expect("answer");
    assert_eq!(answer.id, Some(json("1")));
    let items = answer.result.as_ref().and_then(|r| r.get("items")).and_then(|i| i.as_array());
    assert_eq!(items.map(|items| items.len()), Some(1));
}

#[test]
fn cancellation_is_remapped() {
    let mut translator = Translator::new();
    prepare_helix_message(completion(), &mut translator);
    let mut other = completion();
    other.id = Some(json("\"x\""));
    prepare_helix_message(other, &mut translator);
    let cancel = Message::notification("$/cancelRequest", json(r#"{ "id": "x" }"#));
    let sent = prepare_helix_message(cancel, &mut translator);
    assert_eq!(sent.params, Some(json(r#"{ "id": 2 }"#)));
}

#[test]
fn document_events_pass_and_are_observed() {
    let mut translator = Translator::new();
    let params = r#"{ "textDocument": { "uri": "file:///src/main.rs", "version": 4 } }"#;
    let open = Message::notification("textDocument/didOpen", json(params));
    let sent = prepare_helix_message(open, &mut translator);
    assert_eq!(sent.method(), Some("textDocument/didOpen"));
    assert_eq!(sent.params, Some(json(params)));

    let sent = prepare_helix_message(completion(), &mut translator);
    let document = sent.params.as_ref().and_then(|p| p.get("textDocument"));
    assert_eq!(document.and_then(|d| d.get("version")), Some(&json("4")));
}

#[test]
fn actions_decide_what_becomes_of_a_message() {
    let mut translator = Translator::new();
    let hover = || Message::request(3, "textDocument/hover", json("{}"));
    let prepare = |translator: &mut Translator, action| {
        prepare_helix_message_with_action(hover(), action, translator)
    };
    let passed = prepare(&mut translator, RouteAction::PassThrough).expect("message");
    assert_eq!(passed.id, Some(json("3")));
    assert!(prepare(&mut translator, RouteAction::Drop).is_none());
    let kept = translate_helix_intercept(hover(), &mut translator);
    assert_eq!(kept.method(), Some("textDocument/hover"));
}

#[test]
fn internal_messages_of_the_server_are_dropped() {
    let mut translator = Translator::new();
    let msg = Message::notification("$/progress", json("{}"));
    assert!(prepare_upstream_message(msg, &mut translator).is_none());
    let msg = Message::notification("window/logMessage", json("{}"));
    assert!(prepare_upstream_message(msg, &mut translator).is_some());
}

#[test]
fn server_requests_with_a_pending_id_reach_helix() {
    let mut translator = Translator::new();
    let sent = prepare_helix_message(completion(), &mut translator);
    let id = sent.id.unwrap();
    let ask = Message::request_with_id(id.clone(), "window/showMessageRequest", json("{}"));
    let got = prepare_upstream_message(ask, &mut translator).expect("request");
    assert_eq!(got.id, Some(id.clone()));
    // The completion is still pending.
    let reply = Message::success(id, json("{}"));
    let answer = prepare_upstream_message(reply, &mut translator).expect("answer");
    assert_eq!(answer.id, Some(json("1")));
}
