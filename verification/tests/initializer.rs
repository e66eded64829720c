use copilot_helix::initializer::{
    augment_initialize, augment_initialize_response, build_did_change_configuration,
    build_initialization_options, reading_failure, Handshake, HandshakeError, Phase, PLUGIN_NAME,
};
use copilot_helix::json::{JsonValue, Number, Object};
use copilot_helix::jsonrpc::Message;

fn convert(value: &serde_json::Value) -> JsonValue {
    match value {
        serde_json::Value::Null => JsonValue::Null,
        serde_json::Value::Bool(b) => JsonValue::Bool(*b),
        serde_json::Value::Number(n) => JsonValue::Number(match (n.as_u64(), n.as_i64()) {
            (Some(n), _) => Number::PosInt(n),
            (None, Some(n)) => Number::NegInt(n),
            (None, None) => Number::Float(n.as_f64().unwrap().to_bits()),
        }),
        serde_json::Value::String(s) => JsonValue::text(s),
        serde_json::Value::Array(items) => JsonValue::Array(items.iter().map(convert).collect()),
        serde_json::Value::Object(members) => JsonValue::Object(
            members
                .iter()
                .fold(Object::new(), |object, (key, value)| object.with(key, convert(value))),
        ),
    }
}

fn json(text: &str) -> JsonValue {
    convert(&serde_json::from_str::<serde_json::Value>(text).expect("JSON text"))
}

fn at<'a>(value: &'a JsonValue, path: &[&str]) -> &'a JsonValue {
    path.iter()
        .fold(value, |value, key| value.get(key).expect("member"))
}

#[test]
fn augment_adds_editor_info_when_absent() {
    let msg = Message::request(
        1,
        "initialize",
        json(r#"{ "capabilities": {}, "initializationOptions": null }"#),
    );
    let got = augment_initialize(msg, "25.1");
    let params = got.params.unwrap();
    let opts = at(&params, &["initializationOptions"]);
    assert_eq!(at(opts, &["editorInfo", "name"]).as_str(), Some("Helix"));
    assert_eq!(at(opts, &["editorInfo", "version"]).as_str(), Some("25.1"));
    assert_eq!(at(opts, &["editorPluginInfo", "name"]).as_str(), Some(PLUGIN_NAME));
}

#[test]
fn augment_does_not_overwrite_existing_editor_info() {
    let msg = Message::request(
        1,
        "initialize",
        json(
            r#"{
                "capabilities": {},
                "initializationOptions": {
                    "editorInfo": { "name": "CustomEditor", "version": "1.0" }
                }
            }"#,
        ),
    );
    let got = augment_initialize(msg, "25.1");
    let params = got.params.unwrap();
    let opts = at(&params, &["initializationOptions"]);
    // Existing value is preserved.
    assert_eq!(at(opts, &["editorInfo", "name"]).as_str(), Some("CustomEditor"));
    // Missing key is added.
    assert_eq!(at(opts, &["editorPluginInfo", "name"]).as_str(), Some(PLUGIN_NAME));
}

#[test]
fn augment_creates_initialization_options_when_missing() {
    let msg = Message::request(1, "initialize", json(r#"{ "capabilities": {} }"#));
    let got = augment_initialize(msg, "25.1");
    let params = got.params.unwrap();
    let opts = at(&params, &["initializationOptions"]);
    assert_eq!(at(opts, &["editorInfo", "name"]).as_str(), Some("Helix"));
}

#[test]
fn did_change_configuration_is_notification() {
    let n = build_did_change_configuration();
    assert!(n.is_notification());
    assert_eq!(n.method(), Some("workspace/didChangeConfiguration"));
    assert!(!at(n.params.as_ref().unwrap(), &["settings"]).is_null());
}

#[test]
fn augment_initialize_response_adds_completion_provider() {
    let msg = Message::success(
        json("1"),
        json(
            r#"{
                "capabilities": {
                    "inlineCompletionProvider": {}
                }
            }"#,
        ),
    );

    let got = augment_initialize_response(msg);
    let result = got.result.unwrap();
    let capabilities = at(&result, &["capabilities"]);
    assert_eq!(at(capabilities, &["inlineCompletionProvider"]), &json("{}"));
    assert_eq!(
        at(capabilities, &["completionProvider", "resolveProvider"]),
        &JsonValue::Bool(false)
    );
}

#[test]
fn augment_initialize_response_preserves_existing_completion_provider() {
    let msg = Message::success(
        json("1"),
        json(
            r#"{
                "capabilities": {
                    "completionProvider": {
                        "triggerCharacters": ["."]
                    }
                }
            }"#,
        ),
    );

    let got = augment_initialize_response(msg);
    assert_eq!(
        at(
            &got.result.unwrap(),
            &["capabilities", "completionProvider", "triggerCharacters"]
        ),
        &json(r#"["."]"#)
    );
}

#[test]
fn initialization_options_name_both_programs() {
    assert_eq!(
        build_initialization_options("25.1"),
        json(
            r#"{
                "editorInfo": { "name": "Helix", "version": "25.1" },
                "editorPluginInfo": { "name": "copilot-helix", "version": "0.1.0" }
            }"#
        )
    );
}

#[test]
fn settings_are_all_null() {
    assert_eq!(
        build_did_change_configuration().params,
        Some(json(
            r#"{
                "settings": {
                    "http": { "proxy": null, "proxyStrictSSL": null },
                    "github-enterprise": { "uri": null }
                }
            }"#
        ))
    );
}

#[test]
fn augmenting_twice_changes_nothing_more() {
    let once = augment_initialize(Message::request(1, "initialize", json(r#"{ "a": 1 }"#)), "1");
    let twice = augment_initialize(once.clone(), "2");
    assert_eq!(once.params, twice.params);
}

#[test]
fn params_and_options_of_another_shape_are_kept() {
    for params in ["[1]", r#"{ "initializationOptions": "text" }"#] {
        let msg = Message::request(1, "initialize", json(params));
        assert_eq!(augment_initialize(msg, "25.1").params, Some(json(params)));
    }
    let mut msg = Message::request(1, "initialize", json("1"));
    msg.params = None;
    assert_eq!(
        augment_initialize(msg, "25.1").params.unwrap().get("initializationOptions"),
        Some(&build_initialization_options("25.1"))
    );
}

#[test]
fn results_without_capabilities_are_kept() {
    for result in ["null", "{}", r#"{ "capabilities": [] }"#, "[]"] {
        let msg = Message::success(json("1"), json(result));
        assert_eq!(augment_initialize_response(msg).result, Some(json(result)));
    }
    let failed = Message::error_response(json("1"), -1, "no");
    assert!(augment_initialize_response(failed).result.is_none());
}

fn notice(method: &str) -> Message {
    Message::notification(method, json("{}"))
}

#[test]
fn handshake_runs_to_completion() {
    let mut handshake = Handshake::new("25.1");
    assert_eq!(handshake.phase(), Phase::Initialize);
    assert!(handshake.on_helix_message(notice("early")).unwrap().is_empty());
    assert!(handshake.on_helix_message(notice("initialized")).unwrap().is_empty());

    let sent = handshake
        .on_helix_message(Message::request(7, "initialize", json("{}")))
        .unwrap();
    assert_eq!(sent.len(), 1);
    assert_eq!(sent[0].method(), Some("initialize"));
    assert_eq!(sent[0].id, Some(json("7")));
    assert_eq!(
        at(sent[0].params.as_ref().unwrap(), &["initializationOptions", "editorInfo", "version"]),
        &json("\"25.1\"")
    );
    assert_eq!(handshake.phase(), Phase::Response);

    assert!(handshake.on_upstream_message(notice("featureFlagsNotification")).is_none());
    let forwarded = handshake.on_upstream_message(notice("window/logMessage")).unwrap();
    assert_eq!(forwarded.method(), Some("window/logMessage"));
    let answer = handshake
        .on_upstream_message(Message::success(json("7"), json(r#"{ "capabilities": {} }"#)))
        .unwrap();
    assert_eq!(
        answer.result,
        Some(json(r#"{ "capabilities": { "completionProvider": { "resolveProvider": false } } }"#))
    );
    assert_eq!(handshake.phase(), Phase::Initialized);

    assert!(handshake.on_helix_message(notice("initialize")).unwrap().is_empty());
    let sent = handshake.on_helix_message(notice("initialized")).unwrap();
    let methods: Vec<Option<&str>> = sent.iter().map(|msg| msg.method()).collect();
    assert_eq!(
        methods,
        [Some("initialized"), Some("workspace/didChangeConfiguration")]
    );
    assert_eq!(handshake.phase(), Phase::Done);

    let buffered = handshake.into_buffered();
    let methods: Vec<Option<&str>> = buffered.iter().map(|msg| msg.method()).collect();
    assert_eq!(methods, [Some("early"), Some("initialized"), Some("initialize")]);
}

#[test]
fn initialize_needs_an_id() {
    let mut handshake = Handshake::new("unknown");
    let error = handshake.on_helix_message(notice("initialize")).unwrap_err();
    assert_eq!(error, HandshakeError::MissingId);
    assert_eq!(error.description(), "`initialize` request has no id");
}

#[test]
fn handshake_failures_are_described() {
    assert_eq!(
        HandshakeError::UpstreamClosed.description(),
        "upstream closed before sending initialize response"
    );
    assert_eq!(
        reading_failure("initialize"),
        "reading from Helix while waiting for `initialize`"
    );
}
