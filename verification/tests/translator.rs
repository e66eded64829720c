use copilot_helix::json::{JsonValue, Number, Object};
use copilot_helix::jsonrpc::Message;
use copilot_helix::translator::{
    build_completion_items, build_inline_completion_params, first_line_truncated,
    inline_item_to_completion, Translator,
};

fn convert(value: &serde_json::Value) -> JsonValue {
    match value {
        serde_json::Value::Null => JsonValue::Null,
        serde_json::Value::Bool(b) => JsonValue::Bool(*b),
        serde_json::Value::Number(n) => JsonValue::Number(match (n.as_u64(), n.as_i64()) {
            (Some(n), _) => Number::PosInt(n),
            (None, Some(n)) => Number::NegInt(n),
            (None, None) => Number::Float(n.as_f64().unwrap().to_bits()),
        }),
        serde_json::Value::String(s) => JsonValue::text(s),
        serde_json::Value::Array(items) => JsonValue::Array(items.iter().map(convert).collect()),
        serde_json::Value::Object(members) => JsonValue::Object(
            members
                .iter()
                .fold(Object::new(), |object, (key, value)| object.with(key, convert(value))),
        ),
    }
}

fn json(text: &str) -> JsonValue {
    convert(&serde_json::from_str::<serde_json::Value>(text).expect("JSON text"))
}

fn at<'a>(value: &'a JsonValue, path: &[&str]) -> &'a JsonValue {
    path.iter()
        .fold(value, |value, key| value.get(key).expect("member"))
}

fn make_completion_request(id: u64) -> Message {
    Message::request(
        id,
        "textDocument/completion",
        json(
            r#"{
                "textDocument": { "uri": "file:///src/main.rs" },
                "position": { "line": 5, "character": 10 },
                "context": { "triggerKind": 1 }
            }"#,
        ),
    )
}

fn did_open(version: u64) -> Message {
    Message::notification(
        "textDocument/didOpen",
        json(&format!(
            r#"{{
                "textDocument": {{
                    "uri": "file:///src/main.rs",
                    "version": {version},
                    "languageId": "rust",
                    "text": "fn main() {{}}\n"
                }}
            }}"#
        )),
    )
}

#[test]
fn request_rewrites_method_and_id() {
    let mut t = Translator::new();
    let out = t.translate_request(make_completion_request(7));
    assert_eq!(out.method(), Some("textDocument/inlineCompletion"));
    // Proxy id is different from the original Helix id.
    assert_ne!(out.id, Some(json("7")));
}

#[test]
fn request_injects_formatting_options() {
    let mut t = Translator::new();
    let out = t.translate_request(make_completion_request(1));
    let params = out.params.unwrap();
    let opts = at(&params, &["formattingOptions"]);
    assert_eq!(opts.get("insertSpaces"), Some(&JsonValue::Bool(true)));
    assert_eq!(opts.get("tabSize"), Some(&json("2")));
}

#[test]
fn request_injects_tracked_document_version() {
    let mut t = Translator::new();
    t.observe_helix_message(&did_open(7));

    let out = t.translate_request(make_completion_request(1));
    assert_eq!(at(&out.params.unwrap(), &["textDocument", "version"]), &json("7"));
}

#[test]
fn request_uses_updated_document_version() {
    let mut t = Translator::new();
    t.observe_helix_message(&did_open(7));
    t.observe_helix_message(&Message::notification(
        "textDocument/didChange",
        json(
            r#"{
                "textDocument": {
                    "uri": "file:///src/main.rs",
                    "version": 9
                },
                "contentChanges": [{ "text": "fn main() { println!(\"hi\"); }\n" }]
            }"#,
        ),
    ));

    let out = t.translate_request(make_completion_request(1));
    assert_eq!(at(&out.params.unwrap(), &["textDocument", "version"]), &json("9"));
}

#[test]
fn request_does_not_inject_stale_version_after_close() {
    let mut t = Translator::new();
    t.observe_helix_message(&did_open(7));
    t.observe_helix_message(&Message::notification(
        "textDocument/didClose",
        json(
            r#"{
                "textDocument": {
                    "uri": "file:///src/main.rs"
                }
            }"#,
        ),
    ));

    let out = t.translate_request(make_completion_request(1));
    assert!(at(&out.params.unwrap(), &["textDocument"]).get("version").is_none());
}

#[test]
fn buffered_did_open_updates_state_before_first_completion() {
    let mut t = Translator::new();
    let buffered_open = did_open(11);

    t.observe_helix_message(&buffered_open);

    let out = t.translate_request(make_completion_request(1));
    assert_eq!(at(&out.params.unwrap(), &["textDocument", "version"]), &json("11"));
}

#[test]
fn request_preserves_existing_formatting_options() {
    let mut t = Translator::new();
    let msg = Message::request(
        1,
        "textDocument/completion",
        json(
            r#"{
                "textDocument": { "uri": "file:///f.rs" },
                "position": { "line": 0, "character": 0 },
                "context": { "triggerKind": 1 },
                "formattingOptions": { "insertSpaces": false, "tabSize": 4 }
            }"#,
        ),
    );
    let out = t.translate_request(msg);
    let params = out.params.unwrap();
    let opts = at(&params, &["formattingOptions"]);
    assert_eq!(opts.get("insertSpaces"), Some(&JsonValue::Bool(false)));
    assert_eq!(opts.get("tabSize"), Some(&json("4")));
}

#[test]
fn response_round_trip_restores_helix_id() {
    let mut t = Translator::new();
    let req = t.translate_request(make_completion_request(42));
    let proxy_id = req.id.clone().unwrap();

    // Simulate a response from the language server using the proxy id.
    let upstream_resp = Message::success(
        proxy_id,
        json(
            r#"{
                "items": [
                    {
                        "insertText": "fn hello() {}",
                        "range": {
                            "start": { "line": 5, "character": 0 },
                            "end":   { "line": 5, "character": 0 }
                        },
                        "command": { "command": "notifyAccepted", "arguments": ["id-1"] }
                    }
                ]
            }"#,
        ),
    );

    let out = t.try_translate_response(upstream_resp);
    assert_eq!(out.id, Some(json("42")));
    let result = out.result.unwrap();
    let items = at(&result, &["items"]).as_array().unwrap();
    assert_eq!(items.len(), 1);
    assert_eq!(at(&items[0], &["label"]).as_str(), Some("fn hello() {}"));
    assert_eq!(at(&items[0], &["kind"]), &json("1"));
    assert_eq!(at(&items[0], &["insertTextFormat"]), &json("1"));
    assert_eq!(
        at(&items[0], &["data", "_copilot_command", "command"]).as_str(),
        Some("notifyAccepted")
    );
}

#[test]
fn response_empty_items_produces_empty_list() {
    let mut t = Translator::new();
    let req = t.translate_request(make_completion_request(1));
    let proxy_id = req.id.clone().unwrap();

    let resp = Message::success(proxy_id, json(r#"{ "items": [] }"#));
    let out = t.try_translate_response(resp);
    assert_eq!(at(&out.result.unwrap(), &["items"]), &json("[]"));
}

#[test]
fn response_null_result_produces_empty_list() {
    let mut t = Translator::new();
    let req = t.translate_request(make_completion_request(1));
    let proxy_id = req.id.clone().unwrap();

    let resp = Message::success(proxy_id, JsonValue::Null);
    let out = t.try_translate_response(resp);
    assert_eq!(at(&out.result.unwrap(), &["items"]), &json("[]"));
}

#[test]
fn unrelated_response_passes_through_unchanged() {
    let mut t = Translator::new();
    let resp = Message::success(json("99"), json(r#"{ "capabilities": {} }"#));
    let out = t.try_translate_response(resp);
    assert_eq!(out.id, Some(json("99")));
    assert_eq!(at(&out.result.unwrap(), &["capabilities"]), &json("{}"));
}

#[test]
fn error_response_restores_helix_id() {
    let mut t = Translator::new();
    let req = t.translate_request(make_completion_request(5));
    let proxy_id = req.id.clone().unwrap();

    let resp = Message::error_response(proxy_id, -32603, "internal error");
    let out = t.try_translate_response(resp);
    assert_eq!(out.id, Some(json("5")));
    assert!(out.error.is_some());
    assert!(out.result.is_none());
}

#[test]
fn cancel_remaps_to_proxy_id() {
    let mut t = Translator::new();
    let req = t.translate_request(make_completion_request(7));
    let proxy_id = req.id.clone().unwrap();

    let cancel = Message::notification("$/cancelRequest", json(r#"{ "id": 7 }"#));
    let out = t.try_remap_cancel(cancel);
    assert_eq!(at(&out.params.unwrap(), &["id"]), &proxy_id);
}

#[test]
fn cancel_for_unknown_id_passes_through() {
    let t = Translator::new();
    let cancel = Message::notification("$/cancelRequest", json(r#"{ "id": 999 }"#));
    let out = t.try_remap_cancel(cancel);
    assert_eq!(at(&out.params.unwrap(), &["id"]), &json("999"));
}

#[test]
fn is_pending_response_true_for_proxied_id() {
    let mut t = Translator::new();
    let req = t.translate_request(make_completion_request(1));
    let proxy_id = req.id.clone().unwrap();
    let resp = Message::success(proxy_id, json("{}"));
    assert!(t.is_pending_response(&resp));
}

#[test]
fn is_pending_response_false_for_unknown_id() {
    let t = Translator::new();
    let resp = Message::success(json("999"), json("{}"));
    assert!(!t.is_pending_response(&resp));
}

#[test]
fn label_truncates_long_first_line() {
    let long = "a".repeat(100);
    let result = first_line_truncated(&long, 80);
    assert_eq!(result.chars().count(), 81); // 80 chars + ellipsis
    assert!(result.ends_with('…'));
}

#[test]
fn label_skips_blank_first_lines() {
    let text = "\n\n    fn foo() {}";
    let result = first_line_truncated(text, 80);
    assert_eq!(result, "    fn foo() {}");
}

#[test]
fn sort_text_orders_items() {
    let items: Vec<JsonValue> = (0..5)
        .map(|i| {
            inline_item_to_completion(
                &json(&format!(
                    r#"{{
                        "insertText": "item{i}",
                        "range": {{ "start": {{"line":0,"character":0}}, "end": {{"line":0,"character":0}} }}
                    }}"#
                )),
                i,
            )
        })
        .collect();

    let sort_texts: Vec<&str> = items
        .iter()
        .map(|v| at(v, &["sortText"]).as_str().unwrap())
        .collect();

    assert_eq!(sort_texts, ["0001", "0002", "0003", "0004", "0005"]);
}

#[test]
fn multiple_in_flight_requests_isolated() {
    let mut t = Translator::new();
    let r1 = t.translate_request(make_completion_request(10));
    let r2 = t.translate_request(make_completion_request(20));
    assert_ne!(r1.id, r2.id, "proxy ids must be unique");

    // Respond to r2 first.
    let resp2 = Message::success(r2.id.unwrap(), json(r#"{ "items": [] }"#));
    let out2 = t.try_translate_response(resp2);
    assert_eq!(out2.id, Some(json("20")));

    // r1 should still be pending.
    let resp1 = Message::success(r1.id.unwrap(), json(r#"{ "items": [] }"#));
    let out1 = t.try_translate_response(resp1);
    assert_eq!(out1.id, Some(json("10")));
}

#[test]
fn inline_item_becomes_whole_completion_item() {
    let item = json(
        r#"{
            "insertText": "let x = 1;\nlet y = 2;",
            "range": { "start": { "line": 3, "character": 4 }, "end": { "line": 3, "character": 9 } },
            "filterText": "let",
            "command": { "command": "c" },
            "ignored": true
        }"#,
    );
    let want = json(
        r#"{
            "label": "let x = 1;",
            "kind": 1,
            "insertTextFormat": 1,
            "insertText": "let x = 1;\nlet y = 2;",
            "textEdit": {
                "range": { "start": { "line": 3, "character": 4 }, "end": { "line": 3, "character": 9 } },
                "newText": "let x = 1;\nlet y = 2;"
            },
            "sortText": "0012",
            "filterText": "let",
            "data": { "_copilot_command": { "command": "c" } }
        }"#,
    );
    assert_eq!(inline_item_to_completion(&item, 11), want);
}

#[test]
fn item_without_members_gets_fallbacks() {
    let want = json(
        r#"{
            "label": "",
            "kind": 1,
            "insertTextFormat": 1,
            "insertText": "",
            "textEdit": {
                "range": { "start": { "line": 0, "character": 0 }, "end": { "line": 0, "character": 0 } },
                "newText": ""
            },
            "sortText": "0001"
        }"#,
    );
    assert_eq!(inline_item_to_completion(&json("{}"), 0), want);
    assert_eq!(inline_item_to_completion(&json("7"), 0), want);
}

#[test]
fn long_lists_outgrow_four_digits() {
    let item = json("{}");
    let sort_text = |i| inline_item_to_completion(&item, i).get("sortText").cloned();
    assert_eq!(sort_text(9998), Some(JsonValue::text("9999")));
    assert_eq!(sort_text(9999), Some(JsonValue::text("10000")));
}

#[test]
fn items_are_converted_in_order() {
    let result = json(r#"{ "items": [{ "insertText": "b" }, { "insertText": "a" }, 3] }"#);
    let items = build_completion_items(Some(&result));
    let labels: Vec<&str> = items
        .iter()
        .map(|item| at(item, &["label"]).as_str().unwrap())
        .collect();
    assert_eq!(labels, ["b", "a", ""]);
    assert!(build_completion_items(None).is_empty());
    assert!(build_completion_items(Some(&json(r#"{ "items": {} }"#))).is_empty());
    assert!(build_completion_items(Some(&json("[]"))).is_empty());
}

#[test]
fn answer_is_a_complete_list_under_a_null_id() {
    let mut t = Translator::new();
    // A completion without an id is not a request, but is translated all the same.
    let req = t.translate_request(Message::notification(
        "textDocument/completion",
        json("{}"),
    ));
    let out = t.try_translate_response(Message::success(req.id.unwrap(), JsonValue::Null));
    assert_eq!(out.id, Some(JsonValue::Null));
    assert_eq!(
        out.result,
        Some(json(r#"{ "isIncomplete": false, "items": [] }"#))
    );
}

#[test]
fn answers_come_once() {
    let mut t = Translator::new();
    let req = t.translate_request(make_completion_request(1));
    let id = req.id.unwrap();
    let first = t.try_translate_response(Message::success(id.clone(), json("{}")));
    assert_eq!(first.id, Some(json("1")));
    let second = t.try_translate_response(Message::success(id.clone(), json("{}")));
    assert_eq!(second.id, Some(id));
    assert_eq!(second.result, Some(json("{}")));
}

#[test]
fn error_response_keeps_the_error() {
    let mut t = Translator::new();
    let req = t.translate_request(make_completion_request(5));
    let resp = Message::error_response(req.id.unwrap(), -32603, "internal error");
    let error = t.try_translate_response(resp).error.unwrap();
    assert_eq!(error.code, -32603);
    assert_eq!(error.message, "internal error");
}

#[test]
fn request_with_a_pending_id_is_no_pending_response() {
    let mut t = Translator::new();
    let req = t.translate_request(make_completion_request(1));
    let msg = Message::request_with_id(req.id.unwrap(), "window/showMessageRequest", json("{}"));
    assert!(!t.is_pending_response(&msg));
}

#[test]
fn ids_count_up_from_one() {
    let mut t = Translator::new();
    assert!(t.has_free_id());
    for id in 1..4 {
        let out = t.translate_request(make_completion_request(100));
        assert_eq!(out.id, Some(JsonValue::unsigned(id)));
    }
}

#[test]
fn text_and_negative_ids_are_never_pending() {
    let mut t = Translator::new();
    t.translate_request(make_completion_request(1));
    for id in ["\"1\"", "-1", "1.5", "null"] {
        let resp = Message::success(json(id), json("{}"));
        assert!(!t.is_pending_response(&resp));
        assert_eq!(t.try_translate_response(resp).id, Some(json(id)));
    }
}

#[test]
fn cancel_changes_nothing_but_the_id() {
    let mut t = Translator::new();
    t.translate_request(make_completion_request(3));
    t.translate_request(make_completion_request(7));
    let cancel = Message::notification("$/cancelRequest", json(r#"{ "id": 7, "why": "typing" }"#));
    let out = t.try_remap_cancel(cancel);
    assert_eq!(out.method(), Some("$/cancelRequest"));
    assert_eq!(out.params, Some(json(r#"{ "id": 2, "why": "typing" }"#)));
}

#[test]
fn version_of_the_request_is_kept() {
    let mut t = Translator::new();
    t.observe_helix_message(&did_open(7));
    let out = t.translate_request(Message::request(
        1,
        "textDocument/completion",
        json(r#"{ "textDocument": { "uri": "file:///src/main.rs", "version": 5 } }"#),
    ));
    assert_eq!(at(&out.params.unwrap(), &["textDocument", "version"]), &json("5"));
}

#[test]
fn versions_of_other_documents_are_not_used() {
    let mut t = Translator::new();
    t.observe_helix_message(&did_open(7));
    let out = t.translate_request(Message::request(
        1,
        "textDocument/completion",
        json(r#"{ "textDocument": { "uri": "file:///src/lib.rs" } }"#),
    ));
    assert!(at(&out.params.unwrap(), &["textDocument"]).get("version").is_none());
}

#[test]
fn params_of_another_shape_stay_as_they_are() {
    assert_eq!(
        build_inline_completion_params(json("[1, 2]"), Some(4)),
        json("[1, 2]")
    );
    assert_eq!(
        build_inline_completion_params(json(r#"{ "textDocument": 1 }"#), Some(-4)),
        json(r#"{ "textDocument": 1, "formattingOptions": { "insertSpaces": true, "tabSize": 2 } }"#)
    );
    assert_eq!(
        build_inline_completion_params(json(r#"{ "textDocument": {} }"#), Some(-4)),
        json(
            r#"{
                "textDocument": { "version": -4 },
                "formattingOptions": { "insertSpaces": true, "tabSize": 2 }
            }"#
        )
    );
}

#[test]
fn missing_params_count_as_empty() {
    let mut t = Translator::new();
    let mut msg = make_completion_request(1);
    msg.params = None;
    let out = t.translate_request(msg);
    assert_eq!(
        out.params,
        Some(json(r#"{ "formattingOptions": { "insertSpaces": true, "tabSize": 2 } }"#))
    );
}

#[test]
fn labels_of_exactly_the_limit_are_not_cut() {
    assert_eq!(first_line_truncated("abc", 3), "abc");
    assert_eq!(first_line_truncated("abcd", 3), "abc…");
    assert_eq!(first_line_truncated("äöü", 2), "äö…");
    assert_eq!(first_line_truncated(" \r\n\tx\r\ny", 80), "\tx");
    assert_eq!(first_line_truncated(" \n ", 80), " \n ");
}
