use copilot_helix::auth::{
    await_response, check_status_request, classify_status, initialize_request,
    internal_request_id, read_sign_in, status_warning, AuthAction, AuthError, AuthFlow, AuthStatus,
    Reply, SignIn, Stage, AUTH_TIMEOUT_SECONDS,
};
use copilot_helix::json::{JsonValue, Number, Object};
use copilot_helix::jsonrpc::Message;

fn convert(value: &serde_json::Value) -> JsonValue {
    match value {
        serde_json::Value::Null => JsonValue::Null,
        serde_json::Value::Bool(b) => JsonValue::Bool(*b),
        serde_json::Value::Number(n) => JsonValue::Number(match (n.as_u64(), n.as_i64()) {
            (Some(n), _) => Number::PosInt(n),
            (None, Some(n)) => Number::NegInt(n),
            (None, None) => Number::Float(n.as_f64().unwrap().to_bits()),
        }),
        serde_json::Value::String(s) => JsonValue::text(s),
        serde_json::Value::Array(items) => JsonValue::Array(items.iter().map(convert).collect()),
        serde_json::Value::Object(members) => JsonValue::Object(
            members
                .iter()
                .fold(Object::new(), |object, (key, value)| object.with(key, convert(value))),
        ),
    }
}

fn json(text: &str) -> JsonValue {
    convert(&serde_json::from_str::<serde_json::Value>(text).expect("JSON text"))
}

fn at<'a>(value: &'a JsonValue, path: &[&str]) -> &'a JsonValue {
    path.iter()
        .fold(value, |value, key| value.get(key).expect("member"))
}

/// Sanity-check that the messages we build are well-formed.
#[test]
fn check_status_request_shape() {
    let msg = Message::request(
        u64::MAX,
        "checkStatus",
        json(r#"{ "options": { "localChecksOnly": true } }"#),
    );
    assert!(msg.is_request());
    assert_eq!(msg.method(), Some("checkStatus"));
    assert_eq!(
        at(&msg.params.unwrap(), &["options", "localChecksOnly"]),
        &JsonValue::Bool(true)
    );
}

#[test]
fn window_show_message_is_notification() {
    let msg = Message::notification(
        "window/showMessage",
        json(r#"{ "type": 2, "message": "test" }"#),
    );
    assert!(msg.is_notification());
    assert_eq!(at(&msg.params.unwrap(), &["type"]), &json("2"));
}

#[test]
fn classify_status_recognizes_authenticated_user() {
    let status = classify_status(&json(
        r#"{
            "status": "OK",
            "user": "alice"
        }"#,
    ));

    assert_eq!(status, AuthStatus::Authenticated(Some("alice".into())));
}

#[test]
fn classify_status_recognizes_missing_auth() {
    let status = classify_status(&json(
        r#"{
            "status": "NotAuthorized"
        }"#,
    ));

    assert_eq!(status, AuthStatus::Unauthenticated("NotAuthorized".into()));
}

#[test]
fn classify_status_covers_all_signed_in_forms() {
    for status in ["OK", "MaybeOK", "AlreadySignedIn"] {
        let reply = json(&format!(r#"{{ "status": "{status}", "user": 1 }}"#));
        assert_eq!(classify_status(&reply), AuthStatus::Authenticated(None));
    }
    for reply in ["{}", "null", r#"{ "status": 1, "user": "alice" }"#] {
        assert_eq!(
            classify_status(&json(reply)),
            AuthStatus::Unauthenticated("Unknown".into())
        );
    }
}

#[test]
fn check_status_request_carries_its_option() {
    let msg = check_status_request(true);
    assert_eq!(msg.id, Some(json("\"copilot-helix:auth:check-status\"")));
    assert_eq!(msg.method(), Some("checkStatus"));
    assert_eq!(
        msg.params,
        Some(json(r#"{ "options": { "localChecksOnly": true } }"#))
    );
    assert_eq!(
        check_status_request(false).params,
        Some(json(r#"{ "options": { "localChecksOnly": false } }"#))
    );
}

#[test]
fn warning_only_without_authentication() {
    assert!(status_warning(&AuthStatus::Authenticated(None)).is_none());
    assert!(status_warning(&AuthStatus::Authenticated(Some("a".into()))).is_none());
    let msg = status_warning(&AuthStatus::Unauthenticated("x".into())).unwrap();
    assert_eq!(msg.method(), Some("window/showMessage"));
    assert_eq!(
        msg.params,
        Some(json(
            r#"{
                "type": 2,
                "message": "GitHub Copilot: not authenticated. Run: copilot-helix --auth"
            }"#
        ))
    );
}

#[test]
fn awaiting_tells_messages_apart() {
    let id = internal_request_id("mine");
    let reply = |msg: Message, forwarding: bool| await_response(&id, msg, forwarding);

    let own = Message::success(id.clone(), json("[1]"));
    assert!(matches!(reply(own, true), Reply::Done(result) if result == json("[1]")));
    let mut empty = Message::success(id.clone(), json("1"));
    empty.result = None;
    assert!(matches!(reply(empty, false), Reply::Done(JsonValue::Null)));
    let failed = Message::error_response(id.clone(), -3, "bad");
    assert!(matches!(reply(failed, true), Reply::Failed(-3, message) if message == "bad"));

    let notice = Message::notification("n", json("{}"));
    assert!(matches!(reply(notice.clone(), true), Reply::Forward(msg) if msg.method() == Some("n")));
    assert!(matches!(reply(notice, false), Reply::Ignored));
    let other = Message::success(json("1"), json("{}"));
    assert!(matches!(reply(other, true), Reply::Ignored));
    let request = Message::request_with_id(id.clone(), "m", json("{}"));
    assert!(matches!(reply(request, true), Reply::Ignored));
}

#[test]
fn errors_are_described() {
    assert_eq!(
        AuthError::Rpc(-32603, "oops".into()).description(),
        "RPC error -32603: oops"
    );
    assert_eq!(
        AuthError::MissingVerificationUri.description(),
        "signIn response missing verificationUri"
    );
    assert_eq!(
        AuthError::MissingUserCode.description(),
        "signIn response missing userCode"
    );
    assert_eq!(
        AuthError::Closed.description(),
        "upstream closed while waiting for response"
    );
    assert_eq!(
        AuthError::TimedOut.description(),
        "authentication timed out after 10 minutes"
    );
    assert_eq!(AUTH_TIMEOUT_SECONDS, 600);
}

#[test]
fn initialize_request_needs_no_editor() {
    let msg = initialize_request();
    assert_eq!(msg.id, Some(json("\"copilot-helix:auth:initialize\"")));
    assert_eq!(
        msg.params,
        Some(json(
            r#"{
                "capabilities": {
                    "workspace": { "didChangeConfiguration": { "dynamicRegistration": true } }
                },
                "initializationOptions": {
                    "editorInfo": { "name": "Helix", "version": "unknown" },
                    "editorPluginInfo": { "name": "copilot-helix", "version": "0.1.0" }
                }
            }"#
        ))
    );
}

#[test]
fn sign_in_replies_are_read() {
    let missing = read_sign_in(&json("{}"));
    assert!(matches!(missing, Err(AuthError::MissingVerificationUri)));
    let missing = read_sign_in(&json(r#"{ "verificationUri": "u", "status": "AlreadySignedIn" }"#));
    assert!(matches!(missing, Err(AuthError::MissingUserCode)));

    let already = read_sign_in(&json(
        r#"{ "verificationUri": "u", "userCode": "c", "status": "AlreadySignedIn" }"#,
    ));
    assert!(matches!(already, Ok(SignIn::Already(user)) if user == "?"));
    let pending = read_sign_in(&json(r#"{ "verificationUri": "u", "userCode": "c" }"#));
    match pending {
        Ok(SignIn::Pending { verification_uri, user_code, command }) => {
            assert_eq!(verification_uri, "u");
            assert_eq!(user_code, "c");
            assert_eq!(command, JsonValue::Null);
        }
        _ => panic!("expected a pending sign-in"),
    }
}

fn shown(actions: &[AuthAction]) -> Vec<String> {
    actions
        .iter()
        .map(|action| match action {
            AuthAction::Send(msg) => format!("send {}", msg.method().unwrap_or("?")),
            AuthAction::Print(line) => format!("print {line}"),
            AuthAction::Explain(line) => format!("explain {line}"),
        })
        .collect()
}

fn answer(name: &str, result: &str) -> Message {
    Message::success(
        internal_request_id(&format!("copilot-helix:auth:{name}")),
        json(result),
    )
}

#[test]
fn device_flow_runs_to_completion() {
    let (mut flow, opening) = AuthFlow::start(true);
    assert_eq!(opening.method(), Some("initialize"));
    assert_eq!(flow.stage(), Stage::Initializing);
    assert!(flow.on_message(Message::notification("n", json("{}"))).unwrap().is_empty());

    let actions = flow.on_message(answer("initialize", "{}")).unwrap();
    assert_eq!(
        shown(&actions),
        [
            "send initialized",
            "send workspace/didChangeConfiguration",
            "send checkStatus"
        ]
    );

    let actions = flow
        .on_message(answer("check-status", r#"{ "status": "NotSignedIn" }"#))
        .unwrap();
    assert_eq!(shown(&actions), ["send signIn"]);
    assert_eq!(flow.stage(), Stage::SigningIn);

    let actions = flow
        .on_message(answer(
            "sign-in",
            r#"{ "verificationUri": "https://u", "userCode": "AB-12", "command": { "command": "c" } }"#,
        ))
        .unwrap();
    assert_eq!(
        shown(&actions),
        [
            "explain Open this URL in your browser:",
            "explain   https://u",
            "explain ",
            "explain Enter this code when prompted:",
            "explain   AB-12",
            "explain ",
            "explain Waiting for authentication…",
            "send workspace/executeCommand"
        ]
    );
    match actions.last() {
        Some(AuthAction::Send(msg)) => {
            assert_eq!(msg.params, Some(json(r#"{ "command": "c" }"#)))
        }
        _ => panic!("expected a request"),
    }
    assert_eq!(flow.stage(), Stage::Confirming);

    let actions = flow
        .on_message(answer("execute-command", r#"{ "user": "alice" }"#))
        .unwrap();
    assert_eq!(shown(&actions), ["print Authenticated as GitHub user alice"]);
    assert_eq!(flow.stage(), Stage::Finished);
}

#[test]
fn signed_in_users_are_not_asked() {
    for (reply, line) in [
        (
            r#"{ "status": "OK", "user": "alice" }"#,
            "print Already authenticated as GitHub user alice",
        ),
        (
            r#"{ "status": "OK" }"#,
            "print Already authenticated with GitHub Copilot",
        ),
    ] {
        let (mut flow, _) = AuthFlow::start(true);
        flow.on_message(answer("initialize", "{}")).unwrap();
        let actions = flow.on_message(answer("check-status", reply)).unwrap();
        assert_eq!(shown(&actions), [line]);
        assert_eq!(flow.stage(), Stage::Finished);
    }
}

#[test]
fn status_flow_stops_at_the_status() {
    let (mut flow, _) = AuthFlow::start(false);
    flow.on_message(answer("initialize", "{}")).unwrap();
    let actions = flow
        .on_message(answer("check-status", r#"{ "status": "NotSignedIn" }"#))
        .unwrap();
    assert!(actions.is_empty());
    assert_eq!(flow.stage(), Stage::Finished);
    assert_eq!(
        flow.into_status(),
        Some(AuthStatus::Unauthenticated("NotSignedIn".into()))
    );
}

#[test]
fn sign_in_can_find_the_user_signed_in() {
    let (mut flow, _) = AuthFlow::start(true);
    flow.on_message(answer("initialize", "{}")).unwrap();
    flow.on_message(answer("check-status", "{}")).unwrap();
    let actions = flow
        .on_message(answer(
            "sign-in",
            r#"{ "verificationUri": "u", "userCode": "c", "status": "AlreadySignedIn", "user": "bob" }"#,
        ))
        .unwrap();
    assert_eq!(shown(&actions), ["print Authenticated as GitHub user bob"]);
    assert_eq!(flow.stage(), Stage::Finished);
}

#[test]
fn server_errors_end_the_flow() {
    let (mut flow, _) = AuthFlow::start(true);
    let id = internal_request_id("copilot-helix:auth:initialize");
    let error = flow.on_message(Message::error_response(id, -7, "broken"));
    match error {
        Err(error) => assert_eq!(error.description(), "RPC error -7: broken"),
        Ok(_) => panic!("expected an error"),
    }
}

#[test]
fn responses_for_another_stage_are_ignored() {
    let (mut flow, _) = AuthFlow::start(true);
    for name in ["check-status", "sign-in", "execute-command"] {
        assert!(flow.on_message(answer(name, "{}")).unwrap().is_empty());
        assert_eq!(flow.stage(), Stage::Initializing);
    }
}
