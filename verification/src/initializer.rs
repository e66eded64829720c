//! LSP initialization handshake with Copilot-specific augmentation.
//!
//! The handshake is intentionally sequential and must complete before the
//! bidirectional proxy tasks start. The LSP spec guarantees that `initialize`
//! is always the first message from the client, so we can handle it without
//! concurrent message buffering complexity.
//!
//! Sequence:
//! 1. Read `initialize` from Helix (buffer any premature messages).
//! 2. Inject `editorInfo` / `editorPluginInfo` into `initializationOptions`.
//! 3. Forward the augmented request to the language server.
//! 4. Forward any upstream notifications that arrive while waiting.
//! 5. When the `initialize` response arrives, forward it to Helix.
//! 6. Read `initialized` from Helix (buffer any other messages).
//! 7. Forward `initialized` to the language server.
//! 8. Send `workspace/didChangeConfiguration` to the language server.
//! 9. Return any messages buffered in steps 1 and 6 for the caller to replay.
//!
//! [`Handshake`] holds where the sequence stands: the caller reads from the side
//! that [`Handshake::phase`] waits for, hands in each message, and sends what
//! comes back.

use vstd::prelude::*;

use crate::json;
use crate::json::{Json, JsonValue, Object};
use crate::jsonrpc;
use crate::jsonrpc::{Message, MessageKind, MessageView};
use crate::router;
use crate::router::{route, Direction, RouteAction};
use crate::text::{concat3, same_text};

verus! {

pub const PLUGIN_NAME: &'static str = "copilot-helix";

pub const PLUGIN_VERSION: &'static str = "0.1.0";

// ── Payloads ────────────────────────────────────────────────────────────────

/// A name with a version.
pub open spec fn product(name: Seq<char>, version: Seq<char>) -> Json {
    Json::Object(
        json::no_members().insert("name"@, Json::String(name)).insert(
            "version"@,
            Json::String(version),
        ),
    )
}

/// What Copilot is told of the editor.
pub open spec fn editor_info(helix_version: Seq<char>) -> Json {
    product("Helix"@, helix_version)
}

/// What Copilot is told of this program.
pub open spec fn plugin_info() -> Json {
    product("copilot-helix"@, "0.1.0"@)
}

/// The shared `initializationOptions` payload for Copilot.
pub open spec fn initialization_options(helix_version: Seq<char>) -> Json {
    Json::Object(
        json::no_members().insert("editorInfo"@, editor_info(helix_version)).insert(
            "editorPluginInfo"@,
            plugin_info(),
        ),
    )
}

fn product_json(name: &str, version: &str) -> (r: JsonValue)
    ensures
        r@ == product(name@, version@),
{
    JsonValue::Object(
        Object::new().with("name", JsonValue::text(name)).with("version", JsonValue::text(version)),
    )
}

/// Build the shared `initializationOptions` payload for Copilot.
pub fn build_initialization_options(helix_version: &str) -> (r: JsonValue)
    ensures
        r@ == initialization_options(helix_version@),
{
    JsonValue::Object(
        Object::new().with("editorInfo", product_json("Helix", helix_version)).with(
            "editorPluginInfo",
            product_json(PLUGIN_NAME, PLUGIN_VERSION),
        ),
    )
}

/// The settings that Copilot gets: no HTTP proxy, and no enterprise server.
pub open spec fn settings() -> Json {
    let http = json::no_members().insert("proxy"@, Json::Null).insert("proxyStrictSSL"@, Json::Null);
    let enterprise = json::no_members().insert("uri"@, Json::Null);
    Json::Object(
        json::no_members().insert(
            "settings"@,
            Json::Object(
                json::no_members().insert("http"@, Json::Object(http)).insert(
                    "github-enterprise"@,
                    Json::Object(enterprise),
                ),
            ),
        ),
    )
}

/// The message that hands Copilot its settings.
pub open spec fn did_change_configuration() -> MessageView {
    jsonrpc::notification_view("workspace/didChangeConfiguration"@, settings())
}

/// Build the shared Copilot settings payload.
pub fn build_did_change_configuration() -> (r: Message)
    ensures
        r@ == did_change_configuration(),
{
    let http = Object::new().with("proxy", JsonValue::Null).with("proxyStrictSSL", JsonValue::Null);
    let enterprise = Object::new().with("uri", JsonValue::Null);
    let settings = Object::new().with("http", JsonValue::Object(http)).with(
        "github-enterprise",
        JsonValue::Object(enterprise),
    );
    Message::notification(
        "workspace/didChangeConfiguration",
        JsonValue::Object(Object::new().with("settings", JsonValue::Object(settings))),
    )
}

// ── Augmentation ────────────────────────────────────────────────────────────

/// Options with what Copilot is told of the editor and of this program, unless they
/// tell it themselves.
pub open spec fn augmented_options(options: Map<Seq<char>, Json>, helix_version: Seq<char>) -> Map<
    Seq<char>,
    Json,
> {
    json::or_insert(
        json::or_insert(options, "editorInfo"@, editor_info(helix_version)),
        "editorPluginInfo"@,
        plugin_info(),
    )
}

/// The params of `initialize` with augmented options.  Missing and null options count
/// as an empty object; params and options of another shape stay as they are.
pub open spec fn augmented_params(params: Json, helix_version: Seq<char>) -> Json {
    match params {
        Json::Object(members) => match params.get("initializationOptions"@) {
            None | Some(Json::Null) => Json::Object(
                members.insert(
                    "initializationOptions"@,
                    Json::Object(augmented_options(json::no_members(), helix_version)),
                ),
            ),
            Some(Json::Object(options)) => Json::Object(
                members.insert(
                    "initializationOptions"@,
                    Json::Object(augmented_options(options, helix_version)),
                ),
            ),
            Some(_) => params,
        },
        _ => params,
    }
}

/// The `initialize` request that the language server gets.
pub open spec fn augmented_request(msg: MessageView, helix_version: Seq<char>) -> MessageView {
    let params = match msg.params {
        Some(params) => params,
        None => Json::Object(json::no_members()),
    };
    MessageView { params: Some(augmented_params(params, helix_version)), ..msg }
}

/// Inject `editorInfo` and `editorPluginInfo` into `initializationOptions`.
pub fn augment_initialize(msg: Message, helix_version: &str) -> (r: Message)
    ensures
        r@ == augmented_request(msg@, helix_version@),
{
    let Message { jsonrpc, id, method, params, result, error } = msg;
    let params = match params {
        Some(params) => params,
        None => JsonValue::Object(Object::new()),
    };
    let params = match params {
        JsonValue::Object(members) => JsonValue::Object(augment_members(members, helix_version)),
        other => other,
    };
    Message { jsonrpc, id, method, params: Some(params), result, error }
}

fn augment_members(members: Object, helix_version: &str) -> (r: Object)
    ensures
        Json::Object(r@) == augmented_params(Json::Object(members@), helix_version@),
{
    let options = match members.get("initializationOptions") {
        None => Object::new(),
        Some(JsonValue::Null) => Object::new(),
        Some(JsonValue::Object(options)) => options.clone(),
        Some(_) => return members,
    };
    let options = options.with_default("editorInfo", product_json("Helix", helix_version)).with_default(
        "editorPluginInfo",
        product_json(PLUGIN_NAME, PLUGIN_VERSION),
    );
    members.with("initializationOptions", JsonValue::Object(options))
}

/// The completion support that Helix is told of.
pub open spec fn completion_provider() -> Json {
    Json::Object(json::no_members().insert("resolveProvider"@, Json::Bool(false)))
}

/// The result of `initialize` with completion support among the capabilities, unless
/// the language server tells of its own.  A result without capabilities stays as it is.
pub open spec fn augmented_result(result: Json) -> Json {
    match (result, result.get("capabilities"@)) {
        (Json::Object(members), Some(Json::Object(capabilities))) => Json::Object(
            members.insert(
                "capabilities"@,
                Json::Object(
                    json::or_insert(capabilities, "completionProvider"@, completion_provider()),
                ),
            ),
        ),
        _ => result,
    }
}

/// The `initialize` response that Helix gets.
pub open spec fn augmented_response(msg: MessageView) -> MessageView {
    match msg.result {
        Some(result) => MessageView { result: Some(augmented_result(result)), ..msg },
        None => msg,
    }
}

/// Advertise standard completion support back to Helix.
///
/// Copilot exposes `inlineCompletionProvider`, but Helix requests standard
/// `textDocument/completion`. The proxy translates those requests, so it must
/// also present a `completionProvider` capability during initialize.
pub fn augment_initialize_response(msg: Message) -> (r: Message)
    ensures
        r@ == augmented_response(msg@),
{
    let Message { jsonrpc, id, method, params, result, error } = msg;
    let result = match result {
        Some(JsonValue::Object(members)) => Some(JsonValue::Object(augment_result(members))),
        other => other,
    };
    Message { jsonrpc, id, method, params, result, error }
}

fn augment_result(members: Object) -> (r: Object)
    ensures
        Json::Object(r@) == augmented_result(Json::Object(members@)),
{
    let capabilities = match members.get("capabilities") {
        Some(JsonValue::Object(capabilities)) => capabilities.clone(),
        _ => return members,
    };
    let provider = Object::new().with("resolveProvider", JsonValue::Bool(false));
    let capabilities = capabilities.with_default("completionProvider", JsonValue::Object(provider));
    members.with("capabilities", JsonValue::Object(capabilities))
}

// ── Handshake ───────────────────────────────────────────────────────────────

/// What a handshake waits for.
#[derive(Debug, Clone, Copy, PartialEq, Eq, Structural)]
pub enum Phase {
    /// For `initialize` from Helix.
    Initialize,
    /// For the response to `initialize` from the language server.
    Response,
    /// For `initialized` from Helix.
    Initialized,
    /// For nothing: the handshake is complete.
    Done,
}

/// Why a handshake fails.
#[derive(Debug, Clone, Copy, PartialEq, Eq, Structural)]
pub enum HandshakeError {
    /// The `initialize` message of Helix has no id, so nothing can answer it.
    MissingId,
    /// The language server is gone before it answered `initialize`.
    UpstreamClosed,
}

impl HandshakeError {
    pub open spec fn message(self) -> Seq<char> {
        match self {
            HandshakeError::MissingId => "`initialize` request has no id"@,
            HandshakeError::UpstreamClosed => "upstream closed before sending initialize response"@,
        }
    }

    /// Says in words what went wrong.
    pub fn description(&self) -> (r: &'static str)
        ensures
            r@ == self.message(),
    {
        match self {
            HandshakeError::MissingId => "`initialize` request has no id",
            HandshakeError::UpstreamClosed => "upstream closed before sending initialize response",
        }
    }
}

/// Says what was being waited for when reading from Helix failed.
pub fn reading_failure(method: &str) -> (r: String)
    ensures
        r@ == "reading from Helix while waiting for `"@ + method@ + "`"@,
{
    concat3("reading from Helix while waiting for `", method, "`")
}

/// An initialization handshake under way.
pub struct Handshake {
    phase: Phase,
    helix_version: String,
    buffered: Vec<Message>,
}

/// The mathematical value of a [`Handshake`].
pub struct HandshakeView {
    pub phase: Phase,
    pub helix_version: Seq<char>,
    /// The messages from Helix to be replayed, in the order in which they came.
    pub buffered: Seq<MessageView>,
}

/// The mathematical value of a list of messages.
pub open spec fn messages_view(messages: Seq<Message>) -> Seq<MessageView> {
    messages.map_values(|msg: Message| msg@)
}

/// A handshake that waits for `initialize`.
pub open spec fn started(helix_version: Seq<char>) -> HandshakeView {
    HandshakeView { phase: Phase::Initialize, helix_version, buffered: Seq::empty() }
}

/// Whether a message from Helix is the one that the handshake waits for.
pub open spec fn is_awaited(state: HandshakeView, msg: MessageView) -> bool {
    ||| state.phase == Phase::Initialize && msg.method == Some("initialize"@)
    ||| state.phase == Phase::Initialized && msg.method == Some("initialized"@)
}

/// Whether a message from Helix makes the handshake fail.
pub open spec fn is_unanswerable(state: HandshakeView, msg: MessageView) -> bool {
    state.phase == Phase::Initialize && is_awaited(state, msg) && msg.id is None
}

/// The handshake after a message from Helix: it moves on with the message that it
/// waits for, and keeps any other for later.
pub open spec fn after_helix(state: HandshakeView, msg: MessageView) -> HandshakeView {
    if is_unanswerable(state, msg) {
        state
    } else if is_awaited(state, msg) {
        HandshakeView {
            phase: if state.phase == Phase::Initialize {
                Phase::Response
            } else {
                Phase::Done
            },
            ..state
        }
    } else {
        HandshakeView { buffered: state.buffered.push(msg), ..state }
    }
}

/// What the language server gets for a message from Helix.
pub open spec fn to_upstream(state: HandshakeView, msg: MessageView) -> Seq<MessageView> {
    if !is_awaited(state, msg) {
        seq![]
    } else if state.phase == Phase::Initialize {
        seq![augmented_request(msg, state.helix_version)]
    } else {
        seq![msg, did_change_configuration()]
    }
}

/// The handshake after a message from the language server.
pub open spec fn after_upstream(state: HandshakeView, msg: MessageView) -> HandshakeView {
    if msg.kind() == MessageKind::Response {
        HandshakeView { phase: Phase::Initialized, ..state }
    } else {
        state
    }
}

/// What Helix gets for a message from the language server, if anything.
pub open spec fn to_helix(msg: MessageView) -> Option<MessageView> {
    if msg.kind() == MessageKind::Response {
        Some(augmented_response(msg))
    } else if router::routed(msg.method, Direction::UpstreamToHelix) == RouteAction::Drop {
        None
    } else {
        Some(msg)
    }
}

impl Handshake {
    pub closed spec fn view(&self) -> HandshakeView {
        HandshakeView {
            phase: self.phase,
            helix_version: self.helix_version@,
            buffered: messages_view(self.buffered@),
        }
    }

    /// Starts a handshake for the given version of Helix.
    pub fn new(helix_version: &str) -> (r: Handshake)
        ensures
            r@ == started(helix_version@),
    {
        let r = Handshake {
            phase: Phase::Initialize,
            helix_version: helix_version.to_owned(),
            buffered: Vec::new(),
        };
        assert(r@.buffered =~= Seq::empty());
        r
    }

    /// What the handshake waits for.
    pub fn phase(&self) -> (r: Phase)
        ensures
            r == self@.phase,
    {
        self.phase
    }

    /// The messages from Helix that are not part of the handshake itself (anything
    /// before `initialize` or between the `initialize` response and `initialized`).
    /// The caller should replay these to the upstream in order.
    pub fn into_buffered(self) -> (r: Vec<Message>)
        ensures
            messages_view(r@) == self@.buffered,
    {
        self.buffered
    }

    /// Takes a message from Helix and gives the messages to send to the language
    /// server.
    pub fn on_helix_message(&mut self, msg: Message) -> (r: Result<Vec<Message>, HandshakeError>)
        requires
            old(self)@.phase == Phase::Initialize || old(self)@.phase == Phase::Initialized,
        ensures
            final(self)@ == after_helix(old(self)@, msg@),
            match r {
                Ok(sent) => !is_unanswerable(old(self)@, msg@) && messages_view(sent@)
                    == to_upstream(old(self)@, msg@),
                Err(error) => is_unanswerable(old(self)@, msg@) && error
                    == HandshakeError::MissingId,
            },
    {
        let awaited = match msg.method() {
            Some(method) => match self.phase {
                Phase::Initialize => same_text(method, "initialize"),
                _ => same_text(method, "initialized"),
            },
            None => false,
        };
        let mut sent: Vec<Message> = Vec::new();
        assert(messages_view(sent@) =~= seq![]);
        if !awaited {
            // Per LSP spec `initialize` is always first, but be defensive.
            self.buffered.push(msg);
            assert(self@.buffered =~= old(self)@.buffered.push(msg@));
            return Ok(sent);
        }
        match self.phase {
            Phase::Initialize => {
                if msg.id.is_none() {
                    return Err(HandshakeError::MissingId);
                }
                sent.push(augment_initialize(msg, self.helix_version.as_str()));
                self.phase = Phase::Response;
            },
            _ => {
                sent.push(msg);
                // Copilot requires this to apply its settings after initialization.
                sent.push(build_did_change_configuration());
                self.phase = Phase::Done;
            },
        }
        assert(messages_view(sent@) =~= to_upstream(old(self)@, msg@));
        Ok(sent)
    }

    /// Takes a message from the language server and gives the message to send to Helix,
    /// if there is one.
    ///
    /// A response should be that to `initialize`, the only pending request.  Other
    /// messages that arrive in the meantime are routed as usual: Copilot may send
    /// notifications immediately on startup, and they must not block the handshake.
    pub fn on_upstream_message(&mut self, msg: Message) -> (r: Option<Message>)
        requires
            old(self)@.phase == Phase::Response,
        ensures
            final(self)@ == after_upstream(old(self)@, msg@),
            match r {
                Some(out) => to_helix(msg@) == Some(out@),
                None => to_helix(msg@) is None,
            },
    {
        if msg.is_response() {
            self.phase = Phase::Initialized;
            return Some(augment_initialize_response(msg));
        }
        match route(msg.method(), Direction::UpstreamToHelix) {
            RouteAction::Drop => None,
            _ => Some(msg),
        }
    }
}

// ── Laws ────────────────────────────────────────────────────────────────────

/// Augmenting keeps every option that Helix sends, and every other param.
pub proof fn law_augment_never_overwrites(params: Json, helix_version: Seq<char>)
    ensures
        forall|key: Seq<char>|
            key != "initializationOptions"@ ==> #[trigger] augmented_params(
                params,
                helix_version,
            ).get(key) == params.get(key),
        forall|key: Seq<char>|
            json::member(params.get("initializationOptions"@), key) is Some
                ==> #[trigger] json::member(
                augmented_params(params, helix_version).get("initializationOptions"@),
                key,
            ) == json::member(params.get("initializationOptions"@), key),
{
}

/// Where the options are an object, null or missing, the language server learns of the
/// editor and of this program.
pub proof fn law_augment_tells_both(params: Json, helix_version: Seq<char>)
    requires
        params is Object,
        params.get("initializationOptions"@) matches Some(options) ==> options is Object
            || options is Null,
    ensures
        ({
            let options = augmented_params(params, helix_version).get("initializationOptions"@);
            &&& json::member(options, "editorInfo"@) is Some
            &&& json::member(options, "editorPluginInfo"@) is Some
        }),
{
    lemma_option_keys();
}

/// Augmenting twice is augmenting once.
pub proof fn law_augment_is_idempotent(msg: MessageView, first: Seq<char>, second: Seq<char>)
    ensures
        augmented_request(augmented_request(msg, first), second) == augmented_request(msg, first),
{
    lemma_option_keys();
    let params = match msg.params {
        Some(params) => params,
        None => Json::Object(json::no_members()),
    };
    let once = augmented_params(params, first);
    let twice = augmented_params(once, second);
    match (once, twice) {
        (Json::Object(a), Json::Object(b)) => {
            match once.get("initializationOptions"@) {
                Some(Json::Object(options)) => {
                    assert(augmented_options(options, second) == options);
                    assert(a =~= b);
                },
                _ => {},
            }
        },
        _ => {},
    }
}

/// Helix learns of completion support whenever the result has capabilities, and the
/// capabilities of the language server stay as they are.
pub proof fn law_response_advertises_completion(result: Json, capabilities: Map<Seq<char>, Json>)
    requires
        result.get("capabilities"@) == Some(Json::Object(capabilities)),
    ensures
        json::member(augmented_result(result).get("capabilities"@), "completionProvider"@) is Some,
        forall|key: Seq<char>|
            capabilities.contains_key(key) ==> #[trigger] json::member(
                augmented_result(result).get("capabilities"@),
                key,
            ) == Some(capabilities[key]),
        forall|key: Seq<char>|
            key != "capabilities"@ ==> #[trigger] augmented_result(result).get(key) == result.get(
                key,
            ),
{
}

proof fn lemma_option_keys()
    ensures
        "editorInfo"@ != "editorPluginInfo"@,
{
    reveal_strlit("editorInfo");
    reveal_strlit("editorPluginInfo");
    assert("editorInfo"@.len() == 10 && "editorPluginInfo"@.len() == 16);
}

/// The handshake after messages from Helix, the first of them first, and all that the
/// language server got for them.
pub open spec fn after_helix_messages(state: HandshakeView, msgs: Seq<MessageView>) -> (
    HandshakeView,
    Seq<MessageView>,
)
    decreases msgs.len(),
{
    if msgs.len() == 0 {
        (state, seq![])
    } else {
        let (before, sent) = after_helix_messages(state, msgs.drop_last());
        (after_helix(before, msgs.last()), sent + to_upstream(before, msgs.last()))
    }
}

/// The handshake after messages from the language server, the first of them first, and
/// all that Helix got for them.
pub open spec fn after_upstream_messages(state: HandshakeView, msgs: Seq<MessageView>) -> (
    HandshakeView,
    Seq<MessageView>,
)
    decreases msgs.len(),
{
    if msgs.len() == 0 {
        (state, seq![])
    } else {
        let (before, sent) = after_upstream_messages(state, msgs.drop_last());
        (
            after_upstream(before, msgs.last()),
            match to_helix(msgs.last()) {
                Some(out) => sent.push(out),
                None => sent,
            },
        )
    }
}

/// The messages that reach Helix while a handshake waits for the language server.
pub open spec fn forwarded(msgs: Seq<MessageView>) -> Seq<MessageView> {
    msgs.filter(
        |msg: MessageView|
            router::routed(msg.method, Direction::UpstreamToHelix) != RouteAction::Drop,
    )
}

proof fn lemma_buffering(state: HandshakeView, msgs: Seq<MessageView>)
    requires
        forall|i: int| 0 <= i < msgs.len() ==> !is_awaited(state, #[trigger] msgs[i]),
    ensures
        after_helix_messages(state, msgs) == (
            HandshakeView { buffered: state.buffered + msgs, ..state },
            Seq::<MessageView>::empty(),
        ),
    decreases msgs.len(),
{
    if msgs.len() > 0 {
        let shorter = msgs.drop_last();
        assert forall|i: int| 0 <= i < shorter.len() implies !is_awaited(
            state,
            #[trigger] shorter[i],
        ) by {
            assert(shorter[i] == msgs[i]);
        }
        lemma_buffering(state, shorter);
        assert(!is_awaited(state, msgs[msgs.len() - 1]));
        assert((state.buffered + shorter).push(msgs.last()) =~= state.buffered + msgs);
        assert(Seq::<MessageView>::empty() + seq![] =~= Seq::<MessageView>::empty());
    } else {
        assert(state.buffered + msgs =~= state.buffered);
    }
}

proof fn lemma_forwarding(state: HandshakeView, msgs: Seq<MessageView>)
    requires
        forall|i: int|
            0 <= i < msgs.len() ==> (#[trigger] msgs[i]).kind() != MessageKind::Response,
    ensures
        after_upstream_messages(state, msgs) == (state, forwarded(msgs)),
    decreases msgs.len(),
{
    reveal(Seq::filter);
    if msgs.len() > 0 {
        let shorter = msgs.drop_last();
        assert forall|i: int| 0 <= i < shorter.len() implies (#[trigger] shorter[i]).kind()
            != MessageKind::Response by {
            assert(shorter[i] == msgs[i]);
        }
        lemma_forwarding(state, shorter);
        assert(msgs[msgs.len() - 1].kind() != MessageKind::Response);
    }
}

/// A handshake completes with `initialize` and its id, a response and `initialized`,
/// whatever other messages arrive before each of them.  The language server gets the
/// augmented request, `initialized` and its settings, and nothing else; Helix gets the
/// messages that the router lets through, then the augmented response; and every other
/// message of Helix is kept, in the order in which they came.
pub proof fn law_handshake_completes(
    helix_version: Seq<char>,
    premature: Seq<MessageView>,
    initialize: MessageView,
    notices: Seq<MessageView>,
    response: MessageView,
    early: Seq<MessageView>,
    initialized: MessageView,
)
    requires
        forall|i: int|
            0 <= i < premature.len() ==> (#[trigger] premature[i]).method != Some("initialize"@),
        initialize.method == Some("initialize"@),
        initialize.id is Some,
        forall|i: int|
            0 <= i < notices.len() ==> (#[trigger] notices[i]).kind() != MessageKind::Response,
        response.kind() == MessageKind::Response,
        forall|i: int|
            0 <= i < early.len() ==> (#[trigger] early[i]).method != Some("initialized"@),
        initialized.method == Some("initialized"@),
    ensures
        ({
            let (first, asked) = after_helix_messages(
                started(helix_version),
                premature.push(initialize),
            );
            let (second, answered) = after_upstream_messages(first, notices.push(response));
            let (third, told) = after_helix_messages(second, early.push(initialized));
            &&& first.phase == Phase::Response
            &&& second.phase == Phase::Initialized
            &&& third.phase == Phase::Done
            &&& third.buffered == premature + early
            &&& asked == seq![augmented_request(initialize, helix_version)]
            &&& answered == forwarded(notices).push(augmented_response(response))
            &&& told == seq![initialized, did_change_configuration()]
        }),
{
    let start = started(helix_version);
    lemma_buffering(start, premature);
    assert(premature.push(initialize).drop_last() =~= premature);
    let (first, asked) = after_helix_messages(start, premature.push(initialize));
    assert(asked =~= seq![augmented_request(initialize, helix_version)]);
    assert(first.buffered =~= premature);
    lemma_forwarding(first, notices);
    assert(notices.push(response).drop_last() =~= notices);
    let (second, answered) = after_upstream_messages(first, notices.push(response));
    lemma_buffering(second, early);
    assert(early.push(initialized).drop_last() =~= early);
    let (third, told) = after_helix_messages(second, early.push(initialized));
    assert(told =~= seq![initialized, did_change_configuration()]);
}

/// What Copilot is told of itself and of this program: a name and a version each, and
/// nothing else.
pub proof fn law_both_programs_are_named(helix_version: Seq<char>)
    ensures
        initialization_options(helix_version) matches Json::Object(options) && {
            &&& jsonrpc::given(options, "editorInfo"@) matches Some(editor) && names_product(
                editor,
                "Helix"@,
                helix_version,
            )
            &&& jsonrpc::given(options, "editorPluginInfo"@) matches Some(plugin) && names_product(
                plugin,
                "copilot-helix"@,
                "0.1.0"@,
            )
            &&& forall|key: Seq<char>| #[trigger]
                options.contains_key(key) ==> key == "editorInfo"@ || key == "editorPluginInfo"@
        },
{
    lemma_option_keys();
    lemma_product("Helix"@, helix_version);
    lemma_product("copilot-helix"@, "0.1.0"@);
}

/// Whether a value is an object with a name and a version, and nothing else.
pub open spec fn names_product(json: Json, name: Seq<char>, version: Seq<char>) -> bool {
    json matches Json::Object(members) && {
        &&& jsonrpc::given(members, "name"@) == Some(Json::String(name))
        &&& jsonrpc::given(members, "version"@) == Some(Json::String(version))
        &&& forall|key: Seq<char>| #[trigger]
            members.contains_key(key) ==> key == "name"@ || key == "version"@
    }
}

proof fn lemma_product(name: Seq<char>, version: Seq<char>)
    ensures
        names_product(product(name, version), name, version),
{
    reveal_strlit("name");
    reveal_strlit("version");
    assert("name"@.len() == 4 && "version"@.len() == 7);
}

/// The `initialize` that the language server gets is the one that Helix sent, under its id,
/// but for its params.
pub proof fn law_initialize_keeps_its_fields(msg: MessageView, helix_version: Seq<char>)
    ensures
        augmented_request(msg, helix_version).jsonrpc == msg.jsonrpc,
        augmented_request(msg, helix_version).id == msg.id,
        augmented_request(msg, helix_version).method == msg.method,
        augmented_request(msg, helix_version).result == msg.result,
        augmented_request(msg, helix_version).error == msg.error,
        augmented_request(msg, helix_version).params is Some,
{
}

/// The params of `initialize` keep every member but the options.  Options that are missing
/// or null become those that name both programs; options that are an object keep every
/// member, and get what they do not have of the two; any others stay as they are.
pub proof fn law_initialize_params(
    msg: MessageView,
    helix_version: Seq<char>,
    sent: Map<Seq<char>, Json>,
)
    requires
        msg.params == Some(Json::Object(sent)) || (msg.params is None && sent
            == Map::<Seq<char>, Json>::empty()),
    ensures
        augmented_request(msg, helix_version).params matches Some(Json::Object(got)) && {
            &&& forall|key: Seq<char>|
                key != "initializationOptions"@ ==> #[trigger] jsonrpc::given(got, key)
                    == jsonrpc::given(sent, key)
            &&& jsonrpc::given_not_null(sent, "initializationOptions"@) is None ==> jsonrpc::given(
                got,
                "initializationOptions"@,
            ) == Some(initialization_options(helix_version))
            &&& jsonrpc::given_not_null(sent, "initializationOptions"@) matches Some(options)
                ==> jsonrpc::given(got, "initializationOptions"@) matches Some(told)
                && completed_options(options, told, helix_version)
        },
{
    lemma_option_keys();
    let params = Json::Object(sent);
    assert(params.get("initializationOptions"@) == jsonrpc::given(sent, "initializationOptions"@));
    assert(augmented_options(json::no_members(), helix_version)
        =~= initialization_options(helix_version)->Object_0);
}

/// Whether `told` are the options of Helix, with what they lack of the two programs.
pub open spec fn completed_options(options: Json, told: Json, helix_version: Seq<char>) -> bool {
    match options {
        Json::Object(sent) => told matches Json::Object(got) && {
            &&& forall|key: Seq<char>|
                key != "editorInfo"@ && key != "editorPluginInfo"@ ==> #[trigger] jsonrpc::given(
                    got,
                    key,
                ) == jsonrpc::given(sent, key)
            &&& jsonrpc::given(got, "editorInfo"@) == if sent.contains_key("editorInfo"@) {
                Some(sent["editorInfo"@])
            } else {
                initialization_options(helix_version).get("editorInfo"@)
            }
            &&& jsonrpc::given(got, "editorPluginInfo"@) == if sent.contains_key(
                "editorPluginInfo"@,
            ) {
                Some(sent["editorPluginInfo"@])
            } else {
                initialization_options(helix_version).get("editorPluginInfo"@)
            }
        },
        _ => told == options,
    }
}

/// Params that are no object are sent as they are.
pub proof fn law_initialize_other_params(msg: MessageView, helix_version: Seq<char>)
    requires
        msg.params is Some,
        !(msg.params->0 is Object),
    ensures
        augmented_request(msg, helix_version) == msg,
{
}

/// The response to `initialize` reaches Helix under its id, as the response that it was:
/// only its result may differ.
pub proof fn law_response_keeps_its_fields(msg: MessageView)
    ensures
        augmented_response(msg).jsonrpc == msg.jsonrpc,
        augmented_response(msg).id == msg.id,
        augmented_response(msg).method == msg.method,
        augmented_response(msg).params == msg.params,
        augmented_response(msg).error == msg.error,
        augmented_response(msg).result is Some <==> msg.result is Some,
        augmented_response(msg).kind() == msg.kind(),
        msg.result matches Some(result) && !(result.get("capabilities"@) matches Some(
            Json::Object(_),
        )) ==> augmented_response(msg) == msg,
{
}

/// The result keeps every member, and the capabilities keep every member; where they have no
/// completion support, they get one that resolves nothing.
pub proof fn law_response_result(
    msg: MessageView,
    sent: Map<Seq<char>, Json>,
    capabilities: Map<Seq<char>, Json>,
)
    requires
        msg.result == Some(Json::Object(sent)),
        jsonrpc::given(sent, "capabilities"@) == Some(Json::Object(capabilities)),
    ensures
        augmented_response(msg).result matches Some(Json::Object(got)) && {
            &&& forall|key: Seq<char>|
                key != "capabilities"@ ==> #[trigger] jsonrpc::given(got, key) == jsonrpc::given(
                    sent,
                    key,
                )
            &&& jsonrpc::given(got, "capabilities"@) matches Some(Json::Object(offered)) && {
                &&& forall|key: Seq<char>|
                    key != "completionProvider"@ ==> #[trigger] jsonrpc::given(offered, key)
                        == jsonrpc::given(capabilities, key)
                &&& capabilities.contains_key("completionProvider"@) ==> jsonrpc::given(
                    offered,
                    "completionProvider"@,
                ) == Some(capabilities["completionProvider"@])
                &&& !capabilities.contains_key("completionProvider"@) ==> (jsonrpc::given(
                    offered,
                    "completionProvider"@,
                ) matches Some(Json::Object(provider)) && jsonrpc::given(
                    provider,
                    "resolveProvider"@,
                ) == Some(Json::Bool(false)) && forall|key: Seq<char>| #[trigger]
                    provider.contains_key(key) ==> key == "resolveProvider"@)
            }
        },
{
}

/// Copilot's settings name neither an HTTP proxy nor an enterprise server.
pub proof fn law_settings_are_null()
    ensures
        did_change_configuration().method == Some("workspace/didChangeConfiguration"@),
        did_change_configuration().id is None,
        ({
            let told = json::member(did_change_configuration().params, "settings"@);
            let http = json::member(told, "http"@);
            let enterprise = json::member(told, "github-enterprise"@);
            &&& json::member(http, "proxy"@) == Some(Json::Null)
            &&& json::member(http, "proxyStrictSSL"@) == Some(Json::Null)
            &&& json::member(enterprise, "uri"@) == Some(Json::Null)
        }),
{
    reveal_strlit("http");
    reveal_strlit("github-enterprise");
    reveal_strlit("proxy");
    reveal_strlit("proxyStrictSSL");
    assert("http"@.len() == 4 && "github-enterprise"@.len() == 17);
    assert("proxy"@.len() == 5 && "proxyStrictSSL"@.len() == 14);
}

/// A handshake that waits for Helix moves on with the message that it waits for, and with no
/// other: every other message is kept, behind those kept before, and sends nothing.
pub proof fn law_handshake_on_helix_message(state: HandshakeView, msg: MessageView)
    requires
        state.phase == Phase::Initialize || state.phase == Phase::Initialized,
    ensures
        ({
            let wanted = if state.phase == Phase::Initialize {
                "initialize"@
            } else {
                "initialized"@
            };
            &&& msg.method != Some(wanted) ==> {
                &&& !is_unanswerable(state, msg)
                &&& after_helix(state, msg).phase == state.phase
                &&& after_helix(state, msg).buffered == state.buffered.push(msg)
                &&& to_upstream(state, msg).len() == 0
            }
            &&& msg.method == Some(wanted) ==> after_helix(state, msg).buffered == state.buffered
            &&& msg.method == Some(wanted) && state.phase == Phase::Initialize && msg.id is Some
                ==> {
                &&& !is_unanswerable(state, msg)
                &&& after_helix(state, msg).phase == Phase::Response
                &&& to_upstream(state, msg).len() == 1
                &&& to_upstream(state, msg)[0] == augmented_request(msg, state.helix_version)
            }
            &&& msg.method == Some(wanted) && state.phase == Phase::Initialize && msg.id is None
                ==> is_unanswerable(state, msg) && after_helix(state, msg) == state
            &&& msg.method == Some(wanted) && state.phase == Phase::Initialized ==> {
                &&& !is_unanswerable(state, msg)
                &&& after_helix(state, msg).phase == Phase::Done
                &&& to_upstream(state, msg).len() == 2
                &&& to_upstream(state, msg)[0] == msg
                &&& to_upstream(state, msg)[1] == did_change_configuration()
            }
            &&& after_helix(state, msg).helix_version == state.helix_version
        }),
{
    reveal_strlit("initialize");
    reveal_strlit("initialized");
    assert("initialize"@.len() == 10 && "initialized"@.len() == 11);
}

/// A handshake that waits for the language server moves on with a response, which reaches
/// Helix, and with nothing else; other messages reach Helix unchanged, but for the methods
/// that are dropped.  No message of Helix is lost or sent meanwhile.
pub proof fn law_handshake_on_upstream_message(state: HandshakeView, msg: MessageView)
    ensures
        msg.id is Some && msg.method is None ==> {
            &&& after_upstream(state, msg).phase == Phase::Initialized
            &&& to_helix(msg) == Some(augmented_response(msg))
        },
        msg.id is None || msg.method is Some ==> {
            &&& after_upstream(state, msg).phase == state.phase
            &&& to_helix(msg) == if router::routed(msg.method, Direction::UpstreamToHelix)
                == RouteAction::Drop {
                None
            } else {
                Some(msg)
            }
        },
        after_upstream(state, msg).buffered == state.buffered,
        after_upstream(state, msg).helix_version == state.helix_version,
{
}

/// A handshake starts by waiting for `initialize`, with nothing kept.
pub proof fn law_handshake_starts(helix_version: Seq<char>)
    ensures
        started(helix_version).phase == Phase::Initialize,
        started(helix_version).helix_version == helix_version,
        started(helix_version).buffered.len() == 0,
{
}

/// A list of messages stands for its messages, one by one.
pub proof fn law_messages_in_order(messages: Seq<Message>)
    ensures
        messages_view(messages).len() == messages.len(),
        forall|i: int|
            0 <= i < messages.len() ==> #[trigger] messages_view(messages)[i] == messages[i]@,
{
}

/// Each failed handshake is told of in its own words.
pub proof fn law_handshake_errors_are_told()
    ensures
        HandshakeError::MissingId.message() == "`initialize` request has no id"@,
        HandshakeError::UpstreamClosed.message()
            == "upstream closed before sending initialize response"@,
{
}

} // verus!
