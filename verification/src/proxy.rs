//! What the proxy does with each message between Helix and the language server.
//!
//! Once the initialization handshake is complete, two tasks run side by side:
//! - A *Helix reader* that forwards Helix stdin → upstream; each message goes
//!   through [`prepare_helix_message`].
//! - An *upstream reader* that forwards upstream stdout → Helix stdout; each
//!   message goes through [`prepare_upstream_message`].

use vstd::prelude::*;

use crate::json;
use crate::json::{member_of, str_of, Json, JsonValue};
use crate::jsonrpc::{Message, MessageKind, MessageView};
use crate::router;
use crate::router::{route, Direction, RouteAction};
use crate::text::same_text;
use crate::translator;
use crate::translator::{Event, Translator, TranslatorView};

verus! {

// ── Helix → language server ─────────────────────────────────────────────────

/// Whether `r` is what the language server may get for a message that the proxy
/// intercepts: completions are translated and cancellations remapped; any other
/// message stays as it is.
pub open spec fn intercepted(state: TranslatorView, msg: MessageView, r: MessageView) -> bool {
    if msg.method == Some("textDocument/completion"@) {
        r == translator::translated_request(state, msg)
    } else if msg.method == Some("$/cancelRequest"@) {
        translator::remapped_cancel(state, msg, r)
    } else {
        r == msg
    }
}

/// The state after intercepting a message.
pub open spec fn after_intercept(state: TranslatorView, msg: MessageView) -> TranslatorView {
    if msg.method == Some("textDocument/completion"@) {
        translator::after_request(state, msg)
    } else {
        state
    }
}

/// The state after looking at a message from Helix.
pub open spec fn after_observing(state: TranslatorView, msg: MessageView) -> TranslatorView {
    TranslatorView { versions: translator::observed(state.versions, msg), ..state }
}

/// The state after a message from Helix.
pub open spec fn after_helix_message(
    state: TranslatorView,
    msg: MessageView,
    action: RouteAction,
) -> TranslatorView {
    match action {
        RouteAction::Intercept => after_intercept(after_observing(state, msg), msg),
        _ => after_observing(state, msg),
    }
}

/// Whether `r` is what the language server may get for a message from Helix.
pub open spec fn helix_message(
    state: TranslatorView,
    msg: MessageView,
    action: RouteAction,
    r: Option<MessageView>,
) -> bool {
    match action {
        RouteAction::PassThrough => r == Some(msg),
        RouteAction::Drop => r is None,
        RouteAction::Intercept => r is Some && intercepted(after_observing(state, msg), msg, r->0),
    }
}

/// The action for a message from Helix.
pub open spec fn helix_action(msg: MessageView) -> RouteAction {
    router::routed(msg.method, Direction::HelixToUpstream)
}

/// Prepares a message from Helix for the language server.
pub fn prepare_helix_message(msg: Message, translator: &mut Translator) -> (r: Message)
    requires
        msg@.method == Some("textDocument/completion"@) ==> old(translator)@.next_id < u64::MAX,
    ensures
        helix_message(old(translator)@, msg@, helix_action(msg@), Some(r@)),
        final(translator)@ == after_helix_message(old(translator)@, msg@, helix_action(msg@)),
        old(translator)@.wf() ==> final(translator)@.wf(),
{
    let action = route(msg.method(), Direction::HelixToUpstream);
    // Messages from Helix are never dropped.
    prepare_helix_message_with_action(msg, action, translator).unwrap()
}

/// Prepares a message from Helix for which the router has chosen an action;
/// `None` when it is dropped.
pub fn prepare_helix_message_with_action(
    msg: Message,
    action: RouteAction,
    translator: &mut Translator,
) -> (r: Option<Message>)
    requires
        action == RouteAction::Intercept && msg@.method == Some("textDocument/completion"@)
            ==> old(translator)@.next_id < u64::MAX,
    ensures
        helix_message(
            old(translator)@,
            msg@,
            action,
            match r {
                Some(out) => Some(out@),
                None => None,
            },
        ),
        final(translator)@ == after_helix_message(old(translator)@, msg@, action),
        old(translator)@.wf() ==> final(translator)@.wf(),
{
    translator.observe_helix_message(&msg);
    match action {
        RouteAction::PassThrough => Some(msg),
        RouteAction::Drop => None,
        RouteAction::Intercept => Some(translate_helix_intercept(msg, translator)),
    }
}

/// Handles a message that the proxy intercepts.
pub fn translate_helix_intercept(msg: Message, translator: &mut Translator) -> (r: Message)
    requires
        msg@.method == Some("textDocument/completion"@) ==> old(translator)@.next_id < u64::MAX,
    ensures
        intercepted(old(translator)@, msg@, r@),
        final(translator)@ == after_intercept(old(translator)@, msg@),
        old(translator)@.wf() ==> final(translator)@.wf(),
{
    let is_completion: bool = match msg.method() {
        Some(method) => if same_text(method, "textDocument/completion") {
            true
        } else if same_text(method, "$/cancelRequest") {
            false
        } else {
            return msg;
        },
        None => return msg,
    };
    if is_completion {
        translator.translate_request(msg)
    } else {
        translator.try_remap_cancel(msg)
    }
}

// ── Language server → Helix ─────────────────────────────────────────────────

/// Whether a message answers a completion that the proxy sent.
pub open spec fn is_answer(state: TranslatorView, msg: MessageView) -> bool {
    msg.kind() == MessageKind::Response && translator::names_pending(state, msg)
}

/// What Helix gets for a message from the language server, if anything.
pub open spec fn upstream_message(state: TranslatorView, msg: MessageView) -> Option<MessageView> {
    if is_answer(state, msg) {
        Some(translator::translated_response(state, msg))
    } else if router::routed(msg.method, Direction::UpstreamToHelix) == RouteAction::Drop {
        None
    } else {
        Some(msg)
    }
}

/// The state after a message from the language server.
pub open spec fn after_upstream_message(state: TranslatorView, msg: MessageView) -> TranslatorView {
    if is_answer(state, msg) {
        translator::after_response(state, msg)
    } else {
        state
    }
}

/// Prepares a message from the language server for Helix; `None` when it is
/// dropped.
///
/// Responses to proxied completions are intercepted by the translator
/// regardless of what the router says (responses have no method name).
pub fn prepare_upstream_message(msg: Message, translator: &mut Translator) -> (r: Option<Message>)
    ensures
        match r {
            Some(out) => upstream_message(old(translator)@, msg@) == Some(out@),
            None => upstream_message(old(translator)@, msg@) is None,
        },
        final(translator)@ == after_upstream_message(old(translator)@, msg@),
        old(translator)@.wf() ==> final(translator)@.wf(),
{
    if translator.is_pending_response(&msg) {
        return Some(translator.try_translate_response(msg));
    }
    match route(msg.method(), Direction::UpstreamToHelix) {
        RouteAction::PassThrough => Some(msg),
        RouteAction::Drop => None,
        RouteAction::Intercept => Some(msg),
    }
}

// ── Logging ─────────────────────────────────────────────────────────────────

/// What the log tells of a completion request.
#[derive(Debug)]
pub struct CompletionLogFields<'a> {
    pub uri: &'a str,
    pub line: u64,
    pub character: u64,
    pub trigger_kind: Option<u64>,
}

/// What the log tells of a message from Helix.
#[derive(Debug)]
pub enum HelixLog<'a> {
    /// A completion request was received.
    Completion(CompletionLogFields<'a>),
    /// A document sync message was received.
    DocumentSync,
    /// The message is not logged.
    Nothing,
}

/// An unsigned number in a member of a member.
pub open spec fn number_at(params: Option<Json>, outer: Seq<char>, inner: Seq<char>) -> Option<u64> {
    match json::member(json::member(params, outer), inner) {
        Some(value) => value.as_u64(),
        None => None,
    }
}

/// What the log tells of the completion request with these params.
pub open spec fn logged(fields: CompletionLogFields<'_>, params: Option<Json>) -> bool {
    &&& fields.uri@ == match translator::document_uri(params) {
        Some(uri) => uri,
        None => "<missing>"@,
    }
    &&& fields.line == match number_at(params, "position"@, "line"@) {
        Some(line) => line,
        None => 0,
    }
    &&& fields.character == match number_at(params, "position"@, "character"@) {
        Some(character) => character,
        None => 0,
    }
    &&& fields.trigger_kind == number_at(params, "context"@, "triggerKind"@)
}

fn number_in(value: Option<&JsonValue>, key: &str) -> (r: Option<u64>)
    ensures
        r == match json::member(json::ref_view(value), key@) {
            Some(number) => number.as_u64(),
            None => None,
        },
{
    match member_of(value, key) {
        Some(number) => number.as_u64(),
        None => None,
    }
}

/// Collects what the log tells of a completion request.
pub fn completion_log_fields(msg: &Message, debug_enabled: bool) -> (r: Option<
    CompletionLogFields<'_>,
>)
    ensures
        match r {
            Some(fields) => debug_enabled && msg@.method == Some("textDocument/completion"@)
                && logged(fields, msg@.params),
            None => !debug_enabled || msg@.method != Some("textDocument/completion"@),
        },
{
    if !debug_enabled {
        return None;
    }
    match msg.method() {
        Some(method) => if !same_text(method, "textDocument/completion") {
            return None;
        },
        None => return None,
    }
    let params = msg.params.as_ref();
    let position = member_of(params, "position");
    Some(
        CompletionLogFields {
            uri: match str_of(member_of(member_of(params, "textDocument"), "uri")) {
                Some(uri) => uri,
                None => "<missing>",
            },
            line: match number_in(position, "line") {
                Some(line) => line,
                None => 0,
            },
            character: match number_in(position, "character") {
                Some(character) => character,
                None => 0,
            },
            trigger_kind: number_in(member_of(params, "context"), "triggerKind"),
        },
    )
}

/// Whether a method tells of a document that is opened, changed or closed.
pub open spec fn is_document_sync(method: Seq<char>) -> bool {
    ||| method == "textDocument/didOpen"@
    ||| method == "textDocument/didChange"@
    ||| method == "textDocument/didClose"@
}

/// Decides what the log tells of a message from Helix.
pub fn log_helix_message(msg: &Message, debug_enabled: bool) -> (r: HelixLog<'_>)
    ensures
        match r {
            HelixLog::Completion(fields) => debug_enabled && msg@.method == Some(
                "textDocument/completion"@,
            ) && logged(fields, msg@.params),
            HelixLog::DocumentSync => debug_enabled && msg@.method is Some && is_document_sync(
                msg@.method->0,
            ),
            HelixLog::Nothing => !debug_enabled || msg@.method is None || (msg@.method != Some(
                "textDocument/completion"@,
            ) && !is_document_sync(msg@.method->0)),
        },
{
    if !debug_enabled {
        return HelixLog::Nothing;
    }
    match completion_log_fields(msg, true) {
        Some(fields) => return HelixLog::Completion(fields),
        None => {},
    }
    match msg.method() {
        Some(method) => if same_text(method, "textDocument/didOpen") || same_text(
            method,
            "textDocument/didChange",
        ) || same_text(method, "textDocument/didClose") {
            HelixLog::DocumentSync
        } else {
            HelixLog::Nothing
        },
        None => HelixLog::Nothing,
    }
}

// ── Laws ────────────────────────────────────────────────────────────────────

/// Every message from Helix reaches the language server: the router drops none.
pub proof fn law_helix_messages_are_not_dropped(
    state: TranslatorView,
    msg: MessageView,
    r: Option<MessageView>,
)
    requires
        helix_message(state, msg, helix_action(msg), r),
    ensures
        r is Some,
{
}

/// A message from Helix that is neither a completion nor a cancellation reaches the
/// language server unchanged.
pub proof fn law_other_helix_messages_unchanged(
    state: TranslatorView,
    msg: MessageView,
    r: Option<MessageView>,
)
    requires
        helix_message(state, msg, helix_action(msg), r),
        msg.method != Some("textDocument/completion"@),
        msg.method != Some("$/cancelRequest"@),
    ensures
        r == Some(msg),
        after_helix_message(state, msg, helix_action(msg)).pending == state.pending,
        after_helix_message(state, msg, helix_action(msg)).next_id == state.next_id,
{
}

/// Every response of the language server reaches Helix: unchanged, unless it answers a
/// completion that the proxy sent.
pub proof fn law_responses_reach_helix(state: TranslatorView, msg: MessageView)
    requires
        msg.kind() == MessageKind::Response,
    ensures
        upstream_message(state, msg) is Some,
        !translator::names_pending(state, msg) ==> upstream_message(state, msg) == Some(msg),
{
}

/// A request or notification of the language server is never taken for an answer,
/// whatever its id: it is dropped by its method or reaches Helix unchanged.
pub proof fn law_requests_are_no_answers(state: TranslatorView, msg: MessageView)
    requires
        msg.kind() != MessageKind::Response,
    ensures
        after_upstream_message(state, msg) == state,
        upstream_message(state, msg) is None <==> msg.method is Some && router::is_internal(
            msg.method->0,
        ),
        upstream_message(state, msg) is Some ==> upstream_message(state, msg) == Some(msg),
{
}

/// What the language server gets for a completion is an inline completion request, and
/// its response to that request reaches Helix under the id of the completion, whatever
/// else the translator saw in between.
pub proof fn law_completion_round_trip(
    state: TranslatorView,
    request: MessageView,
    sent: MessageView,
    between: Seq<Event>,
    reply: MessageView,
)
    requires
        state.wf(),
        state.next_id + translator::requests(between) + 1 <= u64::MAX,
        request.method == Some("textDocument/completion"@),
        helix_message(state, request, helix_action(request), Some(sent)),
        reply.kind() == MessageKind::Response,
        reply.id == sent.id,
        forall|i: int|
            0 <= i < between.len() && (#[trigger] between[i]) is Answered ==> translator::proxy_id(
                between[i]->Answered_0,
            ) != translator::proxy_id(reply),
    ensures
        sent.method == Some("textDocument/inlineCompletion"@),
        ({
            let now = translator::ran(
                after_helix_message(state, request, helix_action(request)),
                between,
            );
            &&& upstream_message(now, reply) is Some
            &&& upstream_message(now, reply)->0.id == Some(translator::id_or_null(request))
            &&& upstream_message(now, reply)->0.error == reply.error
            &&& reply.error is None ==> upstream_message(now, reply)->0.result == Some(
                translator::completion_list(reply.result),
            )
        }),
{
    let seen = after_observing(state, request);
    assert(after_helix_message(state, request, helix_action(request)) == translator::after_request(
        seen,
        request,
    ));
    translator::law_answer_has_helix_id(seen, request, between, reply);
    translator::law_pending_until_answered(
        translator::after_request(seen, request),
        between,
        (seen.next_id + 1) as u64,
    );
}

/// A completion from Helix is translated by the state as it is; a cancellation is remapped
/// by it; and looking at either changes no version.
pub proof fn law_handled_messages(state: TranslatorView, msg: MessageView, r: Option<MessageView>)
    requires
        helix_message(state, msg, helix_action(msg), r),
    ensures
        msg.method == Some("textDocument/completion"@) ==> r == Some(
            translator::translated_request(state, msg),
        ),
        msg.method == Some("$/cancelRequest"@) ==> r is Some && translator::remapped_cancel(
            state,
            msg,
            r->0,
        ),
{
    lemma_methods();
}

/// The action decides: a message passes unchanged, is dropped, or is handled.
pub proof fn law_actions(
    state: TranslatorView,
    msg: MessageView,
    action: RouteAction,
    r: Option<MessageView>,
)
    requires
        helix_message(state, msg, action, r),
    ensures
        action == RouteAction::PassThrough ==> r == Some(msg),
        action == RouteAction::Drop ==> r is None,
        action == RouteAction::Intercept ==> r is Some,
        action == RouteAction::Intercept && msg.method != Some("textDocument/completion"@)
            && msg.method != Some("$/cancelRequest"@) ==> r == Some(msg),
        action == RouteAction::Intercept && msg.method == Some("textDocument/completion"@) ==> r
            == Some(translator::translated_request(state, msg)),
        action == RouteAction::Intercept && msg.method == Some("$/cancelRequest"@)
            ==> translator::remapped_cancel(state, msg, r->0),
{
    lemma_methods();
}

/// A message from Helix changes the document versions by what it tells, whatever is done
/// with it; only a completion that is handled becomes pending.
pub proof fn law_state_after_helix_message(
    state: TranslatorView,
    msg: MessageView,
    action: RouteAction,
)
    ensures
        after_helix_message(state, msg, action).versions == translator::observed(
            state.versions,
            msg,
        ),
        action == RouteAction::Intercept && msg.method == Some("textDocument/completion"@) ==> {
            let now = translator::after_request(state, msg);
            &&& after_helix_message(state, msg, action).pending == now.pending
            &&& after_helix_message(state, msg, action).next_id == now.next_id
        },
        action != RouteAction::Intercept || msg.method != Some("textDocument/completion"@) ==> {
            &&& after_helix_message(state, msg, action).pending == state.pending
            &&& after_helix_message(state, msg, action).next_id == state.next_id
        },
{
}

/// A response whose id is the number of a pending completion is answered for; any other
/// message reaches Helix unchanged, but for the methods that are dropped.
pub proof fn law_upstream_messages(state: TranslatorView, msg: MessageView, id: u64)
    ensures
        msg.id == Some(Json::Number(json::Num::Int(id as int))) && msg.method is None
            && state.pending.contains_key(id) ==> {
            &&& upstream_message(state, msg) == Some(translator::translated_response(state, msg))
            &&& after_upstream_message(state, msg) == translator::after_response(state, msg)
        },
        msg.id == Some(Json::Number(json::Num::Int(id as int))) && msg.method is None
            && !state.pending.contains_key(id) ==> {
            &&& upstream_message(state, msg) == Some(msg)
            &&& after_upstream_message(state, msg) == state
        },
        msg.method is Some || msg.id is None ==> {
            &&& upstream_message(state, msg) == if router::routed(
                msg.method,
                Direction::UpstreamToHelix,
            ) == RouteAction::Drop {
                None
            } else {
                Some(msg)
            }
            &&& after_upstream_message(state, msg) == state
        },
{
}

/// The log shows the document, the place and the trigger that a completion request names,
/// and says so where it names none.
pub proof fn law_log_shows_request(fields: CompletionLogFields<'_>, params: Option<Json>)
    requires
        logged(fields, params),
    ensures
        json::text_of(json::member(json::member(params, "textDocument"@), "uri"@)) matches Some(uri)
            ==> fields.uri@ == uri,
        json::text_of(json::member(json::member(params, "textDocument"@), "uri"@)) is None
            ==> fields.uri@ == "<missing>"@,
        forall|n: u64|
            json::member(json::member(params, "position"@), "line"@) == Some(
                #[trigger] json::int_json(n as int),
            ) ==> fields.line == n,
        forall|n: u64|
            json::member(json::member(params, "position"@), "character"@) == Some(
                #[trigger] json::int_json(n as int),
            ) ==> fields.character == n,
        forall|n: u64|
            json::member(json::member(params, "context"@), "triggerKind"@) == Some(
                #[trigger] json::int_json(n as int),
            ) <==> fields.trigger_kind == Some(n),
        (json::member(json::member(params, "position"@), "line"@) matches Some(line)
            ==> line.as_u64() is None) ==> fields.line == 0,
        (json::member(json::member(params, "position"@), "character"@) matches Some(character)
            ==> character.as_u64() is None) ==> fields.character == 0,
{
}

/// Three methods tell of documents.
pub proof fn law_document_methods(method: Seq<char>)
    ensures
        is_document_sync(method) <==> method == "textDocument/didOpen"@ || method
            == "textDocument/didChange"@ || method == "textDocument/didClose"@,
{
}

proof fn lemma_methods()
    ensures
        "textDocument/completion"@ != "$/cancelRequest"@,
        "textDocument/completion"@ != "textDocument/didOpen"@,
        "textDocument/completion"@ != "textDocument/didChange"@,
        "textDocument/completion"@ != "textDocument/didClose"@,
        "$/cancelRequest"@ != "textDocument/didOpen"@,
        "$/cancelRequest"@ != "textDocument/didChange"@,
        "$/cancelRequest"@ != "textDocument/didClose"@,
{
    reveal_strlit("textDocument/completion");
    reveal_strlit("$/cancelRequest");
    reveal_strlit("textDocument/didOpen");
    reveal_strlit("textDocument/didChange");
    reveal_strlit("textDocument/didClose");
    assert("textDocument/completion"@.len() == 23 && "$/cancelRequest"@.len() == 15);
    assert("textDocument/didOpen"@.len() == 20 && "textDocument/didChange"@.len() == 22);
    assert("textDocument/didClose"@.len() == 21);
}

} // verus!
