//! Translates between Helix's `textDocument/completion` and Copilot's
//! `textDocument/inlineCompletion` protocol extension.
//!
//! # Protocol gap
//!
//! Helix sends standard LSP `textDocument/completion` requests.  Copilot's
//! language server expects `textDocument/inlineCompletion` with an extra
//! `formattingOptions` field and returns `InlineCompletionItem`s instead of
//! `CompletionItem`s.  This module bridges the two.
//!
//! # Concurrency
//!
//! [`Translator`] is plain state.  A program that reads from Helix and from the
//! language server in two tasks shares one translator between them, behind a lock
//! that is held for the duration of one call.

use std::collections::HashMap;
use vstd::hash_map::StringHashMap;
use vstd::prelude::*;

use crate::json;
use crate::json::{member_of, str_of, Json, JsonValue, Object};
use crate::jsonrpc;
use crate::jsonrpc::{Message, MessageKind, MessageView};
use crate::text;
use crate::text::{decimal_text, first_line, pad_with_zeros, same_text, shorten};

verus! {

// ── State ───────────────────────────────────────────────────────────────────

/// Translation state.
pub struct Translator {
    /// Maps proxy-generated request id → original Helix request id.
    pending: HashMap<u64, JsonValue>,
    /// Tracks the latest known document version by URI.
    document_versions: StringHashMap<i64>,
    next_id: u64,
}

/// The mathematical value of a [`Translator`].
pub struct TranslatorView {
    /// The Helix id of each completion request that is not answered yet.
    pub pending: Map<u64, Json>,
    /// The latest known version of each open document.
    pub versions: Map<Seq<char>, i64>,
    /// The last request id that was given out.
    pub next_id: u64,
}

impl Translator {
    pub closed spec fn view(&self) -> TranslatorView {
        TranslatorView {
            pending: self.pending@.map_values(|id: JsonValue| id@),
            versions: self.document_versions@,
            next_id: self.next_id,
        }
    }
}

impl TranslatorView {
    /// Every pending request has an id that was given out.
    pub open spec fn wf(self) -> bool {
        forall|id: u64| #[trigger] self.pending.contains_key(id) ==> id <= self.next_id
    }
}

/// A translator that has seen nothing.
pub open spec fn fresh() -> TranslatorView {
    TranslatorView { pending: Map::empty(), versions: Map::empty(), next_id: 0 }
}

// ── Requests ────────────────────────────────────────────────────────────────

/// The document that a message is about.
pub open spec fn document(params: Option<Json>) -> Option<Json> {
    json::member(params, "textDocument"@)
}

/// The URI of the document that a message is about.
pub open spec fn document_uri(params: Option<Json>) -> Option<Seq<char>> {
    json::text_of(json::member(document(params), "uri"@))
}

/// The version of the document that a message is about.
pub open spec fn document_version(params: Option<Json>) -> Option<i64> {
    match json::member(document(params), "version"@) {
        Some(version) => version.as_i64(),
        None => None,
    }
}

/// The document versions after a message from Helix: opening and changing a
/// document sets its version, closing it forgets the version.
pub open spec fn observed(versions: Map<Seq<char>, i64>, msg: MessageView) -> Map<Seq<char>, i64> {
    let uri = document_uri(msg.params);
    let version = document_version(msg.params);
    if msg.method == Some("textDocument/didOpen"@) || msg.method == Some(
        "textDocument/didChange"@,
    ) {
        if uri is Some && version is Some {
            versions.insert(uri->0, version->0)
        } else {
            versions
        }
    } else if msg.method == Some("textDocument/didClose"@) && uri is Some {
        versions.remove(uri->0)
    } else {
        versions
    }
}

/// The formatting options of a request that brings none.
pub open spec fn default_formatting() -> Json {
    Json::Object(
        json::no_members().insert("insertSpaces"@, Json::Bool(true)).insert(
            "tabSize"@,
            json::int_json(2),
        ),
    )
}

/// The members of completion params, with the version put into the document,
/// unless the document brings one.
pub open spec fn with_version(members: Map<Seq<char>, Json>, version: Option<i64>) -> Map<
    Seq<char>,
    Json,
> {
    match (version, Json::Object(members).get("textDocument"@)) {
        (Some(version), Some(Json::Object(document))) => members.insert(
            "textDocument"@,
            Json::Object(
                json::or_insert(document, "version"@, json::int_json(version as int)),
            ),
        ),
        _ => members,
    }
}

/// The params of an inline completion request: those of the completion request,
/// with a tracked document version and formatting options added where they are
/// missing.
pub open spec fn inline_params(params: Json, version: Option<i64>) -> Json {
    match params {
        Json::Object(members) => Json::Object(
            json::or_insert(
                with_version(members, version),
                "formattingOptions"@,
                default_formatting(),
            ),
        ),
        _ => params,
    }
}

/// The tracked version of the document that a request is about.
pub open spec fn tracked_version(versions: Map<Seq<char>, i64>, params: Json) -> Option<i64> {
    match document_uri(Some(params)) {
        Some(uri) => if versions.contains_key(uri) {
            Some(versions[uri])
        } else {
            None
        },
        None => None,
    }
}

/// The value that stands for missing params.
pub open spec fn params_or_empty(params: Option<Json>) -> Json {
    match params {
        Some(params) => params,
        None => Json::Object(json::no_members()),
    }
}

/// The id of a request; null when it has none.
pub open spec fn id_or_null(msg: MessageView) -> Json {
    match msg.id {
        Some(id) => id,
        None => Json::Null,
    }
}

/// The state after a completion request: the next id is taken, and stands for
/// the id that Helix chose.
pub open spec fn after_request(state: TranslatorView, msg: MessageView) -> TranslatorView {
    let id = (state.next_id + 1) as u64;
    TranslatorView { pending: state.pending.insert(id, id_or_null(msg)), next_id: id, ..state }
}

/// The inline completion request that stands for a completion request.
pub open spec fn translated_request(state: TranslatorView, msg: MessageView) -> MessageView {
    let params = params_or_empty(msg.params);
    jsonrpc::request_view(
        json::int_json(state.next_id + 1),
        "textDocument/inlineCompletion"@,
        inline_params(params, tracked_version(state.versions, params)),
    )
}

// ── Responses ───────────────────────────────────────────────────────────────

/// The range of an item that brings none: zero-width, at an unknown position.
pub open spec fn fallback_range() -> Json {
    let origin = Json::Object(
        json::no_members().insert("line"@, json::int_json(0)).insert(
            "character"@,
            json::int_json(0),
        ),
    );
    Json::Object(json::no_members().insert("start"@, origin).insert("end"@, origin))
}

/// The label of an item: the first line that is not blank, cut to `max_chars`.
pub open spec fn label(text: Seq<char>, max_chars: nat) -> Seq<char> {
    text::shortened(text::headline(text), max_chars)
}

/// The text that sorts an item at its place: its number, counted from one, in at
/// least four digits.
pub open spec fn sort_text(index: nat) -> Seq<char> {
    text::zero_padded(text::decimal(index + 1), 4)
}

/// The text that an inline completion item inserts.
pub open spec fn insert_text(item: Json) -> Seq<char> {
    match json::text_of(item.get("insertText"@)) {
        Some(text) => text,
        None => Seq::empty(),
    }
}

/// The `CompletionItem` that stands for an `InlineCompletionItem`.
pub open spec fn completion_item(item: Json, index: nat) -> Json {
    let text = insert_text(item);
    let range = match item.get("range"@) {
        Some(range) => range,
        None => fallback_range(),
    };
    let edit = Json::Object(
        json::no_members().insert("range"@, range).insert("newText"@, Json::String(text)),
    );
    let members = json::no_members().insert("label"@, Json::String(label(text, 80))).insert(
        "kind"@,
        json::int_json(1),
    ).insert("insertTextFormat"@, json::int_json(1)).insert("insertText"@, Json::String(text)).insert(
        "textEdit"@,
        edit,
    ).insert("sortText"@, Json::String(sort_text(index)));
    let members = json::insert_some(members, "filterText"@, item.get("filterText"@));
    match item.get("command"@) {
        Some(command) => Json::Object(
            members.insert(
                "data"@,
                Json::Object(json::no_members().insert("_copilot_command"@, command)),
            ),
        ),
        None => Json::Object(members),
    }
}

/// The `CompletionItem`s that stand for the items of a result, in their order.
pub open spec fn completion_items(result: Option<Json>) -> Seq<Json> {
    match json::member(result, "items"@) {
        Some(Json::Array(items)) => items.map(|i: int, item: Json| completion_item(item, i as nat)),
        _ => Seq::empty(),
    }
}

/// The completion list that stands for the result of an inline completion.
pub open spec fn completion_list(result: Option<Json>) -> Json {
    Json::Object(
        json::no_members().insert("isIncomplete"@, Json::Bool(false)).insert(
            "items"@,
            Json::Array(completion_items(result)),
        ),
    )
}

/// The request id that a message from the language server names.
pub open spec fn proxy_id(msg: MessageView) -> Option<u64> {
    match msg.id {
        Some(id) => id.as_u64(),
        None => None,
    }
}

/// Whether a message from the language server names a pending completion.
pub open spec fn names_pending(state: TranslatorView, msg: MessageView) -> bool {
    proxy_id(msg) is Some && state.pending.contains_key(proxy_id(msg)->0)
}

/// The state after a message from the language server: a completion that it
/// names is answered.
pub open spec fn after_response(state: TranslatorView, msg: MessageView) -> TranslatorView {
    if names_pending(state, msg) {
        TranslatorView { pending: state.pending.remove(proxy_id(msg)->0), ..state }
    } else {
        state
    }
}

/// What Helix gets for a message from the language server: for a pending
/// completion the answer under the id that Helix chose, else the message itself.
pub open spec fn translated_response(state: TranslatorView, msg: MessageView) -> MessageView {
    if names_pending(state, msg) {
        let id = state.pending[proxy_id(msg)->0];
        match msg.error {
            Some(error) => jsonrpc::error_response_view(id, error),
            None => jsonrpc::success_view(id, completion_list(msg.result)),
        }
    } else {
        msg
    }
}

// ── Cancellation ────────────────────────────────────────────────────────────

/// Whether `id` is the proxy id of a pending completion that Helix knows as `helix_id`.
pub open spec fn stands_for(state: TranslatorView, id: u64, helix_id: Json) -> bool {
    state.pending.contains_key(id) && json::json_eq(state.pending[id], helix_id)
}

/// A cancellation that names `id` instead.
pub open spec fn with_cancelled_id(msg: MessageView, id: u64) -> MessageView {
    match msg.params {
        Some(Json::Object(members)) => MessageView {
            params: Some(Json::Object(members.insert("id"@, json::int_json(id as int)))),
            ..msg
        },
        _ => msg,
    }
}

/// Whether `r` is what the language server may get for the cancellation `msg`: one
/// that names a pending completion by the proxy id that stands for Helix's id, and
/// the message itself where there is no such completion.
pub open spec fn remapped_cancel(state: TranslatorView, msg: MessageView, r: MessageView) -> bool {
    match json::member(msg.params, "id"@) {
        Some(helix_id) => {
            ||| exists|id: u64|
                #[trigger] stands_for(state, id, helix_id) && r == with_cancelled_id(msg, id)
            ||| r == msg && forall|id: u64| !#[trigger] stands_for(state, id, helix_id)
        },
        None => r == msg,
    }
}

// ── Public API ──────────────────────────────────────────────────────────────

impl Default for Translator {
    fn default() -> (r: Translator)
        ensures
            r@ == fresh(),
    {
        broadcast use vstd::std_specs::hash::group_hash_axioms;

        let r = Translator {
            pending: HashMap::new(),
            document_versions: StringHashMap::new(),
            next_id: 0,
        };
        assert(r@.pending =~= Map::empty());
        assert(r@.versions =~= Map::empty());
        r
    }
}

impl Translator {
    pub fn new() -> (r: Translator)
        ensures
            r@ == fresh(),
            r@.wf(),
    {
        Translator::default()
    }

    /// Observe a Helix message that may update document version state.
    ///
    /// This is called for both live traffic and messages buffered during the
    /// initialization handshake so completion translation sees the same state
    /// regardless of when a document event arrived.
    pub fn observe_helix_message(&mut self, msg: &Message)
        ensures
            final(self)@ == (TranslatorView {
                versions: observed(old(self)@.versions, msg@),
                ..old(self)@
            }),
            old(self)@.wf() ==> final(self)@.wf(),
    {
        let method = match msg.method() {
            Some(method) => method,
            None => return,
        };
        proof {
            reveal_strlit("textDocument/didOpen");
            reveal_strlit("textDocument/didChange");
            reveal_strlit("textDocument/didClose");
            assert("textDocument/didOpen"@.len() == 20 && "textDocument/didClose"@.len() == 21);
            assert("textDocument/didChange"@.len() == 22);
        }
        let document = member_of(msg.params.as_ref(), "textDocument");
        if same_text(method, "textDocument/didOpen") || same_text(method, "textDocument/didChange") {
            match document {
                Some(document) => self.track_document_version(document),
                None => {},
            }
        } else if same_text(method, "textDocument/didClose") {
            match str_of(member_of(document, "uri")) {
                Some(uri) => {
                    self.document_versions.remove(uri);
                },
                None => {},
            }
        }
    }

    fn track_document_version(&mut self, document: &JsonValue)
        ensures
            final(self)@ == (TranslatorView {
                versions: match (
                    json::text_of(document@.get("uri"@)),
                    json::member(Some(document@), "version"@),
                ) {
                    (Some(uri), Some(version)) => match version.as_i64() {
                        Some(version) => old(self)@.versions.insert(uri, version),
                        None => old(self)@.versions,
                    },
                    _ => old(self)@.versions,
                },
                ..old(self)@
            }),
    {
        let uri = match str_of(document.get("uri")) {
            Some(uri) => uri,
            None => return,
        };
        let version: i64 = match document.get("version") {
            Some(version) => match version.as_i64() {
                Some(version) => version,
                None => return,
            },
            None => return,
        };
        self.document_versions.insert(uri.to_owned(), version);
    }

    fn lookup_document_version(&self, uri: &str) -> (r: Option<i64>)
        ensures
            match r {
                Some(version) => self@.versions.contains_key(uri@) && self@.versions[uri@]
                    == version,
                None => !self@.versions.contains_key(uri@),
            },
    {
        match self.document_versions.get(uri) {
            Some(version) => Some(*version),
            None => None,
        }
    }

    /// Whether another completion request can be given an id.
    pub fn has_free_id(&self) -> (r: bool)
        ensures
            r == (self@.next_id < u64::MAX),
    {
        self.next_id < u64::MAX
    }

    /// Rewrite a `textDocument/completion` request from Helix into a
    /// `textDocument/inlineCompletion` request for the language server.
    ///
    /// Records the proxy↔Helix id mapping so the response can be un-mapped.
    pub fn translate_request(&mut self, msg: Message) -> (r: Message)
        requires
            old(self)@.next_id < u64::MAX,
        ensures
            final(self)@ == after_request(old(self)@, msg@),
            r@ == translated_request(old(self)@, msg@),
            old(self)@.wf() ==> final(self)@.wf(),
    {
        broadcast use vstd::std_specs::hash::group_hash_axioms;

        let Message { id, params, .. } = msg;
        let helix_id = match id {
            Some(id) => id,
            None => JsonValue::Null,
        };
        let params = self.build_inline_completion_params(params);
        self.next_id = self.next_id + 1;
        let id: u64 = self.next_id;
        self.pending.insert(id, helix_id);
        assert(self@.pending =~= old(self)@.pending.insert(id, id_or_null(msg@)));
        Message::request(id, "textDocument/inlineCompletion", params)
    }

    /// Build the upstream inline-completion params using the latest known
    /// document version for the request URI when available.
    fn build_inline_completion_params(&self, params: Option<JsonValue>) -> (r: JsonValue)
        ensures
            r@ == inline_params(
                params_or_empty(json::opt_view(params)),
                tracked_version(self@.versions, params_or_empty(json::opt_view(params))),
            ),
    {
        let params = match params {
            Some(params) => params,
            None => JsonValue::Object(Object::new()),
        };
        let document = params.get("textDocument");
        let tracked_version: Option<i64> = match str_of(member_of(document, "uri")) {
            Some(uri) => self.lookup_document_version(uri),
            None => None,
        };
        build_inline_completion_params(params, tracked_version)
    }

    /// Inspect a response arriving from the language server.
    ///
    /// If its `id` matches a pending proxied completion, reconstructs a
    /// standard `textDocument/completion` response and returns it.
    /// Otherwise returns the message unchanged.
    pub fn try_translate_response(&mut self, msg: Message) -> (r: Message)
        ensures
            final(self)@ == after_response(old(self)@, msg@),
            r@ == translated_response(old(self)@, msg@),
            old(self)@.wf() ==> final(self)@.wf(),
    {
        broadcast use vstd::std_specs::hash::group_hash_axioms;

        let proxy_id: u64 = match &msg.id {
            Some(id) => match id.as_u64() {
                Some(n) => n,
                None => return msg,
            },
            None => return msg,
        };
        let removed = self.pending.remove(&proxy_id);
        assert(self@.pending =~= old(self)@.pending.remove(proxy_id));
        let helix_id = match removed {
            Some(helix_id) => helix_id,
            None => {
                assert(self@.pending =~= old(self)@.pending);
                return msg;
            },
        };
        let Message { result, error, .. } = msg;
        // Re-attach the original Helix id.
        match error {
            Some(error) => Message {
                jsonrpc: "2.0".to_owned(),
                id: Some(helix_id),
                method: None,
                params: None,
                result: None,
                error: Some(error),
            },
            None => {
                let items = build_completion_items(result.as_ref());
                let list = Object::new().with("isIncomplete", JsonValue::Bool(false)).with(
                    "items",
                    JsonValue::Array(items),
                );
                Message::success(helix_id, JsonValue::Object(list))
            },
        }
    }

    /// Rewrite a `$/cancelRequest` notification from Helix.
    ///
    /// If the cancelled id belongs to a pending proxied completion, remaps it
    /// to the proxy id so the language server can match it.  Otherwise returns
    /// the message unchanged.  Where Helix used one id for several pending
    /// completions, any one of them is named.
    pub fn try_remap_cancel(&self, msg: Message) -> (r: Message)
        ensures
            remapped_cancel(self@, msg@, r@),
    {
        let proxy_id: u64 = match member_of(msg.params.as_ref(), "id") {
            Some(helix_id) => match self.pending_id(helix_id) {
                Some(proxy_id) => proxy_id,
                None => return msg,
            },
            None => return msg,
        };
        let Message { jsonrpc, id, method, params, result, error } = msg;
        let params = match params {
            Some(JsonValue::Object(members)) => Some(
                JsonValue::Object(members.with("id", JsonValue::unsigned(proxy_id))),
            ),
            other => other,
        };
        let r = Message { jsonrpc, id, method, params, result, error };
        assert(r@ == with_cancelled_id(msg@, proxy_id));
        r
    }

    /// The proxy id of a pending completion that Helix knows as `helix_id`.
    fn pending_id(&self, helix_id: &JsonValue) -> (r: Option<u64>)
        ensures
            match r {
                Some(id) => stands_for(self@, id, helix_id@),
                None => forall|id: u64| !#[trigger] stands_for(self@, id, helix_id@),
            },
    {
        broadcast use vstd::std_specs::hash::group_hash_axioms;

        for (id, value) in it: self.pending.iter()
            invariant
                forall|j: int|
                    0 <= j < it.index() ==> !json::json_eq(
                        (#[trigger] it.seq()[j]).1@,
                        helix_id@,
                    ),
        {
            if value.same(helix_id) {
                return Some(*id);
            }
        }
        None
    }

    /// Returns `true` if the message is a response to a pending proxied
    /// completion request.  Used by the proxy to decide routing.
    pub fn is_pending_response(&self, msg: &Message) -> (r: bool)
        ensures
            r == (msg@.kind() == MessageKind::Response && names_pending(self@, msg@)),
    {
        broadcast use vstd::std_specs::hash::group_hash_axioms;

        if !msg.is_response() {
            return false;
        }
        match &msg.id {
            Some(id) => match id.as_u64() {
                Some(n) => self.pending.contains_key(&n),
                None => false,
            },
            None => false,
        }
    }
}

// ── Request helpers ─────────────────────────────────────────────────────────

/// Build `textDocument/inlineCompletion` params from a `textDocument/completion`
/// params object.
pub fn build_inline_completion_params(params: JsonValue, tracked_version: Option<i64>) -> (r:
    JsonValue)
    ensures
        r@ == inline_params(params@, tracked_version),
{
    let members = match params {
        JsonValue::Object(members) => members,
        other => return other,
    };
    let members = match (tracked_version, members.get("textDocument")) {
        (Some(version), Some(JsonValue::Object(document))) => {
            let document = document.clone().with_default("version", JsonValue::signed(version));
            members.with("textDocument", JsonValue::Object(document))
        },
        _ => members,
    };
    // Copilot requires this field.
    let formatting = Object::new().with("insertSpaces", JsonValue::Bool(true)).with(
        "tabSize",
        JsonValue::unsigned(2),
    );
    JsonValue::Object(members.with_default("formattingOptions", JsonValue::Object(formatting)))
}

// ── Response helpers ────────────────────────────────────────────────────────

/// Convert `InlineCompletionItem`s to standard `CompletionItem`s.
pub fn build_completion_items(result: Option<&JsonValue>) -> (r: Vec<JsonValue>)
    ensures
        json::values_view(r@) == completion_items(json::ref_view(result)),
{
    let mut built: Vec<JsonValue> = Vec::new();
    proof {
        json::lemma_values_view(built@);
    }
    let items = match member_of(result, "items") {
        Some(items) => match items.as_array() {
            Some(items) => items,
            None => {
                assert(json::values_view(built@) =~= Seq::empty());
                return built;
            },
        },
        None => {
            assert(json::values_view(built@) =~= Seq::empty());
            return built;
        },
    };
    let mut i: usize = 0;
    while i < items.len()
        invariant
            i <= items.len(),
            built.len() == i,
            forall|k: int|
                0 <= k < i ==> (#[trigger] built@[k])@ == completion_item(items@[k]@, k as nat),
        decreases items.len() - i,
    {
        built.push(inline_item_to_completion(&items[i], i));
        i = i + 1;
    }
    proof {
        json::lemma_values_view(built@);
        json::lemma_values_view(items@);
        assert(json::values_view(built@) =~= completion_items(json::ref_view(result)));
    }
    built
}

/// Convert the `InlineCompletionItem` at a place of a list.
pub fn inline_item_to_completion(item: &JsonValue, index: usize) -> (r: JsonValue)
    requires
        index < usize::MAX,
    ensures
        r@ == completion_item(item@, index as nat),
{
    let insert_text = match str_of(item.get("insertText")) {
        Some(text) => text,
        None => "",
    };
    proof {
        reveal_strlit("");
        assert(insert_text@ =~= crate::translator::insert_text(item@));
    }
    let label = first_line_truncated(insert_text, 80);
    let number = decimal_text((index + 1) as u64);
    let sort_text = pad_with_zeros(number.as_str(), 4);
    let range = match item.get("range") {
        Some(range) => range.clone(),
        None => origin_range(),
    };
    let edit = Object::new().with("range", range).with("newText", JsonValue::text(insert_text));
    let completion = Object::new().with("label", JsonValue::String(label)).with(
        "kind",
        // Text
        JsonValue::unsigned(1),
    ).with(
        "insertTextFormat",
        // PlainText
        JsonValue::unsigned(1),
    ).with("insertText", JsonValue::text(insert_text)).with("textEdit", JsonValue::Object(edit)).with(
        "sortText",
        JsonValue::String(sort_text),
    );
    // Pass through filterText if the language server provided it.
    let completion = match item.get("filterText") {
        Some(filter) => completion.with("filterText", filter.clone()),
        None => completion,
    };
    // Stash the Copilot acceptance command for future telemetry.
    match item.get("command") {
        Some(command) => {
            let data = Object::new().with("_copilot_command", command.clone());
            JsonValue::Object(completion.with("data", JsonValue::Object(data)))
        },
        None => JsonValue::Object(completion),
    }
}

/// A zero-width range at an unknown position.
fn origin_range() -> (r: JsonValue)
    ensures
        r@ == fallback_range(),
{
    let start = Object::new().with("line", JsonValue::unsigned(0)).with(
        "character",
        JsonValue::unsigned(0),
    );
    let end = start.clone();
    JsonValue::Object(
        Object::new().with("start", JsonValue::Object(start)).with("end", JsonValue::Object(end)),
    )
}

/// Returns the first non-empty line of `text`, capped at `max_chars` characters.
pub fn first_line_truncated(text: &str, max_chars: usize) -> (r: String)
    ensures
        r@ == label(text@, max_chars as nat),
{
    shorten(first_line(text), max_chars)
}

// ── Laws ────────────────────────────────────────────────────────────────────

/// What can happen to a translator.
pub enum Event {
    /// A message from Helix is observed.
    Observed(MessageView),
    /// A completion request from Helix is translated.
    Requested(MessageView),
    /// A message from the language server is translated.
    Answered(MessageView),
}

/// The state after an event.
pub open spec fn stepped(state: TranslatorView, event: Event) -> TranslatorView {
    match event {
        Event::Observed(msg) => TranslatorView { versions: observed(state.versions, msg), ..state },
        Event::Requested(msg) => after_request(state, msg),
        Event::Answered(msg) => after_response(state, msg),
    }
}

/// The number of requests among events.
pub open spec fn requests(events: Seq<Event>) -> nat
    decreases events.len(),
{
    if events.len() == 0 {
        0
    } else {
        requests(events.drop_last()) + if events.last() is Requested {
            1nat
        } else {
            0
        }
    }
}

/// The state after events, the first of them first.
pub open spec fn ran(state: TranslatorView, events: Seq<Event>) -> TranslatorView
    decreases events.len(),
{
    if events.len() == 0 {
        state
    } else {
        stepped(ran(state, events.drop_last()), events.last())
    }
}

/// As long as ids are left, any run of events keeps every pending id among those
/// given out, and gives out one id for each request.
pub proof fn law_runs_keep_ids(state: TranslatorView, events: Seq<Event>)
    requires
        state.wf(),
        state.next_id + requests(events) <= u64::MAX,
    ensures
        ran(state, events).wf(),
        ran(state, events).next_id == state.next_id + requests(events),
    decreases events.len(),
{
    if events.len() > 0 {
        law_runs_keep_ids(state, events.drop_last());
    }
}

/// No two requests get the same id, whatever happens between them.
pub proof fn law_request_ids_are_unique(
    state: TranslatorView,
    first: MessageView,
    between: Seq<Event>,
    second: MessageView,
)
    requires
        state.wf(),
        state.next_id + requests(between) + 2 <= u64::MAX,
    ensures
        translated_request(ran(after_request(state, first), between), second).id
            != translated_request(state, first).id,
        !names_pending(state, translated_request(state, first)),
{
    law_runs_keep_ids(after_request(state, first), between);
}

/// A completion stays pending, under the id that Helix chose, until a message of the
/// language server names it.
pub proof fn law_pending_until_answered(state: TranslatorView, events: Seq<Event>, id: u64)
    requires
        state.wf(),
        state.next_id + requests(events) <= u64::MAX,
        state.pending.contains_key(id),
        forall|i: int|
            0 <= i < events.len() && (#[trigger] events[i]) is Answered ==> proxy_id(
                events[i]->Answered_0,
            ) != Some(id),
    ensures
        ran(state, events).pending.contains_key(id),
        ran(state, events).pending[id] == state.pending[id],
    decreases events.len(),
{
    if events.len() > 0 {
        let shorter = events.drop_last();
        assert forall|i: int|
            0 <= i < shorter.len() && (#[trigger] shorter[i]) is Answered implies proxy_id(
            shorter[i]->Answered_0,
        ) != Some(id) by {
            assert(shorter[i] == events[i]);
        }
        law_runs_keep_ids(state, shorter);
        law_pending_until_answered(state, shorter, id);
    }
}

/// Helix gets the answer to a completion request under the id that it chose, and the
/// translator then forgets the request: whatever happens in between, the reply to a
/// translated request carries the id of the request, with the server's error or with
/// the list of its items.
pub proof fn law_answer_has_helix_id(
    state: TranslatorView,
    request: MessageView,
    between: Seq<Event>,
    reply: MessageView,
)
    requires
        state.wf(),
        state.next_id + requests(between) + 1 <= u64::MAX,
        reply.id == translated_request(state, request).id,
        forall|i: int|
            0 <= i < between.len() && (#[trigger] between[i]) is Answered ==> proxy_id(
                between[i]->Answered_0,
            ) != proxy_id(reply),
    ensures
        ({
            let now = ran(after_request(state, request), between);
            let answer = translated_response(now, reply);
            &&& answer.id == Some(id_or_null(request))
            &&& answer.kind() == MessageKind::Response
            &&& answer.error == reply.error
            &&& reply.error is None ==> answer.result == Some(completion_list(reply.result))
            &&& !names_pending(after_response(now, reply), reply)
        }),
{
    let id = (state.next_id + 1) as u64;
    assert(proxy_id(reply) == Some(id));
    law_pending_until_answered(after_request(state, request), between, id);
}

/// The successful reply to a translated request is turned, once, into the answer to the
/// completion: a response under the id that Helix chose, with the list of the items and
/// nothing else.  A second such reply passes unchanged in every field.  The other pending
/// completions keep their ids throughout.
pub proof fn law_success_is_answered_once(
    state: TranslatorView,
    request: MessageView,
    helix_id: Json,
    result: Json,
)
    requires
        state.next_id < u64::MAX,
        request.id == Some(helix_id),
    ensures
        ({
            let id = (state.next_id + 1) as u64;
            let reply = jsonrpc::success_view(translated_request(state, request).id->0, result);
            let asked = after_request(state, request);
            let answered = after_response(asked, reply);
            &&& translated_request(state, request).id == Some(json::int_json(id as int))
            &&& translated_response(asked, reply) == jsonrpc::success_view(
                helix_id,
                completion_list(Some(result)),
            )
            &&& translated_response(answered, reply) == reply
            &&& after_response(answered, reply) == answered
            &&& forall|other: u64|
                other != id ==> answered.pending.contains_key(other)
                    == #[trigger] state.pending.contains_key(other)
            &&& forall|other: u64|
                other != id && state.pending.contains_key(other) ==> #[trigger]
                answered.pending[other] == state.pending[other]
            &&& state.wf() ==> answered.pending == state.pending
        }),
{
    let id = (state.next_id + 1) as u64;
    let reply = jsonrpc::success_view(translated_request(state, request).id->0, result);
    assert(proxy_id(reply) == Some(id));
    if state.wf() {
        assert(!state.pending.contains_key(id));
        assert(state.pending.insert(id, helix_id).remove(id) =~= state.pending);
    }
}

/// A request and its reply leave no trace but the id that was used.
pub proof fn law_request_and_reply_cancel_out(
    state: TranslatorView,
    request: MessageView,
    reply: MessageView,
)
    requires
        state.wf(),
        state.next_id < u64::MAX,
        reply.id == translated_request(state, request).id,
    ensures
        after_response(after_request(state, request), reply) == (TranslatorView {
            next_id: (state.next_id + 1) as u64,
            ..state
        }),
{
    let id = (state.next_id + 1) as u64;
    assert(proxy_id(reply) == Some(id));
    assert(!state.pending.contains_key(id));
    assert(state.pending.insert(id, id_or_null(request)).remove(id) =~= state.pending);
}

/// A message that names no pending completion passes unchanged, and changes nothing.
pub proof fn law_other_messages_unchanged(state: TranslatorView, msg: MessageView)
    requires
        !names_pending(state, msg),
    ensures
        translated_response(state, msg) == msg,
        after_response(state, msg) == state,
{
}

/// Answering one completion leaves the other pending ones as they are.
pub proof fn law_answers_are_isolated(state: TranslatorView, msg: MessageView, id: u64)
    requires
        proxy_id(msg) != Some(id),
    ensures
        after_response(state, msg).pending.contains_key(id) == state.pending.contains_key(id),
        state.pending.contains_key(id) ==> after_response(state, msg).pending[id]
            == state.pending[id],
{
}

/// A cancellation of the only pending completion with some id is sent on under the
/// proxy id of that completion; only the `id` of its params changes.
pub proof fn law_cancel_names_proxy_id(
    state: TranslatorView,
    msg: MessageView,
    id: u64,
    helix_id: Json,
    r: MessageView,
)
    requires
        json::member(msg.params, "id"@) == Some(helix_id),
        stands_for(state, id, helix_id),
        forall|other: u64| #[trigger] stands_for(state, other, helix_id) ==> other == id,
        remapped_cancel(state, msg, r),
    ensures
        json::member(r.params, "id"@) == Some(json::int_json(id as int)),
        r == (MessageView { params: r.params, ..msg }),
        forall|key: Seq<char>|
            key != "id"@ ==> json::member(r.params, key) == #[trigger] json::member(
                msg.params,
                key,
            ),
{
}

/// A cancellation of anything else passes unchanged.
pub proof fn law_other_cancels_unchanged(state: TranslatorView, msg: MessageView, r: MessageView)
    requires
        remapped_cancel(state, msg, r),
        json::member(msg.params, "id"@) is Some ==> forall|id: u64|
            !#[trigger] stands_for(state, id, json::member(msg.params, "id"@)->0),
    ensures
        r == msg,
{
}

/// After a completion request whose id no pending completion has, a cancellation of
/// that id names the translated request.
pub proof fn law_cancel_reaches_request(
    state: TranslatorView,
    request: MessageView,
    cancel: MessageView,
    r: MessageView,
)
    requires
        state.wf(),
        state.next_id < u64::MAX,
        json::member(cancel.params, "id"@) == Some(id_or_null(request)),
        forall|id: u64| !#[trigger] stands_for(state, id, id_or_null(request)),
        remapped_cancel(after_request(state, request), cancel, r),
    ensures
        json::member(r.params, "id"@) == translated_request(state, request).id,
{
    let id = (state.next_id + 1) as u64;
    let helix_id = id_or_null(request);
    let now = after_request(state, request);
    json::law_json_eq_reflexive(helix_id);
    assert(stands_for(now, id, helix_id));
    assert forall|other: u64| #[trigger] stands_for(now, other, helix_id) implies other == id by {
        if other != id {
            assert(stands_for(state, other, helix_id));
        }
    }
    law_cancel_names_proxy_id(now, cancel, id, helix_id, r);
}

/// A completion request carries the version that Helix last told for its document,
/// unless it brings a version itself.
pub proof fn law_request_carries_version(
    state: TranslatorView,
    notice: MessageView,
    request: MessageView,
)
    requires
        notice.method == Some("textDocument/didOpen"@) || notice.method == Some(
            "textDocument/didChange"@,
        ),
        document_uri(notice.params) is Some,
        document_version(notice.params) is Some,
        document_uri(request.params) == document_uri(notice.params),
    ensures
        ({
            let now = TranslatorView { versions: observed(state.versions, notice), ..state };
            json::member(document(translated_request(now, request).params), "version"@) == match
                json::member(document(request.params), "version"@) {
                Some(version) => Some(version),
                None => Some(json::int_json(document_version(notice.params)->0 as int)),
            }
        }),
{
    lemma_param_keys();
}

/// After a document is closed, a completion request for it gets no version.
pub proof fn law_closed_document_has_no_version(
    state: TranslatorView,
    notice: MessageView,
    request: MessageView,
)
    requires
        notice.method == Some("textDocument/didClose"@),
        document_uri(notice.params) is Some,
        document_uri(request.params) == document_uri(notice.params),
    ensures
        ({
            let now = TranslatorView { versions: observed(state.versions, notice), ..state };
            document(translated_request(now, request).params) == document(request.params)
        }),
{
    lemma_param_keys();
    lemma_notice_methods();
}

/// The document versions after the messages from Helix among events.
pub open spec fn versions_after(versions: Map<Seq<char>, i64>, events: Seq<Event>) -> Map<
    Seq<char>,
    i64,
>
    decreases events.len(),
{
    if events.len() == 0 {
        versions
    } else {
        let before = versions_after(versions, events.drop_last());
        match events.last() {
            Event::Observed(msg) => observed(before, msg),
            _ => before,
        }
    }
}

/// Document versions depend on the messages from Helix and their order alone, not on
/// when completions are requested or answered in between.
pub proof fn law_versions_follow_helix_messages(state: TranslatorView, events: Seq<Event>)
    ensures
        ran(state, events).versions == versions_after(state.versions, events),
    decreases events.len(),
{
    if events.len() > 0 {
        law_versions_follow_helix_messages(state, events.drop_last());
    }
}

/// A message about one document leaves the versions of the others as they are.
pub proof fn law_versions_are_isolated(
    versions: Map<Seq<char>, i64>,
    msg: MessageView,
    uri: Seq<char>,
)
    requires
        document_uri(msg.params) != Some(uri),
    ensures
        observed(versions, msg).contains_key(uri) == versions.contains_key(uri),
        versions.contains_key(uri) ==> observed(versions, msg)[uri] == versions[uri],
{
}

/// An inline completion request has formatting options, those of the completion
/// params where they bring any.  Every other member stays as it is, but that the
/// document can gain a version.
pub proof fn law_params_are_kept(members: Map<Seq<char>, Json>, version: Option<i64>)
    ensures
        inline_params(Json::Object(members), version).get("formattingOptions"@) == if
            members.contains_key("formattingOptions"@) {
            Some(members["formattingOptions"@])
        } else {
            Some(default_formatting())
        },
        forall|key: Seq<char>|
            key != "textDocument"@ && key != "formattingOptions"@ ==> #[trigger] inline_params(
                Json::Object(members),
                version,
            ).get(key) == Json::Object(members).get(key),
        forall|key: Seq<char>|
            key != "version"@ || json::member(document(Some(Json::Object(members))), key) is Some
                ==> #[trigger] json::member(
                document(Some(inline_params(Json::Object(members), version))),
                key,
            ) == json::member(document(Some(Json::Object(members))), key),
{
    lemma_param_keys();
}

/// The items of an answer stand in the order of the server's items, one for one, and
/// each inserts the text of its item.
pub proof fn law_items_one_to_one(items: Seq<Json>, result: Json)
    requires
        result.get("items"@) == Some(Json::Array(items)),
    ensures
        completion_items(Some(result)).len() == items.len(),
        forall|i: int|
            0 <= i < items.len() ==> (#[trigger] completion_items(Some(result))[i]).get(
                "insertText"@,
            ) == Some(Json::String(insert_text(items[i]))),
        forall|i: int|
            0 <= i < items.len() ==> (#[trigger] completion_items(Some(result))[i]).get(
                "sortText"@,
            ) == Some(Json::String(sort_text(i as nat))),
{
    lemma_item_keys();
}

/// Sorting by their sort texts keeps the items in order, up to the 9999th item.
pub proof fn law_sort_texts_keep_order(i: nat, j: nat)
    requires
        i < j < 9999,
    ensures
        text::sorts_before(sort_text(i), sort_text(j)),
{
    text::lemma_four_digit_order(i + 1, j + 1);
}

/// A label has at most `max_chars` characters, and an ellipsis where text was cut.
pub proof fn law_label_is_short(text: Seq<char>, max_chars: nat)
    ensures
        label(text, max_chars).len() <= max_chars + 1,
        label(text, max_chars) != text::headline(text) ==> label(text, max_chars).last() == '…',
{
    reveal_strlit("…");
}

proof fn lemma_param_keys()
    ensures
        "textDocument"@ != "formattingOptions"@,
        "uri"@ != "version"@,
{
    reveal_strlit("textDocument");
    reveal_strlit("formattingOptions");
    reveal_strlit("uri");
    reveal_strlit("version");
    assert("textDocument"@.len() == 12 && "formattingOptions"@.len() == 17);
    assert("uri"@.len() == 3 && "version"@.len() == 7);
}

proof fn lemma_notice_methods()
    ensures
        "textDocument/didClose"@ != "textDocument/didOpen"@,
        "textDocument/didClose"@ != "textDocument/didChange"@,
{
    reveal_strlit("textDocument/didOpen");
    reveal_strlit("textDocument/didChange");
    reveal_strlit("textDocument/didClose");
    assert("textDocument/didOpen"@.len() == 20 && "textDocument/didClose"@.len() == 21);
    assert("textDocument/didChange"@.len() == 22);
}

proof fn lemma_item_keys()
    ensures
        "insertText"@ != "textEdit"@,
        "insertText"@ != "sortText"@,
        "insertText"@ != "filterText"@,
        "insertText"@ != "data"@,
        "sortText"@ != "filterText"@,
        "sortText"@ != "data"@,
{
    reveal_strlit("insertText");
    reveal_strlit("textEdit");
    reveal_strlit("sortText");
    reveal_strlit("filterText");
    reveal_strlit("data");
    assert("insertText"@.len() == 10 && "textEdit"@.len() == 8 && "sortText"@.len() == 8);
    assert("filterText"@.len() == 10 && "data"@.len() == 4);
    assert("insertText"@[0] == 'i' && "filterText"@[0] == 'f');
}

/// A new translator has nothing pending, knows no document, and has given out no id.
pub proof fn law_nothing_at_first(id: u64, uri: Seq<char>)
    ensures
        !fresh().pending.contains_key(id),
        !fresh().versions.contains_key(uri),
        fresh().next_id == 0,
{
}

/// Opening and changing a document set its version to the one that is told, and closing it
/// forgets the version.
pub proof fn law_document_messages(
    versions: Map<Seq<char>, i64>,
    msg: MessageView,
    members: Map<Seq<char>, Json>,
    told: Map<Seq<char>, Json>,
    uri: Seq<char>,
    version: i64,
)
    requires
        msg.params == Some(Json::Object(members)),
        jsonrpc::given(members, "textDocument"@) == Some(Json::Object(told)),
        jsonrpc::given(told, "uri"@) == Some(Json::String(uri)),
    ensures
        (msg.method == Some("textDocument/didOpen"@) || msg.method == Some(
            "textDocument/didChange"@,
        )) && jsonrpc::given(told, "version"@) == Some(Json::Number(json::Num::Int(version as int)))
            ==> observed(versions, msg) == versions.insert(uri, version),
        msg.method == Some("textDocument/didClose"@) ==> observed(versions, msg) == versions.remove(
            uri,
        ),
{
    lemma_notice_methods();
}

/// Messages of other methods, about no document, or that tell no version, change no version.
pub proof fn law_other_messages_keep_versions(versions: Map<Seq<char>, i64>, msg: MessageView)
    ensures
        msg.method != Some("textDocument/didOpen"@) && msg.method != Some("textDocument/didChange"@)
            && msg.method != Some("textDocument/didClose"@) ==> observed(versions, msg) == versions,
        json::text_of(json::member(json::member(msg.params, "textDocument"@), "uri"@)) is None
            ==> observed(versions, msg) == versions,
        msg.method != Some("textDocument/didClose"@) && (json::member(
            json::member(msg.params, "textDocument"@),
            "version"@,
        ) matches Some(version) ==> version.as_i64() is None) ==> observed(versions, msg)
            == versions,
{
}

/// A translated request is a request of its own: its method asks for inline completion, and
/// its id is the next one.
pub proof fn law_request_envelope(state: TranslatorView, msg: MessageView)
    ensures
        translated_request(state, msg).jsonrpc == "2.0"@,
        translated_request(state, msg).id == Some(
            Json::Number(json::Num::Int(state.next_id + 1)),
        ),
        translated_request(state, msg).method == Some("textDocument/inlineCompletion"@),
        translated_request(state, msg).params is Some,
        translated_request(state, msg).result is None,
        translated_request(state, msg).error is None,
{
}

/// The language server gets the params that Helix sent: every member stays, with its value.
/// Formatting options are added where there are none, and a version is added to a document
/// that has none but whose version is known.
pub proof fn law_request_params(
    state: TranslatorView,
    msg: MessageView,
    sent: Map<Seq<char>, Json>,
)
    requires
        msg.params == Some(Json::Object(sent)),
    ensures
        translated_request(state, msg).params matches Some(Json::Object(got)) && {
            &&& forall|key: Seq<char>|
                key != "textDocument"@ && key != "formattingOptions"@ ==> #[trigger] jsonrpc::given(
                    got,
                    key,
                ) == jsonrpc::given(sent, key)
            &&& sent.contains_key("formattingOptions"@) ==> jsonrpc::given(
                got,
                "formattingOptions"@,
            ) == Some(sent["formattingOptions"@])
            &&& !sent.contains_key("formattingOptions"@) ==> (jsonrpc::given(
                got,
                "formattingOptions"@,
            ) matches Some(options) && is_default_formatting(options))
            &&& !sent.contains_key("textDocument"@) ==> !got.contains_key("textDocument"@)
            &&& sent.contains_key("textDocument"@) && !(sent["textDocument"@] is Object)
                ==> jsonrpc::given(got, "textDocument"@) == Some(sent["textDocument"@])
        },
        jsonrpc::given(sent, "textDocument"@) matches Some(Json::Object(document)) ==> jsonrpc::given(
            translated_request(state, msg).params->0->Object_0,
            "textDocument"@,
        ) matches Some(Json::Object(got)) && {
            &&& forall|key: Seq<char>|
                key != "version"@ ==> #[trigger] jsonrpc::given(got, key) == jsonrpc::given(
                    document,
                    key,
                )
            &&& document.contains_key("version"@) ==> jsonrpc::given(got, "version"@) == Some(
                document["version"@],
            )
            &&& !document.contains_key("version"@) ==> jsonrpc::given(got, "version"@) == match
                jsonrpc::given(document, "uri"@) {
                Some(Json::String(uri)) => if state.versions.contains_key(uri) {
                    Some(Json::Number(json::Num::Int(state.versions[uri] as int)))
                } else {
                    None
                },
                _ => None,
            }
        },
{
    lemma_param_keys();
    let params = Json::Object(sent);
    let version = tracked_version(state.versions, params);
    assert(translated_request(state, msg).params == Some(inline_params(params, version)));
    match sent.contains_key("formattingOptions"@) {
        true => {},
        false => {
            lemma_default_formatting();
        },
    }
}

/// Whether formatting options say to insert spaces, two to a tab, and nothing else.
pub open spec fn is_default_formatting(options: Json) -> bool {
    options matches Json::Object(members) && {
        &&& jsonrpc::given(members, "insertSpaces"@) == Some(Json::Bool(true))
        &&& jsonrpc::given(members, "tabSize"@) == Some(Json::Number(json::Num::Int(2)))
        &&& forall|key: Seq<char>| #[trigger]
            members.contains_key(key) ==> key == "insertSpaces"@ || key == "tabSize"@
    }
}

proof fn lemma_default_formatting()
    ensures
        is_default_formatting(default_formatting()),
{
    reveal_strlit("insertSpaces");
    reveal_strlit("tabSize");
    assert("insertSpaces"@.len() == 12 && "tabSize"@.len() == 7);
}

/// A request without params asks with formatting options alone; params that are no object
/// are sent as they are.
pub proof fn law_request_without_object(state: TranslatorView, msg: MessageView)
    ensures
        msg.params is None ==> (translated_request(state, msg).params matches Some(
            Json::Object(got),
        ) && {
            &&& got.contains_key("formattingOptions"@)
            &&& is_default_formatting(got["formattingOptions"@])
            &&& forall|key: Seq<char>| #[trigger] got.contains_key(key) ==> key
                == "formattingOptions"@
        }),
        msg.params matches Some(params) && !(params is Object) ==> translated_request(
            state,
            msg,
        ).params == msg.params,
{
    lemma_default_formatting();
}

/// A request takes the next id, under which the id that Helix chose is remembered, null when
/// there is none; everything else is as before.
pub proof fn law_request_is_remembered(state: TranslatorView, msg: MessageView, other: u64)
    requires
        state.next_id < u64::MAX,
    ensures
        ({
            let id = (state.next_id + 1) as u64;
            let now = after_request(state, msg);
            &&& now.next_id == id
            &&& now.versions == state.versions
            &&& now.pending.contains_key(id)
            &&& msg.id matches Some(helix_id) ==> now.pending[id] == helix_id
            &&& msg.id is None ==> now.pending[id] == Json::Null
            &&& other != id ==> now.pending.contains_key(other) == state.pending.contains_key(other)
            &&& other != id && state.pending.contains_key(other) ==> now.pending[other]
                == state.pending[other]
        }),
{
}

/// Whether `text` is what an inline completion item inserts: its `insertText`, or nothing
/// where it has no such text.
pub open spec fn inserts(item: Json, text: Seq<char>) -> bool {
    ||| item matches Json::Object(members) && jsonrpc::given(members, "insertText"@) == Some(
        Json::String(text),
    )
    ||| text.len() == 0 && json::text_of(item.get("insertText"@)) is None
}

/// Accepting a completion inserts exactly what the language server suggests, whatever its
/// length, at the range that the server gives: the edit and the insert text are the text
/// of the server's item.
pub proof fn law_item_inserts_suggestion(item: Json, index: nat, text: Seq<char>)
    requires
        inserts(item, text),
    ensures
        completion_item(item, index) matches Json::Object(shown) && {
            &&& jsonrpc::given(shown, "insertText"@) == Some(Json::String(text))
            &&& jsonrpc::given(shown, "textEdit"@) matches Some(Json::Object(edit)) && {
                &&& jsonrpc::given(edit, "newText"@) == Some(Json::String(text))
                &&& item.get("range"@) matches Some(range) ==> jsonrpc::given(edit, "range"@)
                    == Some(range)
                &&& item.get("range"@) is None ==> (jsonrpc::given(edit, "range"@) matches Some(
                    range,
                ) && is_origin_range(range))
                &&& forall|key: Seq<char>| #[trigger]
                    edit.contains_key(key) ==> key == "range"@ || key == "newText"@
            }
        },
{
    lemma_item_keys();
    lemma_more_item_keys();
    lemma_edit_keys();
    lemma_inserts(item, text);
    lemma_origin_range();
}

proof fn lemma_inserts(item: Json, text: Seq<char>)
    requires
        inserts(item, text),
    ensures
        insert_text(item) == text,
{
    if text.len() == 0 {
        assert(text =~= Seq::empty());
    }
}

/// Whether a range starts and ends at the start of a document.
pub open spec fn is_origin_range(range: Json) -> bool {
    range matches Json::Object(members) && {
        &&& jsonrpc::given(members, "start"@) matches Some(start) && is_origin(start)
        &&& jsonrpc::given(members, "end"@) matches Some(end) && is_origin(end)
        &&& forall|key: Seq<char>| #[trigger]
            members.contains_key(key) ==> key == "start"@ || key == "end"@
    }
}

/// Whether a position is the start of a document.
pub open spec fn is_origin(position: Json) -> bool {
    position matches Json::Object(members) && {
        &&& jsonrpc::given(members, "line"@) == Some(Json::Number(json::Num::Int(0)))
        &&& jsonrpc::given(members, "character"@) == Some(Json::Number(json::Num::Int(0)))
        &&& forall|key: Seq<char>| #[trigger]
            members.contains_key(key) ==> key == "line"@ || key == "character"@
    }
}

proof fn lemma_origin_range()
    ensures
        is_origin_range(fallback_range()),
{
    reveal_strlit("line");
    reveal_strlit("character");
    reveal_strlit("start");
    reveal_strlit("end");
    assert("line"@.len() == 4 && "character"@.len() == 9 && "start"@.len() == 5);
    assert("end"@.len() == 3);
}

proof fn lemma_edit_keys()
    ensures
        "range"@ != "newText"@,
{
    reveal_strlit("range");
    reveal_strlit("newText");
    assert("range"@.len() == 5 && "newText"@.len() == 7);
}

/// An item is shown under its label, as plain text, at its place, with the filter text and
/// the command of the server's item where it has them; it has no other members.
pub proof fn law_item_members(item: Json, index: nat, text: Seq<char>)
    requires
        inserts(item, text),
    ensures
        completion_item(item, index) matches Json::Object(shown) && {
            &&& jsonrpc::given(shown, "label"@) == Some(Json::String(label(text, 80)))
            &&& jsonrpc::given(shown, "kind"@) == Some(Json::Number(json::Num::Int(1)))
            &&& jsonrpc::given(shown, "insertTextFormat"@) == Some(
                Json::Number(json::Num::Int(1)),
            )
            &&& jsonrpc::given(shown, "sortText"@) == Some(Json::String(sort_text(index)))
            &&& jsonrpc::given(shown, "filterText"@) == item.get("filterText"@)
            &&& shown.contains_key("data"@) <==> item.get("command"@) is Some
            &&& item.get("command"@) matches Some(command) ==> shown["data"@] matches Json::Object(
                data,
            ) && jsonrpc::given(data, "_copilot_command"@) == Some(command) && forall|
                key: Seq<char>,
            | #[trigger] data.contains_key(key) ==> key == "_copilot_command"@
            &&& forall|key: Seq<char>| #[trigger]
                shown.contains_key(key) ==> key == "label"@ || key == "kind"@ || key
                    == "insertTextFormat"@ || key == "insertText"@ || key == "textEdit"@ || key
                    == "sortText"@ || key == "filterText"@ || key == "data"@
        },
{
    lemma_item_keys();
    lemma_more_item_keys();
    lemma_inserts(item, text);
}

proof fn lemma_more_item_keys()
    ensures
        "label"@ != "kind"@,
        "label"@ != "insertTextFormat"@,
        "label"@ != "insertText"@,
        "label"@ != "textEdit"@,
        "label"@ != "sortText"@,
        "label"@ != "filterText"@,
        "label"@ != "data"@,
        "kind"@ != "insertTextFormat"@,
        "kind"@ != "insertText"@,
        "kind"@ != "textEdit"@,
        "kind"@ != "sortText"@,
        "kind"@ != "filterText"@,
        "kind"@ != "data"@,
        "insertTextFormat"@ != "insertText"@,
        "insertTextFormat"@ != "textEdit"@,
        "insertTextFormat"@ != "sortText"@,
        "insertTextFormat"@ != "filterText"@,
        "insertTextFormat"@ != "data"@,
        "textEdit"@ != "sortText"@,
        "textEdit"@ != "filterText"@,
        "textEdit"@ != "data"@,
        "filterText"@ != "data"@,
{
    reveal_strlit("label");
    reveal_strlit("kind");
    reveal_strlit("insertTextFormat");
    reveal_strlit("insertText");
    reveal_strlit("textEdit");
    reveal_strlit("sortText");
    reveal_strlit("filterText");
    reveal_strlit("data");
    assert("label"@.len() == 5 && "kind"@.len() == 4 && "insertTextFormat"@.len() == 16);
    assert("insertText"@.len() == 10 && "textEdit"@.len() == 8 && "sortText"@.len() == 8);
    assert("filterText"@.len() == 10 && "data"@.len() == 4);
    assert("kind"@[0] == 'k' && "data"@[0] == 'd');
    assert("textEdit"@[0] == 't' && "sortText"@[0] == 's');
}

/// The label is the first line that is not blank, without its end; a line of more than
/// `max_chars` characters is cut there, and an ellipsis marks the cut.
pub proof fn law_label_is_first_line(
    blanks: Seq<char>,
    line: Seq<char>,
    rest: Seq<char>,
    max_chars: nat,
)
    requires
        blanks.len() > 0 ==> blanks[blanks.len() - 1] == '\n',
        forall|i: int| 0 <= i < blanks.len() ==> text::is_whitespace(#[trigger] blanks[i]),
        forall|i: int| 0 <= i < line.len() ==> #[trigger] line[i] != '\n',
        exists|i: int| 0 <= i < line.len() && !text::is_whitespace(#[trigger] line[i]),
        line[line.len() - 1] != '\r',
        rest.len() > 0 ==> rest[0] == '\n' || (rest.len() > 1 && rest[0] == '\r' && rest[1]
            == '\n'),
    ensures
        line.len() <= max_chars ==> label(blanks + line + rest, max_chars) == line,
        line.len() > max_chars ==> label(blanks + line + rest, max_chars) == line.take(
            max_chars as int,
        ).push('…'),
{
    let text = blanks + line + rest;
    if rest.len() == 0 {
        assert(text =~= blanks + line);
        text::law_headline_of_last_line(blanks, line);
    } else if rest[0] == '\n' {
        assert(text =~= blanks + line + seq!['\n'] + rest.skip(1));
        text::law_headline_of_lines(blanks, line, rest.skip(1));
    } else {
        let ended = line.push('\r');
        let i = choose|i: int| 0 <= i < line.len() && !text::is_whitespace(#[trigger] line[i]);
        assert(ended[i] == line[i]);
        assert forall|i: int| 0 <= i < ended.len() implies #[trigger] ended[i] != '\n' by {
            if i < line.len() {
                assert(ended[i] == line[i]);
            }
        }
        assert(text =~= blanks + ended + seq!['\n'] + rest.skip(2));
        text::law_headline_of_lines(blanks, ended, rest.skip(2));
        assert(ended.take(ended.len() - 1) =~= line);
    }
    text::law_shortened(line, max_chars);
    if line.len() > max_chars {
        assert(label(text, max_chars) =~= line.take(max_chars as int).push('…'));
    }
}

/// A sort text is the number of the item, counted from one, in four digits or as many as it
/// takes.
pub proof fn law_sort_text_is_the_number(index: nat)
    ensures
        sort_text(index).len() >= 4,
        forall|i: int|
            0 <= i < sort_text(index).len() ==> '0' <= #[trigger] sort_text(index)[i] <= '9',
        text::decimal(index + 1).len() <= 4 ==> sort_text(index).len() == 4 && sort_text(index).skip(
            4 - text::decimal(index + 1).len(),
        ) == text::decimal(index + 1),
        forall|i: int|
            0 <= i < 4 - text::decimal(index + 1).len() ==> #[trigger] sort_text(index)[i] == '0',
        text::decimal(index + 1).len() > 4 ==> sort_text(index) == text::decimal(index + 1),
{
    let digits = text::decimal(index + 1);
    let padded = sort_text(index);
    text::law_decimal_digits(index + 1);
    text::law_zero_padded(digits, 4);
    if digits.len() < 4 {
        assert forall|i: int| 0 <= i < padded.len() implies '0' <= #[trigger] padded[i] <= '9' by {
            if i >= 4 - digits.len() {
                assert(padded.skip(4 - digits.len())[i - (4 - digits.len())] == padded[i]);
            }
        }
    } else {
        assert(digits.skip(0) =~= digits);
    }
}

/// A list answers with one item for each item of the result, in their order, and says that
/// it is complete; a result without a list of items has none.
pub proof fn law_list_of_items(result: Option<Json>)
    ensures
        completion_list(result) matches Json::Object(list) && {
            &&& jsonrpc::given(list, "isIncomplete"@) == Some(Json::Bool(false))
            &&& jsonrpc::given(list, "items"@) matches Some(Json::Array(shown)) && {
                &&& shown == completion_items(result)
                &&& json::member(result, "items"@) matches Some(Json::Array(items)) ==> shown.len()
                    == items.len() && forall|i: int|
                    0 <= i < items.len() ==> #[trigger] shown[i] == completion_item(
                        items[i],
                        i as nat,
                    )
                &&& !(json::member(result, "items"@) matches Some(Json::Array(_))) ==> shown.len()
                    == 0
            }
            &&& forall|key: Seq<char>| #[trigger]
                list.contains_key(key) ==> key == "isIncomplete"@ || key == "items"@
        },
{
    reveal_strlit("isIncomplete");
    reveal_strlit("items");
    assert("isIncomplete"@.len() == 12 && "items"@.len() == 5);
}

/// A message names a pending completion when its id is the number of one.
pub proof fn law_pending_by_number(state: TranslatorView, msg: MessageView, id: u64)
    requires
        msg.id == Some(Json::Number(json::Num::Int(id as int))),
    ensures
        names_pending(state, msg) <==> state.pending.contains_key(id),
{
}

/// A message whose id is no number of 64 bits names no pending completion.
pub proof fn law_pending_by_number_only(state: TranslatorView, msg: MessageView)
    requires
        msg.id matches Some(Json::Number(json::Num::Int(id))) ==> !(0 <= id <= u64::MAX),
    ensures
        !names_pending(state, msg),
{
}

/// The answer to a completion is a response under the id that Helix chose: with the error
/// of the language server where there is one, and else with the list of items.  It is then
/// no longer pending, and nothing else changes.
pub proof fn law_answer_fields(state: TranslatorView, msg: MessageView, id: u64, other: u64)
    requires
        msg.id == Some(Json::Number(json::Num::Int(id as int))),
        state.pending.contains_key(id),
    ensures
        ({
            let answer = translated_response(state, msg);
            &&& answer.jsonrpc == "2.0"@
            &&& answer.id == Some(state.pending[id])
            &&& answer.method is None
            &&& answer.params is None
            &&& answer.error == msg.error
            &&& msg.error is Some ==> answer.result is None
            &&& msg.error is None ==> answer.result == Some(completion_list(msg.result))
        }),
        ({
            let now = after_response(state, msg);
            &&& !now.pending.contains_key(id)
            &&& now.versions == state.versions
            &&& now.next_id == state.next_id
            &&& other != id ==> now.pending.contains_key(other) == state.pending.contains_key(other)
            &&& other != id && state.pending.contains_key(other) ==> now.pending[other]
                == state.pending[other]
        }),
{
}

/// A cancellation either names, in place of Helix's id, a pending completion that Helix
/// knows by that id, and is otherwise as Helix sent it; or there is no such completion, and
/// it is as Helix sent it.
pub proof fn law_cancel_fields(
    state: TranslatorView,
    msg: MessageView,
    sent: Map<Seq<char>, Json>,
    r: MessageView,
)
    requires
        remapped_cancel(state, msg, r),
        msg.params == Some(Json::Object(sent)),
        sent.contains_key("id"@),
    ensures
        r.jsonrpc == msg.jsonrpc,
        r.id == msg.id,
        r.method == msg.method,
        r.result == msg.result,
        r.error == msg.error,
        r.params matches Some(Json::Object(got)) && forall|key: Seq<char>|
            key != "id"@ ==> #[trigger] jsonrpc::given(got, key) == jsonrpc::given(sent, key),
        r == msg ==> (forall|id: u64| #[trigger]
            state.pending.contains_key(id) ==> !json::json_eq(state.pending[id], sent["id"@]))
            || exists|id: u64| #[trigger]
            state.pending.contains_key(id) && json::json_eq(state.pending[id], sent["id"@])
                && sent["id"@] == Json::Number(json::Num::Int(id as int)),
        r != msg ==> exists|id: u64| #[trigger]
            state.pending.contains_key(id) && json::json_eq(state.pending[id], sent["id"@])
                && jsonrpc::given(r.params->0->Object_0, "id"@) == Some(
                Json::Number(json::Num::Int(id as int)),
            ),
{
    let helix_id = sent["id"@];
    if exists|id: u64| #[trigger]
        stands_for(state, id, helix_id) && r == with_cancelled_id(msg, id) {
        let id = choose|id: u64| #[trigger]
            stands_for(state, id, helix_id) && r == with_cancelled_id(msg, id);
        assert(state.pending.contains_key(id));
        if r == msg {
            assert(jsonrpc::given(sent, "id"@) == Some(Json::Number(json::Num::Int(id as int))));
        }
    } else {
        assert forall|id: u64| #[trigger] state.pending.contains_key(id) implies !json::json_eq(
            state.pending[id],
            helix_id,
        ) by {
            assert(!stands_for(state, id, helix_id));
        }
    }
}

/// A cancellation that names no id is as Helix sent it.
pub proof fn law_cancel_without_id(state: TranslatorView, msg: MessageView, r: MessageView)
    requires
        remapped_cancel(state, msg, r),
        json::member(msg.params, "id"@) is None,
    ensures
        r == msg,
{
}

/// A label is the line that heads the text, cut where it is too long.
pub proof fn law_label_cuts_headline(text: Seq<char>, max_chars: nat)
    ensures
        text::headline(text).len() <= max_chars ==> label(text, max_chars) == text::headline(text),
        text::headline(text).len() > max_chars ==> label(text, max_chars) == text::headline(
            text,
        ).take(max_chars as int).push('…'),
{
    text::law_shortened(text::headline(text), max_chars);
    if text::headline(text).len() > max_chars {
        assert(label(text, max_chars) =~= text::headline(text).take(max_chars as int).push('…'));
    }
}

} // verus!
