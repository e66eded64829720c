//! JSON-RPC 2.0 message types, and messages in Content-Length frames.

use vstd::prelude::*;

use crate::framing;
use crate::framing::{read_frame, write_frame, FrameError};
use crate::json;
use crate::json::{str_of, Json, JsonValue, Object};

verus! {

// ── Types ───────────────────────────────────────────────────────────────────

/// A JSON-RPC 2.0 message (request, response, or notification).
///
/// All three share the same wire format; callers use [`Message::kind`] or the
/// `is_*` helpers to distinguish them.
#[derive(Debug)]
pub struct Message {
    pub jsonrpc: String,
    /// Present on requests and responses; absent on notifications.
    pub id: Option<JsonValue>,
    /// Present on requests and notifications; absent on responses.
    pub method: Option<String>,
    pub params: Option<JsonValue>,
    pub result: Option<JsonValue>,
    pub error: Option<RpcError>,
}

#[derive(Debug)]
pub struct RpcError {
    pub code: i64,
    pub message: String,
    pub data: Option<JsonValue>,
}

#[derive(Debug, Clone, Copy, PartialEq, Eq, Structural)]
pub enum MessageKind {
    Request,
    Response,
    Notification,
}

/// The mathematical value of a [`Message`].
pub struct MessageView {
    pub jsonrpc: Seq<char>,
    pub id: Option<Json>,
    pub method: Option<Seq<char>>,
    pub params: Option<Json>,
    pub result: Option<Json>,
    pub error: Option<RpcErrorView>,
}

/// The mathematical value of an [`RpcError`].
pub struct RpcErrorView {
    pub code: i64,
    pub message: Seq<char>,
    pub data: Option<Json>,
}

impl RpcError {
    pub open spec fn view(&self) -> RpcErrorView {
        RpcErrorView { code: self.code, message: self.message@, data: json::opt_view(self.data) }
    }
}

/// The mathematical value of an error that may be missing.
pub open spec fn error_view(error: Option<RpcError>) -> Option<RpcErrorView> {
    match error {
        Some(error) => Some(error@),
        None => None,
    }
}

impl MessageView {
    pub open spec fn kind(self) -> MessageKind {
        if self.id is None {
            MessageKind::Notification
        } else if self.method is None {
            MessageKind::Response
        } else {
            MessageKind::Request
        }
    }
}

/// A success response.
pub open spec fn success_view(id: Json, result: Json) -> MessageView {
    MessageView {
        jsonrpc: "2.0"@,
        id: Some(id),
        method: None,
        params: None,
        result: Some(result),
        error: None,
    }
}

/// An error response.
pub open spec fn error_response_view(id: Json, error: RpcErrorView) -> MessageView {
    MessageView {
        jsonrpc: "2.0"@,
        id: Some(id),
        method: None,
        params: None,
        result: None,
        error: Some(error),
    }
}

/// A notification.
pub open spec fn notification_view(method: Seq<char>, params: Json) -> MessageView {
    MessageView {
        jsonrpc: "2.0"@,
        id: None,
        method: Some(method),
        params: Some(params),
        result: None,
        error: None,
    }
}

/// A request.
pub open spec fn request_view(id: Json, method: Seq<char>, params: Json) -> MessageView {
    MessageView {
        jsonrpc: "2.0"@,
        id: Some(id),
        method: Some(method),
        params: Some(params),
        result: None,
        error: None,
    }
}

impl Message {
    pub open spec fn view(&self) -> MessageView {
        MessageView {
            jsonrpc: self.jsonrpc@,
            id: json::opt_view(self.id),
            method: json::string_view(self.method),
            params: json::opt_view(self.params),
            result: json::opt_view(self.result),
            error: error_view(self.error),
        }
    }

    pub fn kind(&self) -> (r: MessageKind)
        ensures
            r == self@.kind(),
    {
        match (&self.id, &self.method) {
            (Some(_), Some(_)) => MessageKind::Request,
            (Some(_), None) => MessageKind::Response,
            (None, _) => MessageKind::Notification,
        }
    }

    pub fn is_request(&self) -> (r: bool)
        ensures
            r == (self@.kind() == MessageKind::Request),
    {
        self.kind() == MessageKind::Request
    }

    pub fn is_response(&self) -> (r: bool)
        ensures
            r == (self@.kind() == MessageKind::Response),
    {
        self.kind() == MessageKind::Response
    }

    pub fn is_notification(&self) -> (r: bool)
        ensures
            r == (self@.kind() == MessageKind::Notification),
    {
        self.kind() == MessageKind::Notification
    }

    /// Convenience: method name for requests and notifications, `None` for responses.
    pub fn method(&self) -> (r: Option<&str>)
        ensures
            json::str_view(r) == self@.method,
    {
        match &self.method {
            Some(method) => Some(method.as_str()),
            None => None,
        }
    }

    /// Build a success response for the given request id.
    pub fn success(id: JsonValue, result: JsonValue) -> (r: Message)
        ensures
            r@ == success_view(id@, result@),
    {
        Message {
            jsonrpc: "2.0".to_owned(),
            id: Some(id),
            method: None,
            params: None,
            result: Some(result),
            error: None,
        }
    }

    /// Build an error response for the given request id.
    pub fn error_response(id: JsonValue, code: i64, message: &str) -> (r: Message)
        ensures
            r@ == error_response_view(
                id@,
                (RpcErrorView { code, message: message@, data: None }),
            ),
    {
        Message {
            jsonrpc: "2.0".to_owned(),
            id: Some(id),
            method: None,
            params: None,
            result: None,
            error: Some(RpcError { code, message: message.to_owned(), data: None }),
        }
    }

    /// Build a notification (no id).
    pub fn notification(method: &str, params: JsonValue) -> (r: Message)
        ensures
            r@ == notification_view(method@, params@),
    {
        Message {
            jsonrpc: "2.0".to_owned(),
            id: None,
            method: Some(method.to_owned()),
            params: Some(params),
            result: None,
            error: None,
        }
    }

    /// Build a request with the given numeric id.
    pub fn request(id: u64, method: &str, params: JsonValue) -> (r: Message)
        ensures
            r@ == request_view(json::int_json(id as int), method@, params@),
    {
        Message::request_with_id(JsonValue::unsigned(id), method, params)
    }

    /// Build a request with an arbitrary JSON-RPC id.
    pub fn request_with_id(id: JsonValue, method: &str, params: JsonValue) -> (r: Message)
        ensures
            r@ == request_view(id@, method@, params@),
    {
        Message {
            jsonrpc: "2.0".to_owned(),
            id: Some(id),
            method: Some(method.to_owned()),
            params: Some(params),
            result: None,
            error: None,
        }
    }
}

fn clone_value(value: &Option<JsonValue>) -> (r: Option<JsonValue>)
    ensures
        json::opt_view(r) == json::opt_view(*value),
{
    match value {
        Some(value) => Some(value.clone()),
        None => None,
    }
}

impl Clone for RpcError {
    fn clone(&self) -> (r: RpcError)
        ensures
            r@ == self@,
    {
        RpcError {
            code: self.code,
            message: self.message.clone(),
            data: clone_value(&self.data),
        }
    }
}

impl Clone for Message {
    fn clone(&self) -> (r: Message)
        ensures
            r@ == self@,
    {
        let method = match &self.method {
            Some(method) => Some(method.clone()),
            None => None,
        };
        let error = match &self.error {
            Some(error) => Some(error.clone()),
            None => None,
        };
        Message {
            jsonrpc: self.jsonrpc.clone(),
            id: clone_value(&self.id),
            method,
            params: clone_value(&self.params),
            result: clone_value(&self.result),
            error,
        }
    }
}

// ── Messages as JSON ────────────────────────────────────────────────────────

/// An error as a JSON object; `data` is left out when there is none.
pub open spec fn error_json(error: RpcErrorView) -> Json {
    Json::Object(
        json::insert_some(
            json::no_members().insert("code"@, json::int_json(error.code as int)).insert(
                "message"@,
                Json::String(error.message),
            ),
            "data"@,
            error.data,
        ),
    )
}

/// The members of a message; what the message does not have is left out.
pub open spec fn message_members(msg: MessageView) -> Map<Seq<char>, Json> {
    let m = json::no_members().insert("jsonrpc"@, Json::String(msg.jsonrpc));
    let m = json::insert_some(m, "id"@, msg.id);
    let m = match msg.method {
        Some(method) => m.insert("method"@, Json::String(method)),
        None => m,
    };
    let m = json::insert_some(m, "params"@, msg.params);
    let m = json::insert_some(m, "result"@, msg.result);
    match msg.error {
        Some(error) => m.insert("error"@, error_json(error)),
        None => m,
    }
}

/// A message as it goes over the wire: a success response always has the member
/// `result`, which is null when the message carries no result.
pub open spec fn serialized(msg: MessageView) -> Json {
    if msg.kind() == MessageKind::Response && msg.result is None && msg.error is None {
        Json::Object(message_members(msg).insert("result"@, Json::Null))
    } else {
        Json::Object(message_members(msg))
    }
}

/// A member that is missing or null does not count as present.
pub open spec fn present(value: Option<Json>) -> Option<Json> {
    match value {
        Some(Json::Null) => None,
        _ => value,
    }
}

/// A field of a record: the member `key` of an object, or the value at `place` of a list
/// of all `count` fields in order.
pub open spec fn field(json: Json, key: Seq<char>, place: int, count: int) -> Option<Json> {
    match json {
        Json::Array(items) => if items.len() == count && 0 <= place < count {
            Some(items[place])
        } else {
            None
        },
        _ => json.get(key),
    }
}

/// The error that a JSON value stands for: an object, or a list of its three fields.
pub open spec fn error_of(json: Json) -> Option<RpcErrorView> {
    match (field(json, "code"@, 0, 3), field(json, "message"@, 1, 3)) {
        (Some(code), Some(message)) => match (code.as_i64(), message.as_str()) {
            (Some(code), Some(message)) => Some(
                RpcErrorView { code, message, data: present(field(json, "data"@, 2, 3)) },
            ),
            _ => None,
        },
        _ => None,
    }
}

/// The message that a JSON value stands for: an object, or a list of its six fields.
///
/// `jsonrpc` is a text; `method` is a text and `error` an error, where they are present;
/// any value will do for the other fields.
pub open spec fn message_of(json: Json) -> Option<MessageView> {
    let method = present(field(json, "method"@, 2, 6));
    let error = present(field(json, "error"@, 5, 6));
    match json::text_of(field(json, "jsonrpc"@, 0, 6)) {
        Some(jsonrpc) => if (method is Some && json::text_of(method) is None) || (error is Some
            && error_of(error->0) is None) {
            None
        } else {
            Some(
                MessageView {
                    jsonrpc,
                    id: present(field(json, "id"@, 1, 6)),
                    method: json::text_of(method),
                    params: present(field(json, "params"@, 3, 6)),
                    result: present(field(json, "result"@, 4, 6)),
                    error: match error {
                        Some(error) => error_of(error),
                        None => None,
                    },
                },
            )
        },
        None => None,
    }
}

fn error_value(error: &RpcError) -> (r: JsonValue)
    ensures
        r@ == error_json(error@),
{
    JsonValue::Object(
        Object::new().with("code", JsonValue::signed(error.code)).with(
            "message",
            JsonValue::text(error.message.as_str()),
        ).with_some("data", clone_value(&error.data)),
    )
}

/// The JSON object that stands for `msg` on the wire.
///
/// JSON-RPC success responses must carry a `result` member. When the upstream
/// server replies with `result: null`, reading the message gives no result, so
/// the member is put back here.
pub fn serialize_message(msg: &Message) -> (r: JsonValue)
    ensures
        r@ == serialized(msg@),
{
    let object = Object::new().with("jsonrpc", JsonValue::text(msg.jsonrpc.as_str())).with_some(
        "id",
        clone_value(&msg.id),
    );
    let object = match &msg.method {
        Some(method) => object.with("method", JsonValue::text(method.as_str())),
        None => object,
    };
    let object = object.with_some("params", clone_value(&msg.params)).with_some(
        "result",
        clone_value(&msg.result),
    );
    let object = match &msg.error {
        Some(error) => object.with("error", error_value(error)),
        None => object,
    };
    if msg.is_response() && msg.result.is_none() && msg.error.is_none() {
        JsonValue::Object(object.with("result", JsonValue::Null))
    } else {
        JsonValue::Object(object)
    }
}

fn field_of<'a>(value: &'a JsonValue, key: &str, place: usize, count: usize) -> (r: Option<
    &'a JsonValue,
>)
    requires
        place < count,
    ensures
        json::ref_view(r) == field(value@, key@, place as int, count as int),
{
    match value {
        JsonValue::Array(items) => {
            proof {
                json::lemma_values_view(items@);
            }
            if items.len() == count {
                Some(&items[place])
            } else {
                None
            }
        },
        _ => value.get(key),
    }
}

fn present_field(value: &JsonValue, key: &str, place: usize, count: usize) -> (r: Option<JsonValue>)
    requires
        place < count,
    ensures
        json::opt_view(r) == present(field(value@, key@, place as int, count as int)),
{
    match field_of(value, key, place, count) {
        Some(found) => if found.is_null() {
            None
        } else {
            Some(found.clone())
        },
        None => None,
    }
}

fn read_error(value: &JsonValue) -> (r: Option<RpcError>)
    ensures
        error_view(r) == error_of(value@),
{
    let code = match field_of(value, "code", 0, 3) {
        Some(code) => code.as_i64(),
        None => None,
    };
    match (code, str_of(field_of(value, "message", 1, 3))) {
        (Some(code), Some(message)) => Some(
            RpcError { code, message: message.to_owned(), data: present_field(value, "data", 2, 3) },
        ),
        _ => None,
    }
}

/// The message that a decoded JSON value stands for, if it stands for one.
pub fn deserialize_message(value: &JsonValue) -> (r: Option<Message>)
    ensures
        match r {
            Some(msg) => message_of(value@) == Some(msg@),
            None => message_of(value@) is None,
        },
{
    let jsonrpc = match str_of(field_of(value, "jsonrpc", 0, 6)) {
        Some(jsonrpc) => jsonrpc.to_owned(),
        None => return None,
    };
    let method = match present_field(value, "method", 2, 6) {
        Some(method) => match method {
            JsonValue::String(method) => Some(method),
            _ => return None,
        },
        None => None,
    };
    let error = match present_field(value, "error", 5, 6) {
        Some(error) => match read_error(&error) {
            Some(error) => Some(error),
            None => return None,
        },
        None => None,
    };
    Some(
        Message {
            jsonrpc,
            id: present_field(value, "id", 1, 6),
            method,
            params: present_field(value, "params", 3, 6),
            result: present_field(value, "result", 4, 6),
            error,
        },
    )
}

// ── Messages in frames ──────────────────────────────────────────────────────

/// Why a message could not be read.
#[derive(Debug, Clone, Copy, PartialEq, Eq)]
pub enum ReadError {
    /// There is no frame.
    Frame(FrameError),
    /// The body of the frame is not JSON.
    NotJson,
    /// The JSON does not stand for a message.
    NotMessage,
}

impl ReadError {
    pub open spec fn message(self) -> Seq<char> {
        match self {
            ReadError::Frame(error) => error.message(),
            _ => "deserializing JSON-RPC message"@,
        }
    }

    /// Says in words what went wrong, or what was being done.
    pub fn description(&self) -> (r: &'static str)
        ensures
            r@ == self.message(),
    {
        match self {
            ReadError::Frame(error) => error.description(),
            _ => "deserializing JSON-RPC message",
        }
    }
}

/// Whether `decoded` may be what `decode` makes of the body of the first frame in
/// `input`, where `rest` follows that frame.
pub open spec fn decodes<D: FnOnce(&[u8]) -> Option<JsonValue>>(
    input: Seq<u8>,
    decode: D,
    body: &[u8],
    rest: Seq<u8>,
    decoded: Option<JsonValue>,
) -> bool {
    &&& framing::first_frame(input) == Ok::<(Seq<u8>, Seq<u8>), FrameError>((body@, rest))
    &&& call_ensures(decode, (body,), decoded)
}

/// Whether `decode` may make the JSON of `msg` of the first frame in `input`, which is
/// the part before `end`.
pub open spec fn reads<D: FnOnce(&[u8]) -> Option<JsonValue>>(
    input: Seq<u8>,
    decode: D,
    body: &[u8],
    value: JsonValue,
    msg: MessageView,
    end: usize,
) -> bool {
    &&& end <= input.len()
    &&& decodes(input, decode, body, input.skip(end as int), Some(value))
    &&& message_of(value@) == Some(msg)
}

/// Whether `r` may be what reading a message from `input` gives, with `decode` for the
/// JSON.
pub open spec fn may_read<D: FnOnce(&[u8]) -> Option<JsonValue>>(
    input: Seq<u8>,
    decode: D,
    r: Result<(Message, usize), ReadError>,
) -> bool {
    &&& r is Ok ==> exists|body: &[u8], value: JsonValue| #[trigger]
        reads(input, decode, body, value, r->Ok_0.0@, r->Ok_0.1)
    &&& r matches Err(ReadError::Frame(error)) ==> framing::first_frame(input) == Err::<
        (Seq<u8>, Seq<u8>),
        FrameError,
    >(error)
    &&& r == Err::<(Message, usize), ReadError>(ReadError::NotJson) ==> exists|
        body: &[u8],
        rest: Seq<u8>,
    | #[trigger]
        decodes(input, decode, body, rest, None)
    &&& r == Err::<(Message, usize), ReadError>(ReadError::NotMessage) ==> exists|
        body: &[u8],
        rest: Seq<u8>,
        value: JsonValue,
    | #[trigger]
        decodes(input, decode, body, rest, Some(value)) && message_of(value@) is None
}

/// Read one framed JSON-RPC message from `input`, with a decoder for the JSON, and say
/// where the frame ends.
///
/// Expects `Content-Length: <N>\r\n` optionally followed by other headers, then `\r\n`,
/// then exactly N bytes of UTF-8 JSON.
pub fn read_message<D: FnOnce(&[u8]) -> Option<JsonValue>>(input: &[u8], decode: D) -> (r: Result<
    (Message, usize),
    ReadError,
>)
    requires
        forall|body: &[u8]| #[trigger] call_requires(decode, (body,)),
    ensures
        may_read(input@, decode, r),
{
    let (start, end): (usize, usize) = match read_frame(input) {
        Ok(positions) => positions,
        Err(error) => return Err(ReadError::Frame(error)),
    };
    let body = vstd::slice::slice_subrange(input, start, end);
    let decoded = decode(body);
    assert(decodes(input@, decode, body, input@.skip(end as int), decoded));
    match decoded {
        Some(value) => match deserialize_message(&value) {
            Some(msg) => {
                let read: (Message, usize) = (msg, end);
                assert(reads(input@, decode, body, value, read.0@, read.1));
                Ok(read)
            },
            None => {
                assert(decodes(input@, decode, body, input@.skip(end as int), Some(value)));
                Err(ReadError::NotMessage)
            },
        },
        None => Err(ReadError::NotJson),
    }
}

/// Whether `encoded` may be what `encode` makes of the JSON of a message.
pub open spec fn encodes<E, F: FnOnce(&JsonValue) -> Result<Vec<u8>, E>>(
    msg: MessageView,
    encode: F,
    value: JsonValue,
    encoded: Result<Vec<u8>, E>,
) -> bool {
    value@ == serialized(msg) && call_ensures(encode, (&value,), encoded)
}

/// Whether `r` may be what writing a message gives, with `encode` for the JSON.
pub open spec fn may_write<E, F: FnOnce(&JsonValue) -> Result<Vec<u8>, E>>(
    msg: MessageView,
    encode: F,
    r: Result<Vec<u8>, E>,
) -> bool {
    match r {
        Ok(frame) => exists|value: JsonValue, body: Vec<u8>| #[trigger]
            encodes(msg, encode, value, Ok(body)) && frame@ == framing::framed(body@),
        Err(error) => exists|value: JsonValue| #[trigger] encodes(msg, encode, value, Err(error)),
    }
}

/// Write one framed JSON-RPC message, with an encoder for the JSON.
pub fn write_message<E, F: FnOnce(&JsonValue) -> Result<Vec<u8>, E>>(msg: &Message, encode: F) -> (r:
    Result<Vec<u8>, E>)
    requires
        forall|value: JsonValue|
            value@ == serialized(msg@) ==> #[trigger] call_requires(encode, (&value,)),
    ensures
        may_write(msg@, encode, r),
{
    let value = serialize_message(msg);
    let encoded = encode(&value);
    assert(encodes(msg@, encode, value, encoded));
    match encoded {
        Ok(body) => Ok(write_frame(body.as_slice())),
        Err(error) => Err(error),
    }
}

// ── Laws ────────────────────────────────────────────────────────────────────

/// A message as it is read back: a member that is null counts as absent.
pub open spec fn without_nulls(msg: MessageView) -> MessageView {
    MessageView {
        id: present(msg.id),
        params: present(msg.params),
        result: present(msg.result),
        error: match msg.error {
            Some(error) => Some(RpcErrorView { data: present(error.data), ..error }),
            None => None,
        },
        ..msg
    }
}

proof fn lemma_message_keys()
    ensures
        "jsonrpc"@ != "id"@,
        "jsonrpc"@ != "method"@,
        "jsonrpc"@ != "params"@,
        "jsonrpc"@ != "result"@,
        "jsonrpc"@ != "error"@,
        "id"@ != "method"@,
        "id"@ != "params"@,
        "id"@ != "result"@,
        "id"@ != "error"@,
        "method"@ != "params"@,
        "method"@ != "result"@,
        "method"@ != "error"@,
        "params"@ != "result"@,
        "params"@ != "error"@,
        "result"@ != "error"@,
        "code"@ != "message"@,
        "code"@ != "data"@,
        "message"@ != "data"@,
{
    reveal_strlit("jsonrpc");
    reveal_strlit("id");
    reveal_strlit("method");
    reveal_strlit("params");
    reveal_strlit("result");
    reveal_strlit("error");
    reveal_strlit("code");
    reveal_strlit("message");
    reveal_strlit("data");
    assert("jsonrpc"@.len() == 7);
    assert("id"@.len() == 2);
    assert("error"@.len() == 5);
    assert("message"@.len() == 7);
    assert("method"@[0] == 'm');
    assert("params"@[0] == 'p');
    assert("result"@[0] == 'r');
    assert("code"@[0] == 'c');
    assert("data"@[0] == 'd');
}

/// Reading a written message gives the message back, except that a member which
/// is null is read as absent. A message without null members comes back as it was.
pub proof fn law_message_round_trip(msg: MessageView)
    ensures
        message_of(serialized(msg)) == Some(without_nulls(msg)),
        msg.id != Some(Json::Null) && msg.params != Some(Json::Null) && msg.result != Some(
            Json::Null,
        ) && (msg.error is Some ==> msg.error->0.data != Some(Json::Null)) ==> message_of(
            serialized(msg),
        ) == Some(msg),
{
    lemma_message_keys();
    let json = serialized(msg);
    assert(json.get("jsonrpc"@) == Some(Json::String(msg.jsonrpc)));
    assert(json.get("id"@) == msg.id);
    assert(present(json.get("params"@)) == present(msg.params));
    assert(present(json.get("result"@)) == present(msg.result));
    match msg.error {
        Some(error) => {
            let written = error_json(error);
            assert(json.get("error"@) == Some(written));
            assert(written.get("code"@) == Some(json::int_json(error.code as int)));
            assert(written.get("message"@) == Some(Json::String(error.message)));
            assert(written.get("data"@) == error.data);
        },
        None => {
            assert(json.get("error"@) is None);
        },
    }
    match msg.method {
        Some(method) => {
            assert(json.get("method"@) == Some(Json::String(method)));
        },
        None => {
            assert(json.get("method"@) is None);
        },
    }
}

/// A success response goes over the wire with a `result`, even when there is no
/// result to carry: then it is null.
pub proof fn law_success_response_has_result(msg: MessageView)
    requires
        msg.kind() == MessageKind::Response,
        msg.error is None,
    ensures
        serialized(msg).get("result"@) == Some(
            match msg.result {
                Some(result) => result,
                None => Json::Null,
            },
        ),
{
    lemma_message_keys();
}

/// Over any encoding of JSON that can be decoded, a message that is written to a stream
/// is read from it, except that a member which is null is read as absent; what follows
/// in the stream is left for the next read.
pub proof fn law_wire_round_trip(
    msg: MessageView,
    encode: spec_fn(Json) -> Seq<u8>,
    decode: spec_fn(Seq<u8>) -> Option<Json>,
    rest: Seq<u8>,
)
    requires
        decode(encode(serialized(msg))) == Some(serialized(msg)),
        encode(serialized(msg)).len() <= usize::MAX,
    ensures
        ({
            let read = framing::first_frame(framing::framed(encode(serialized(msg))) + rest);
            &&& read is Ok
            &&& read->Ok_0.1 == rest
            &&& decode(read->Ok_0.0) is Some
            &&& message_of(decode(read->Ok_0.0)->0) == Some(without_nulls(msg))
        }),
{
    framing::law_frame_round_trip(encode(serialized(msg)), rest);
    law_message_round_trip(msg);
}

/// What reading a message from `input` gives, with a decoder that always makes the same of
/// the same bytes: the message, and what follows its frame.
pub open spec fn read_next(input: Seq<u8>, decode: spec_fn(Seq<u8>) -> Option<Json>) -> Result<
    (MessageView, Seq<u8>),
    ReadError,
> {
    match framing::first_frame(input) {
        Ok((body, rest)) => match decode(body) {
            Some(value) => match message_of(value) {
                Some(msg) => Ok((msg, rest)),
                None => Err(ReadError::NotMessage),
            },
            None => Err(ReadError::NotJson),
        },
        Err(error) => Err(ReadError::Frame(error)),
    }
}

/// With a decoder that always makes the same of the same bytes, what [`read_message`] gives
/// is settled.
pub proof fn law_reading_is_settled<D: FnOnce(&[u8]) -> Option<JsonValue>>(
    input: Seq<u8>,
    decoder: D,
    decode: spec_fn(Seq<u8>) -> Option<Json>,
    r: Result<(Message, usize), ReadError>,
)
    requires
        may_read(input, decoder, r),
        forall|body: &[u8], decoded: Option<JsonValue>| #[trigger]
            call_ensures(decoder, (body,), decoded) ==> json::opt_view(decoded) == decode(body@),
    ensures
        match (r, read_next(input, decode)) {
            (Ok((msg, end)), Ok((expected, rest))) => msg@ == expected && end <= input.len() && rest
                == input.skip(end as int),
            (Err(error), Err(expected)) => error == expected,
            _ => false,
        },
{
}

/// With an encoder that always makes the same of the same JSON, what [`write_message`]
/// gives is settled.
pub proof fn law_writing_is_settled<E, F: FnOnce(&JsonValue) -> Result<Vec<u8>, E>>(
    msg: MessageView,
    encoder: F,
    encode: spec_fn(Json) -> Seq<u8>,
    r: Result<Vec<u8>, E>,
)
    requires
        may_write(msg, encoder, r),
        forall|value: JsonValue, encoded: Result<Vec<u8>, E>| #[trigger]
            call_ensures(encoder, (&value,), encoded) ==> encoded is Ok && encoded->Ok_0@ == encode(
                value@,
            ),
    ensures
        r is Ok,
        r->Ok_0@ == framing::framed(encode(serialized(msg))),
{
}

/// The bytes of messages that are written one after the other.
pub open spec fn message_stream(
    msgs: Seq<MessageView>,
    encode: spec_fn(Json) -> Seq<u8>,
) -> Seq<u8>
    decreases msgs.len(),
{
    if msgs.len() == 0 {
        Seq::empty()
    } else {
        framing::framed(encode(serialized(msgs[0]))) + message_stream(msgs.skip(1), encode)
    }
}

/// The first `n` messages that are read from `input`, and what follows them.
pub open spec fn read_messages(
    input: Seq<u8>,
    n: nat,
    decode: spec_fn(Seq<u8>) -> Option<Json>,
) -> Result<(Seq<MessageView>, Seq<u8>), ReadError>
    decreases n,
{
    if n == 0 {
        Ok((Seq::empty(), input))
    } else {
        match read_next(input, decode) {
            Ok((msg, rest)) => match read_messages(rest, (n - 1) as nat, decode) {
                Ok((msgs, rest)) => Ok((seq![msg] + msgs, rest)),
                Err(error) => Err(error),
            },
            Err(error) => Err(error),
        }
    }
}

/// Over any encoding of JSON that can be decoded, messages that are written one after the
/// other are read one after the other, each read taking one frame; a member which is null
/// is read as absent, and a message without null members comes back as it was.  Nothing is
/// read past the end.
pub proof fn law_message_stream_round_trip(
    msgs: Seq<MessageView>,
    encode: spec_fn(Json) -> Seq<u8>,
    decode: spec_fn(Seq<u8>) -> Option<Json>,
    rest: Seq<u8>,
)
    requires
        forall|i: int|
            0 <= i < msgs.len() ==> decode(encode(serialized(#[trigger] msgs[i]))) == Some(
                serialized(msgs[i]),
            ),
        forall|i: int|
            0 <= i < msgs.len() ==> encode(serialized(#[trigger] msgs[i])).len() <= usize::MAX,
    ensures
        read_messages(message_stream(msgs, encode) + rest, msgs.len(), decode) == Ok::<
            (Seq<MessageView>, Seq<u8>),
            ReadError,
        >((msgs.map_values(|msg: MessageView| without_nulls(msg)), rest)),
        (forall|i: int| 0 <= i < msgs.len() ==> without_nulls(#[trigger] msgs[i]) == msgs[i])
            ==> read_messages(message_stream(msgs, encode) + rest, msgs.len(), decode) == Ok::<
            (Seq<MessageView>, Seq<u8>),
            ReadError,
        >((msgs, rest)),
        read_next(Seq::empty(), decode) == Err::<(MessageView, Seq<u8>), ReadError>(
            ReadError::Frame(FrameError::Closed),
        ),
    decreases msgs.len(),
{
    let read = msgs.map_values(|msg: MessageView| without_nulls(msg));
    if msgs.len() == 0 {
        assert(message_stream(msgs, encode) + rest =~= rest);
        assert(read =~= Seq::empty());
    } else {
        let later = msgs.skip(1);
        assert forall|i: int| 0 <= i < later.len() implies decode(
            encode(serialized(#[trigger] later[i])),
        ) == Some(serialized(later[i])) && encode(serialized(later[i])).len() <= usize::MAX by {
            assert(later[i] == msgs[i + 1]);
        }
        law_message_stream_round_trip(later, encode, decode, rest);
        let tail = message_stream(later, encode) + rest;
        let first = encode(serialized(msgs[0]));
        law_wire_round_trip(msgs[0], encode, decode, tail);
        assert(message_stream(msgs, encode) + rest =~= framing::framed(first) + tail);
        framing::law_frame_round_trip(first, tail);
        assert(seq![without_nulls(msgs[0])] + later.map_values(
            |msg: MessageView| without_nulls(msg),
        ) =~= read);
    }
    if forall|i: int| 0 <= i < msgs.len() ==> without_nulls(#[trigger] msgs[i]) == msgs[i] {
        assert(read =~= msgs);
    }
}

/// A message stands for its fields, each for itself.
pub proof fn law_messages_stand_for_their_fields(msg: Message)
    ensures
        msg@.jsonrpc == msg.jsonrpc@,
        msg.id is Some <==> msg@.id is Some,
        msg.id is Some ==> msg@.id == Some(msg.id->0@),
        msg.method is Some <==> msg@.method is Some,
        msg.method is Some ==> msg@.method == Some(msg.method->0@),
        msg.params is Some <==> msg@.params is Some,
        msg.params is Some ==> msg@.params == Some(msg.params->0@),
        msg.result is Some <==> msg@.result is Some,
        msg.result is Some ==> msg@.result == Some(msg.result->0@),
        msg.error is Some <==> msg@.error is Some,
        msg.error is Some ==> {
            &&& msg@.error->0.code == msg.error->0.code
            &&& msg@.error->0.message == msg.error->0.message@
            &&& msg.error->0.data is Some <==> msg@.error->0.data is Some
            &&& msg.error->0.data is Some ==> msg@.error->0.data == Some(msg.error->0.data->0@)
        },
{
}

/// A message without an id is a notification; one with an id is a request when it has a
/// method, and else a response.
pub proof fn law_kinds(msg: MessageView)
    ensures
        msg.kind() == MessageKind::Notification <==> msg.id is None,
        msg.kind() == MessageKind::Request <==> msg.id is Some && msg.method is Some,
        msg.kind() == MessageKind::Response <==> msg.id is Some && msg.method is None,
{
}

/// Built messages carry what they are built from, say that they are JSON-RPC 2.0, and carry
/// nothing else.
pub proof fn law_built_messages(
    id: Json,
    method: Seq<char>,
    params: Json,
    result: Json,
    error: RpcErrorView,
)
    ensures
        ({
            let msg = success_view(id, result);
            &&& msg.jsonrpc == "2.0"@ && msg.id == Some(id) && msg.result == Some(result)
            &&& msg.method is None && msg.params is None && msg.error is None
        }),
        ({
            let msg = error_response_view(id, error);
            &&& msg.jsonrpc == "2.0"@ && msg.id == Some(id) && msg.error == Some(error)
            &&& msg.method is None && msg.params is None && msg.result is None
        }),
        ({
            let msg = notification_view(method, params);
            &&& msg.jsonrpc == "2.0"@ && msg.method == Some(method) && msg.params == Some(params)
            &&& msg.id is None && msg.result is None && msg.error is None
        }),
        ({
            let msg = request_view(id, method, params);
            &&& msg.jsonrpc == "2.0"@ && msg.id == Some(id)
            &&& msg.method == Some(method) && msg.params == Some(params)
            &&& msg.result is None && msg.error is None
        }),
{
}

/// What the member `key` of an object is, if there is one.
pub open spec fn given(members: Map<Seq<char>, Json>, key: Seq<char>) -> Option<Json> {
    if members.contains_key(key) {
        Some(members[key])
    } else {
        None
    }
}

/// What the member `key` of an object is, if there is one that is not null.
pub open spec fn given_not_null(members: Map<Seq<char>, Json>, key: Seq<char>) -> Option<Json> {
    if members.contains_key(key) && members[key] != Json::Null {
        Some(members[key])
    } else {
        None
    }
}

/// On the wire a message is an object: each field is the member of its name, with its own
/// value, a missing field is no member, and there are no other members.  Only a response
/// with neither result nor error gets a member of its own, a null result.
pub proof fn law_written_members(msg: MessageView)
    ensures
        serialized(msg) matches Json::Object(members) && {
            &&& given(members, "jsonrpc"@) == Some(Json::String(msg.jsonrpc))
            &&& given(members, "id"@) == msg.id
            &&& given(members, "method"@) == match msg.method {
                Some(method) => Some(Json::String(method)),
                None => None,
            }
            &&& given(members, "params"@) == msg.params
            &&& given(members, "result"@) == if msg.id is Some && msg.method is None && msg.result
                is None && msg.error is None {
                Some(Json::Null)
            } else {
                msg.result
            }
            &&& members.contains_key("error"@) <==> msg.error is Some
            &&& forall|key: Seq<char>| #[trigger]
                members.contains_key(key) ==> key == "jsonrpc"@ || key == "id"@ || key == "method"@
                    || key == "params"@ || key == "result"@ || key == "error"@
        },
        msg.error matches Some(error) ==> {
            &&& serialized(msg)->Object_0["error"@] matches Json::Object(members) && {
                &&& given(members, "code"@) == Some(Json::Number(json::Num::Int(error.code as int)))
                &&& given(members, "message"@) == Some(Json::String(error.message))
                &&& given(members, "data"@) == error.data
                &&& forall|key: Seq<char>| #[trigger]
                    members.contains_key(key) ==> key == "code"@ || key == "message"@ || key
                        == "data"@
            }
        },
{
    lemma_message_keys();
}

/// An object is an error when it has a code, an integer of 64 bits, and a message, a text;
/// the data is whatever it has that is not null.
pub proof fn law_read_error_object(members: Map<Seq<char>, Json>, error: RpcErrorView)
    ensures
        error_of(Json::Object(members)) == Some(error) <==> {
            &&& given(members, "code"@) == Some(Json::Number(json::Num::Int(error.code as int)))
            &&& given(members, "message"@) == Some(Json::String(error.message))
            &&& given_not_null(members, "data"@) == error.data
        },
{
}

/// A list is an error when it is the code, the message and the data, in this order.
pub proof fn law_read_error_list(items: Seq<Json>, error: RpcErrorView)
    ensures
        error_of(Json::Array(items)) == Some(error) <==> {
            &&& items.len() == 3
            &&& items[0] == Json::Number(json::Num::Int(error.code as int))
            &&& items[1] == Json::String(error.message)
            &&& error.data == if items[2] == Json::Null {
                None
            } else {
                Some(items[2])
            }
        },
{
}

/// Nothing but an object or a list is an error or a message.
pub proof fn law_plain_values_are_no_messages(json: Json)
    requires
        !(json is Object),
        !(json is Array),
    ensures
        error_of(json) is None,
        message_of(json) is None,
{
}

/// An object is read as the message that has its members for fields, null members counting
/// as absent; `jsonrpc` must be a text, and a method or an error, where there is one, must
/// be a text or an error.
pub proof fn law_read_object(members: Map<Seq<char>, Json>, msg: MessageView)
    ensures
        message_of(Json::Object(members)) == Some(msg) <==> {
            &&& given(members, "jsonrpc"@) == Some(Json::String(msg.jsonrpc))
            &&& given_not_null(members, "id"@) == msg.id
            &&& given_not_null(members, "method"@) == match msg.method {
                Some(method) => Some(Json::String(method)),
                None => None,
            }
            &&& given_not_null(members, "params"@) == msg.params
            &&& given_not_null(members, "result"@) == msg.result
            &&& given_not_null(members, "error"@) is Some <==> msg.error is Some
            &&& given_not_null(members, "error"@) matches Some(error) ==> error_of(error)
                == msg.error
        },
{
}

/// A list of six is read as the message that has its items for fields, null items counting
/// as absent: `jsonrpc`, the id, the method, the params, the result and the error.
pub proof fn law_read_list(items: Seq<Json>, msg: MessageView)
    ensures
        message_of(Json::Array(items)) == Some(msg) <==> {
            &&& items.len() == 6
            &&& items[0] == Json::String(msg.jsonrpc)
            &&& msg.id == if items[1] == Json::Null {
                None
            } else {
                Some(items[1])
            }
            &&& items[2] == match msg.method {
                Some(method) => Json::String(method),
                None => Json::Null,
            }
            &&& msg.params == if items[3] == Json::Null {
                None
            } else {
                Some(items[3])
            }
            &&& msg.result == if items[4] == Json::Null {
                None
            } else {
                Some(items[4])
            }
            &&& items[5] == Json::Null <==> msg.error is None
            &&& items[5] != Json::Null ==> error_of(items[5]) == msg.error
        },
{
}

/// What is read of a message that was written differs from it only in null members.
pub proof fn law_only_nulls_are_lost(msg: MessageView)
    ensures
        without_nulls(msg).jsonrpc == msg.jsonrpc,
        without_nulls(msg).method == msg.method,
        without_nulls(msg).id == msg.id || msg.id == Some(Json::Null),
        without_nulls(msg).params == msg.params || msg.params == Some(Json::Null),
        without_nulls(msg).result == msg.result || msg.result == Some(Json::Null),
        msg.error is None ==> without_nulls(msg).error is None,
        msg.error matches Some(error) ==> without_nulls(msg).error matches Some(read) && read.code
            == error.code && read.message == error.message && (read.data == error.data || error.data
            == Some(Json::Null)),
{
}

/// Writing fails only with an error of the encoder, which was handed the message.
pub proof fn law_only_the_encoder_fails<E, F: FnOnce(&JsonValue) -> Result<Vec<u8>, E>>(
    msg: MessageView,
    encoder: F,
    error: E,
)
    requires
        may_write(msg, encoder, Err(error)),
    ensures
        exists|value: JsonValue|
            value@ == serialized(msg) && #[trigger] call_ensures(
                encoder,
                (&value,),
                Err::<Vec<u8>, E>(error),
            ),
{
    let value = choose|value: JsonValue| #[trigger]
        encodes(msg, encoder, value, Err::<Vec<u8>, E>(error));
    assert(value@ == serialized(msg) && call_ensures(
        encoder,
        (&value,),
        Err::<Vec<u8>, E>(error),
    ));
}

/// A broken frame is told of as such, and a body that is no message as that.
pub proof fn law_read_errors_are_told(error: ReadError)
    ensures
        error matches ReadError::Frame(broken) ==> error.message() == broken.message(),
        !(error is Frame) ==> error.message() == "deserializing JSON-RPC message"@,
{
}

} // verus!
