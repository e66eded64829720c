//! GitHub Copilot authentication handling.
//!
//! Three uses:
//! - after proxy initialisation, [`check_status_request`] asks for the status, and
//!   [`status_warning`] is the `window/showMessage` for a user who is not signed in;
//! - an [`AuthFlow`] that stops at the status, for programs that only ask for it;
//! - an [`AuthFlow`] that goes on to sign in: the interactive `--auth` CLI mode that
//!   walks the user through the GitHub device-flow OAuth dance.
//!
//! The caller sends the messages, prints the lines, and hands in what the language
//! server answers.

use vstd::prelude::*;

use crate::initializer;
use crate::initializer::{build_did_change_configuration, build_initialization_options};
use crate::json;
use crate::json::{str_of, Json, JsonValue, Object};
use crate::jsonrpc;
use crate::jsonrpc::{Message, MessageKind, MessageView};
use crate::text;
use crate::text::{concat, concat3, same_text, signed_decimal_text};
use crate::translator;
use crate::translator::TranslatorView;

verus! {

pub const CHECK_STATUS_REQUEST_ID: &'static str = "copilot-helix:auth:check-status";

pub const INITIALIZE_REQUEST_ID: &'static str = "copilot-helix:auth:initialize";

pub const SIGN_IN_REQUEST_ID: &'static str = "copilot-helix:auth:sign-in";

pub const EXECUTE_COMMAND_REQUEST_ID: &'static str = "copilot-helix:auth:execute-command";

/// How long the user has to complete the sign-in: 10 minutes.
pub const AUTH_TIMEOUT_SECONDS: u64 = 600;

/// The id of a request of the proxy's own.  It is a string, so no completion request,
/// whose ids are numbers, ever has it.
pub fn internal_request_id(name: &str) -> (r: JsonValue)
    ensures
        r@ == Json::String(name@),
{
    JsonValue::text(name)
}

// ── Status ──────────────────────────────────────────────────────────────────

/// Whether the user is signed in.
#[derive(Debug, PartialEq, Eq)]
pub enum AuthStatus {
    /// Signed in, under this name where it is known.
    Authenticated(Option<String>),
    /// Not signed in, with the status that the language server reports.
    Unauthenticated(String),
}

/// The mathematical value of an [`AuthStatus`].
pub enum AuthStatusView {
    Authenticated(Option<Seq<char>>),
    Unauthenticated(Seq<char>),
}

impl AuthStatus {
    pub open spec fn view(&self) -> AuthStatusView {
        match self {
            AuthStatus::Authenticated(user) => AuthStatusView::Authenticated(
                json::string_view(*user),
            ),
            AuthStatus::Unauthenticated(status) => AuthStatusView::Unauthenticated(status@),
        }
    }
}

impl Clone for AuthStatus {
    fn clone(&self) -> (r: AuthStatus)
        ensures
            r@ == self@,
    {
        match self {
            AuthStatus::Authenticated(Some(user)) => AuthStatus::Authenticated(Some(user.clone())),
            AuthStatus::Authenticated(None) => AuthStatus::Authenticated(None),
            AuthStatus::Unauthenticated(status) => AuthStatus::Unauthenticated(status.clone()),
        }
    }
}

/// Whether a reported status means that the user is signed in.
pub open spec fn is_signed_in(status: Seq<char>) -> bool {
    ||| status == "OK"@
    ||| status == "MaybeOK"@
    ||| status == "AlreadySignedIn"@
}

/// The text in a member of a reply, and `missing` where there is none.
pub open spec fn text_or(reply: Json, key: Seq<char>, missing: Seq<char>) -> Seq<char> {
    match json::text_of(reply.get(key)) {
        Some(text) => text,
        None => missing,
    }
}

/// What a reply to `checkStatus` says.
pub open spec fn classified(reply: Json) -> AuthStatusView {
    let status = text_or(reply, "status"@, "Unknown"@);
    if is_signed_in(status) {
        AuthStatusView::Authenticated(json::text_of(reply.get("user"@)))
    } else {
        AuthStatusView::Unauthenticated(status)
    }
}

/// Reads a reply to `checkStatus`.
pub fn classify_status(status: &JsonValue) -> (r: AuthStatus)
    ensures
        r@ == classified(status@),
{
    let reported = member_text(status, "status", "Unknown");
    if same_text(reported, "OK") || same_text(reported, "MaybeOK") || same_text(
        reported,
        "AlreadySignedIn",
    ) {
        match str_of(status.get("user")) {
            Some(user) => AuthStatus::Authenticated(Some(user.to_owned())),
            None => AuthStatus::Authenticated(None),
        }
    } else {
        AuthStatus::Unauthenticated(reported.to_owned())
    }
}

fn member_text<'a>(reply: &'a JsonValue, key: &str, missing: &'a str) -> (r: &'a str)
    ensures
        r@ == text_or(reply@, key@, missing@),
{
    match str_of(reply.get(key)) {
        Some(text) => text,
        None => missing,
    }
}

/// The `checkStatus` request.
pub open spec fn check_status(local_checks_only: bool) -> MessageView {
    let options = json::no_members().insert("localChecksOnly"@, Json::Bool(local_checks_only));
    jsonrpc::request_view(
        Json::String("copilot-helix:auth:check-status"@),
        "checkStatus"@,
        Json::Object(json::no_members().insert("options"@, Json::Object(options))),
    )
}

/// Builds the `checkStatus` request.
pub fn check_status_request(local_checks_only: bool) -> (r: Message)
    ensures
        r@ == check_status(local_checks_only),
{
    let options = Object::new().with("localChecksOnly", JsonValue::Bool(local_checks_only));
    Message::request_with_id(
        internal_request_id(CHECK_STATUS_REQUEST_ID),
        "checkStatus",
        JsonValue::Object(Object::new().with("options", JsonValue::Object(options))),
    )
}

/// The warning that Helix shows to a user who is not signed in.
pub open spec fn warning() -> MessageView {
    jsonrpc::notification_view(
        "window/showMessage"@,
        Json::Object(
            json::no_members().insert("type"@, json::int_json(2)).insert(
                "message"@,
                Json::String("GitHub Copilot: not authenticated. Run: copilot-helix --auth"@),
            ),
        ),
    )
}

/// The message that Helix gets for a status: a warning when the user is not signed in.
pub fn status_warning(status: &AuthStatus) -> (r: Option<Message>)
    ensures
        match r {
            Some(msg) => status is Unauthenticated && msg@ == warning(),
            None => status is Authenticated,
        },
{
    match status {
        AuthStatus::Authenticated(_) => None,
        AuthStatus::Unauthenticated(_) => Some(
            Message::notification(
                "window/showMessage",
                JsonValue::Object(
                    Object::new().with(
                        "type",
                        // Warning
                        JsonValue::unsigned(2),
                    ).with(
                        "message",
                        JsonValue::text(
                            "GitHub Copilot: not authenticated. Run: copilot-helix --auth",
                        ),
                    ),
                ),
            ),
        ),
    }
}

// ── Waiting for a response ──────────────────────────────────────────────────

/// What a message means to one who waits for a response.
pub enum Reply {
    /// It is the response, with this result.
    Done(JsonValue),
    /// It is the response, and tells of an error.
    Failed(i64, String),
    /// It is a notification for Helix.
    Forward(Message),
    /// It is nothing of interest.
    Ignored,
}

/// The mathematical value of a [`Reply`].
pub enum ReplyView {
    Done(Json),
    Failed(i64, Seq<char>),
    Forward(MessageView),
    Ignored,
}

impl Reply {
    pub open spec fn view(&self) -> ReplyView {
        match self {
            Reply::Done(result) => ReplyView::Done(result@),
            Reply::Failed(code, message) => ReplyView::Failed(*code, message@),
            Reply::Forward(msg) => ReplyView::Forward(msg@),
            Reply::Ignored => ReplyView::Ignored,
        }
    }
}

/// Whether a message is the response to the request with an id.
pub open spec fn responds_to(msg: MessageView, request_id: Json) -> bool {
    msg.kind() == MessageKind::Response && json::json_eq(msg.id->0, request_id)
}

/// What a message means to one who waits for the response to a request, and forwards
/// notifications to Helix when `forwarding`.
pub open spec fn reply(request_id: Json, msg: MessageView, forwarding: bool) -> ReplyView {
    if responds_to(msg, request_id) {
        match (msg.error, msg.result) {
            (Some(error), _) => ReplyView::Failed(error.code, error.message),
            (None, Some(result)) => ReplyView::Done(result),
            (None, None) => ReplyView::Done(Json::Null),
        }
    } else if msg.kind() == MessageKind::Notification && forwarding {
        ReplyView::Forward(msg)
    } else {
        ReplyView::Ignored
    }
}

/// Decides what a message means to one who waits for the response to a request.
///
/// When `forwarding`, any notifications received while waiting go to Helix rather than
/// being discarded.  Unrelated responses would confuse Helix because it never sent the
/// corresponding request.
pub fn await_response(request_id: &JsonValue, msg: Message, forwarding: bool) -> (r: Reply)
    ensures
        r@ == reply(request_id@, msg@, forwarding),
{
    let answers: bool = match (&msg.id, &msg.method) {
        (Some(id), None) => id.same(request_id),
        _ => false,
    };
    if answers {
        let Message { result, error, .. } = msg;
        match error {
            Some(error) => Reply::Failed(error.code, error.message),
            None => match result {
                Some(result) => Reply::Done(result),
                None => Reply::Done(JsonValue::Null),
            },
        }
    } else if forwarding && msg.is_notification() {
        Reply::Forward(msg)
    } else {
        Reply::Ignored
    }
}

// ── Errors ──────────────────────────────────────────────────────────────────

/// Why authentication fails.
#[derive(Debug)]
pub enum AuthError {
    /// The language server answered with an error.
    Rpc(i64, String),
    /// The reply to `signIn` has no address to open.
    MissingVerificationUri,
    /// The reply to `signIn` has no code to enter.
    MissingUserCode,
    /// The language server is gone.
    Closed,
    /// The user did not complete the sign-in in time.
    TimedOut,
}

/// The mathematical value of an [`AuthError`].
pub enum AuthErrorView {
    Rpc(i64, Seq<char>),
    MissingVerificationUri,
    MissingUserCode,
    Closed,
    TimedOut,
}

impl AuthError {
    pub open spec fn view(&self) -> AuthErrorView {
        match self {
            AuthError::Rpc(code, message) => AuthErrorView::Rpc(*code, message@),
            AuthError::MissingVerificationUri => AuthErrorView::MissingVerificationUri,
            AuthError::MissingUserCode => AuthErrorView::MissingUserCode,
            AuthError::Closed => AuthErrorView::Closed,
            AuthError::TimedOut => AuthErrorView::TimedOut,
        }
    }

    /// Says in words what went wrong.
    pub fn description(&self) -> (r: String)
        ensures
            r@ == self@.message(),
    {
        match self {
            AuthError::Rpc(code, message) => {
                let number = signed_decimal_text(*code);
                let start = concat3("RPC error ", number.as_str(), ": ");
                concat(start.as_str(), message.as_str())
            },
            AuthError::MissingVerificationUri => "signIn response missing verificationUri".to_owned(),
            AuthError::MissingUserCode => "signIn response missing userCode".to_owned(),
            AuthError::Closed => "upstream closed while waiting for response".to_owned(),
            AuthError::TimedOut => "authentication timed out after 10 minutes".to_owned(),
        }
    }
}

impl AuthErrorView {
    pub open spec fn message(self) -> Seq<char> {
        match self {
            AuthErrorView::Rpc(code, message) => "RPC error "@ + text::signed_decimal(code as int)
                + ": "@ + message,
            AuthErrorView::MissingVerificationUri => "signIn response missing verificationUri"@,
            AuthErrorView::MissingUserCode => "signIn response missing userCode"@,
            AuthErrorView::Closed => "upstream closed while waiting for response"@,
            AuthErrorView::TimedOut => "authentication timed out after 10 minutes"@,
        }
    }
}

// ── Messages of the flow ────────────────────────────────────────────────────

/// The `initialize` request of a program that is no editor.
pub open spec fn initialize() -> MessageView {
    let dynamic = json::no_members().insert("dynamicRegistration"@, Json::Bool(true));
    let workspace = json::no_members().insert("didChangeConfiguration"@, Json::Object(dynamic));
    let capabilities = json::no_members().insert("workspace"@, Json::Object(workspace));
    jsonrpc::request_view(
        Json::String("copilot-helix:auth:initialize"@),
        "initialize"@,
        Json::Object(
            json::no_members().insert("capabilities"@, Json::Object(capabilities)).insert(
                "initializationOptions"@,
                initializer::initialization_options("unknown"@),
            ),
        ),
    )
}

/// Builds the `initialize` request of a program that is no editor.
pub fn initialize_request() -> (r: Message)
    ensures
        r@ == initialize(),
{
    let dynamic = Object::new().with("dynamicRegistration", JsonValue::Bool(true));
    let workspace = Object::new().with("didChangeConfiguration", JsonValue::Object(dynamic));
    let capabilities = Object::new().with("workspace", JsonValue::Object(workspace));
    Message::request_with_id(
        internal_request_id(INITIALIZE_REQUEST_ID),
        "initialize",
        JsonValue::Object(
            Object::new().with("capabilities", JsonValue::Object(capabilities)).with(
                "initializationOptions",
                build_initialization_options("unknown"),
            ),
        ),
    )
}

/// The notification that ends the initialisation.
pub open spec fn initialized() -> MessageView {
    jsonrpc::notification_view("initialized"@, Json::Object(json::no_members()))
}

/// The request that starts the device flow.
pub open spec fn sign_in() -> MessageView {
    jsonrpc::request_view(
        Json::String("copilot-helix:auth:sign-in"@),
        "signIn"@,
        Json::Object(json::no_members()),
    )
}

/// The request that has the language server wait for the user.
pub open spec fn execute_command(command: Json) -> MessageView {
    jsonrpc::request_view(
        Json::String("copilot-helix:auth:execute-command"@),
        "workspace/executeCommand"@,
        command,
    )
}

// ── Sign-in ─────────────────────────────────────────────────────────────────

/// What a reply to `signIn` asks for.
pub enum SignIn {
    /// Nothing: the user is signed in under this name.
    Already(String),
    /// The user must open an address and enter a code, and the command must be run.
    Pending { verification_uri: String, user_code: String, command: JsonValue },
}

/// The mathematical value of a [`SignIn`].
pub enum SignInView {
    Already(Seq<char>),
    Pending { verification_uri: Seq<char>, user_code: Seq<char>, command: Json },
}

impl SignIn {
    pub open spec fn view(&self) -> SignInView {
        match self {
            SignIn::Already(user) => SignInView::Already(user@),
            SignIn::Pending { verification_uri, user_code, command } => SignInView::Pending {
                verification_uri: verification_uri@,
                user_code: user_code@,
                command: command@,
            },
        }
    }
}

/// What a reply to `signIn` asks for.  The address and the code must be there, also
/// when the user turns out to be signed in.
pub open spec fn sign_in_reply(reply: Json) -> Result<SignInView, AuthErrorView> {
    match (json::text_of(reply.get("verificationUri"@)), json::text_of(reply.get("userCode"@))) {
        (None, _) => Err(AuthErrorView::MissingVerificationUri),
        (Some(_), None) => Err(AuthErrorView::MissingUserCode),
        (Some(verification_uri), Some(user_code)) => if json::text_of(reply.get("status"@)) == Some(
            "AlreadySignedIn"@,
        ) {
            Ok(SignInView::Already(text_or(reply, "user"@, "?"@)))
        } else {
            Ok(
                SignInView::Pending {
                    verification_uri,
                    user_code,
                    command: match reply.get("command"@) {
                        Some(command) => command,
                        None => Json::Null,
                    },
                },
            )
        },
    }
}

/// Reads a reply to `signIn`.
pub fn read_sign_in(reply: &JsonValue) -> (r: Result<SignIn, AuthError>)
    ensures
        match r {
            Ok(sign_in) => sign_in_reply(reply@) == Ok::<SignInView, AuthErrorView>(sign_in@),
            Err(error) => sign_in_reply(reply@) == Err::<SignInView, AuthErrorView>(error@),
        },
{
    let verification_uri = match str_of(reply.get("verificationUri")) {
        Some(uri) => uri,
        None => return Err(AuthError::MissingVerificationUri),
    };
    let user_code = match str_of(reply.get("userCode")) {
        Some(code) => code,
        None => return Err(AuthError::MissingUserCode),
    };
    let signed_in = match str_of(reply.get("status")) {
        Some(status) => same_text(status, "AlreadySignedIn"),
        None => false,
    };
    if signed_in {
        return Ok(SignIn::Already(member_text(reply, "user", "?").to_owned()));
    }
    let command = match reply.get("command") {
        Some(command) => command.clone(),
        None => JsonValue::Null,
    };
    Ok(
        SignIn::Pending {
            verification_uri: verification_uri.to_owned(),
            user_code: user_code.to_owned(),
            command,
        },
    )
}

// ── Flow ────────────────────────────────────────────────────────────────────

/// What a flow waits for.
#[derive(Debug, Clone, Copy, PartialEq, Eq, Structural)]
pub enum Stage {
    /// For the response to `initialize`.
    Initializing,
    /// For the response to `checkStatus`.
    CheckingStatus,
    /// For the response to `signIn`.
    SigningIn,
    /// For the user, at most [`AUTH_TIMEOUT_SECONDS`].
    Confirming,
    /// For nothing: the flow is complete.
    Finished,
}

/// What the caller of a flow has to do.
pub enum AuthAction {
    /// Send a message to the language server.
    Send(Message),
    /// Print a line to the standard output.
    Print(String),
    /// Print a line to the standard error.
    Explain(String),
}

/// The mathematical value of an [`AuthAction`].
pub enum AuthActionView {
    Send(MessageView),
    Print(Seq<char>),
    Explain(Seq<char>),
}

impl AuthAction {
    pub open spec fn view(&self) -> AuthActionView {
        match self {
            AuthAction::Send(msg) => AuthActionView::Send(msg@),
            AuthAction::Print(line) => AuthActionView::Print(line@),
            AuthAction::Explain(line) => AuthActionView::Explain(line@),
        }
    }
}

/// The mathematical value of a list of actions.
pub open spec fn actions_view(actions: Seq<AuthAction>) -> Seq<AuthActionView> {
    actions.map_values(|action: AuthAction| action@)
}

/// An authentication flow under way.
pub struct AuthFlow {
    stage: Stage,
    signing_in: bool,
    status: Option<AuthStatus>,
}

/// The mathematical value of an [`AuthFlow`].
pub struct AuthFlowView {
    pub stage: Stage,
    /// Whether the flow goes on to sign in.
    pub signing_in: bool,
    /// What the language server said of the user, once it has.
    pub status: Option<AuthStatusView>,
}

/// A flow that waits for the response to `initialize`.
pub open spec fn started(signing_in: bool) -> AuthFlowView {
    AuthFlowView { stage: Stage::Initializing, signing_in, status: None }
}

/// The id of the request whose response a flow waits for.
pub open spec fn awaited_id(stage: Stage) -> Json {
    Json::String(
        match stage {
            Stage::Initializing => "copilot-helix:auth:initialize"@,
            Stage::CheckingStatus => "copilot-helix:auth:check-status"@,
            Stage::SigningIn => "copilot-helix:auth:sign-in"@,
            _ => "copilot-helix:auth:execute-command"@,
        },
    )
}

/// The line for a user who is signed in before the flow starts.
pub open spec fn already_line(user: Option<Seq<char>>) -> Seq<char> {
    match user {
        Some(user) => "Already authenticated as GitHub user "@ + user,
        None => "Already authenticated with GitHub Copilot"@,
    }
}

/// The line for a user who has signed in.
pub open spec fn done_line(user: Seq<char>) -> Seq<char> {
    "Authenticated as GitHub user "@ + user
}

/// The lines that tell the user what to do.
pub open spec fn prompt(verification_uri: Seq<char>, user_code: Seq<char>) -> Seq<AuthActionView> {
    seq![
        AuthActionView::Explain("Open this URL in your browser:"@),
        AuthActionView::Explain("  "@ + verification_uri),
        AuthActionView::Explain(""@),
        AuthActionView::Explain("Enter this code when prompted:"@),
        AuthActionView::Explain("  "@ + user_code),
        AuthActionView::Explain(""@),
        AuthActionView::Explain("Waiting for authentication…"@),
    ]
}

/// One step of a flow: where it leads and what the caller has to do.
pub struct FlowStep {
    pub flow: AuthFlowView,
    pub actions: Seq<AuthActionView>,
}

/// The step of a flow whose response came with a result.
pub open spec fn flow_result(flow: AuthFlowView, result: Json) -> Result<FlowStep, AuthErrorView> {
    match flow.stage {
        Stage::Initializing => Ok(
            FlowStep {
                flow: AuthFlowView { stage: Stage::CheckingStatus, ..flow },
                actions: seq![
                    AuthActionView::Send(initialized()),
                    AuthActionView::Send(initializer::did_change_configuration()),
                    AuthActionView::Send(check_status(false)),
                ],
            },
        ),
        Stage::CheckingStatus => {
            let status = classified(result);
            let known = AuthFlowView { status: Some(status), stage: Stage::Finished, ..flow };
            match status {
                _ if !flow.signing_in => Ok(FlowStep { flow: known, actions: seq![] }),
                AuthStatusView::Authenticated(user) => Ok(
                    FlowStep {
                        flow: known,
                        actions: seq![AuthActionView::Print(already_line(user))],
                    },
                ),
                AuthStatusView::Unauthenticated(_) => Ok(
                    FlowStep {
                        flow: AuthFlowView { stage: Stage::SigningIn, ..known },
                        actions: seq![AuthActionView::Send(sign_in())],
                    },
                ),
            }
        },
        Stage::SigningIn => match sign_in_reply(result) {
            Err(error) => Err(error),
            Ok(SignInView::Already(user)) => Ok(
                FlowStep {
                    flow: AuthFlowView { stage: Stage::Finished, ..flow },
                    actions: seq![AuthActionView::Print(done_line(user))],
                },
            ),
            Ok(SignInView::Pending { verification_uri, user_code, command }) => Ok(
                FlowStep {
                    flow: AuthFlowView { stage: Stage::Confirming, ..flow },
                    actions: prompt(verification_uri, user_code).push(
                        AuthActionView::Send(execute_command(command)),
                    ),
                },
            ),
        },
        _ => Ok(
            FlowStep {
                flow: AuthFlowView { stage: Stage::Finished, ..flow },
                actions: seq![AuthActionView::Print(done_line(text_or(result, "user"@, "?"@)))],
            },
        ),
    }
}

/// The step of a flow for a message from the language server.
pub open spec fn flow_step(flow: AuthFlowView, msg: MessageView) -> Result<FlowStep, AuthErrorView> {
    match reply(awaited_id(flow.stage), msg, false) {
        ReplyView::Done(result) => flow_result(flow, result),
        ReplyView::Failed(code, message) => Err(AuthErrorView::Rpc(code, message)),
        _ => Ok(FlowStep { flow, actions: seq![] }),
    }
}

impl AuthFlow {
    pub closed spec fn view(&self) -> AuthFlowView {
        AuthFlowView {
            stage: self.stage,
            signing_in: self.signing_in,
            status: match self.status {
                Some(status) => Some(status@),
                None => None,
            },
        }
    }

    /// Starts a flow that stops at the status or, when `signing_in`, goes on to sign in.
    /// The message opens the conversation with the language server.
    pub fn start(signing_in: bool) -> (r: (AuthFlow, Message))
        ensures
            r.0@ == started(signing_in),
            r.1@ == initialize(),
    {
        (
            AuthFlow { stage: Stage::Initializing, signing_in, status: None },
            initialize_request(),
        )
    }

    /// What the flow waits for.
    pub fn stage(&self) -> (r: Stage)
        ensures
            r == self@.stage,
    {
        self.stage
    }

    /// What the language server said of the user, once it has.
    pub fn into_status(self) -> (r: Option<AuthStatus>)
        ensures
            match r {
                Some(status) => self@.status == Some(status@),
                None => self@.status is None,
            },
    {
        self.status
    }

    /// Takes a message from the language server and says what to do.
    pub fn on_message(&mut self, msg: Message) -> (r: Result<Vec<AuthAction>, AuthError>)
        requires
            old(self)@.stage != Stage::Finished,
        ensures
            match (r, flow_step(old(self)@, msg@)) {
                (Ok(actions), Ok(step)) => actions_view(actions@) == step.actions && final(self)@
                    == step.flow,
                (Err(error), Err(expected)) => error@ == expected && final(self)@ == old(self)@,
                _ => false,
            },
    {
        let id = match self.stage {
            Stage::Initializing => INITIALIZE_REQUEST_ID,
            Stage::CheckingStatus => CHECK_STATUS_REQUEST_ID,
            Stage::SigningIn => SIGN_IN_REQUEST_ID,
            _ => EXECUTE_COMMAND_REQUEST_ID,
        };
        match await_response(&internal_request_id(id), msg, false) {
            Reply::Done(result) => self.on_result(&result),
            Reply::Failed(code, message) => Err(AuthError::Rpc(code, message)),
            _ => {
                let actions: Vec<AuthAction> = Vec::new();
                assert(actions_view(actions@) =~= seq![]);
                Ok(actions)
            },
        }
    }

    fn on_result(&mut self, result: &JsonValue) -> (r: Result<Vec<AuthAction>, AuthError>)
        requires
            old(self)@.stage != Stage::Finished,
        ensures
            match (r, flow_result(old(self)@, result@)) {
                (Ok(actions), Ok(step)) => actions_view(actions@) == step.actions && final(self)@
                    == step.flow,
                (Err(error), Err(expected)) => error@ == expected && final(self)@ == old(self)@,
                _ => false,
            },
    {
        match self.stage {
            Stage::Initializing => {
                let mut actions: Vec<AuthAction> = Vec::new();
                actions.push(
                    AuthAction::Send(
                        Message::notification("initialized", JsonValue::Object(Object::new())),
                    ),
                );
                actions.push(AuthAction::Send(build_did_change_configuration()));
                actions.push(AuthAction::Send(check_status_request(false)));
                self.stage = Stage::CheckingStatus;
                assert(actions_view(actions@) =~= flow_result(old(self)@, result@)->Ok_0.actions);
                Ok(actions)
            },
            Stage::CheckingStatus => Ok(self.on_status(classify_status(result))),
            Stage::SigningIn => match read_sign_in(result) {
                Err(error) => Err(error),
                Ok(SignIn::Already(user)) => {
                    self.stage = Stage::Finished;
                    Ok(done(user.as_str()))
                },
                Ok(SignIn::Pending { verification_uri, user_code, command }) => {
                    let mut actions = prompt_lines(verification_uri.as_str(), user_code.as_str());
                    let ghost lines = actions@;
                    actions.push(
                        AuthAction::Send(
                            Message::request_with_id(
                                internal_request_id(EXECUTE_COMMAND_REQUEST_ID),
                                "workspace/executeCommand",
                                command,
                            ),
                        ),
                    );
                    self.stage = Stage::Confirming;
                    assert(actions_view(actions@) =~= actions_view(lines).push(
                        AuthActionView::Send(execute_command(command@)),
                    ));
                    Ok(actions)
                },
            },
            _ => {
                self.stage = Stage::Finished;
                Ok(done(member_text(result, "user", "?")))
            },
        }
    }

    fn on_status(&mut self, status: AuthStatus) -> (r: Vec<AuthAction>)
        requires
            old(self)@.stage == Stage::CheckingStatus,
        ensures
            final(self)@ == (AuthFlowView {
                status: Some(status@),
                stage: if old(self)@.signing_in && status is Unauthenticated {
                    Stage::SigningIn
                } else {
                    Stage::Finished
                },
                ..old(self)@
            }),
            actions_view(r@) == match status@ {
                _ if !old(self)@.signing_in => seq![],
                AuthStatusView::Authenticated(user) => seq![
                    AuthActionView::Print(already_line(user)),
                ],
                AuthStatusView::Unauthenticated(_) => seq![AuthActionView::Send(sign_in())],
            },
    {
        let mut actions: Vec<AuthAction> = Vec::new();
        self.stage = Stage::Finished;
        if self.signing_in {
            match &status {
                AuthStatus::Authenticated(Some(user)) => actions.push(
                    AuthAction::Print(
                        concat("Already authenticated as GitHub user ", user.as_str()),
                    ),
                ),
                AuthStatus::Authenticated(None) => actions.push(
                    AuthAction::Print("Already authenticated with GitHub Copilot".to_owned()),
                ),
                AuthStatus::Unauthenticated(_) => {
                    // Kick off the device flow.
                    actions.push(
                        AuthAction::Send(
                            Message::request_with_id(
                                internal_request_id(SIGN_IN_REQUEST_ID),
                                "signIn",
                                JsonValue::Object(Object::new()),
                            ),
                        ),
                    );
                    self.stage = Stage::SigningIn;
                },
            }
        }
        assert(actions_view(actions@) =~= match status@ {
            _ if !old(self)@.signing_in => seq![],
            AuthStatusView::Authenticated(user) => seq![AuthActionView::Print(already_line(user))],
            AuthStatusView::Unauthenticated(_) => seq![AuthActionView::Send(sign_in())],
        });
        self.status = Some(status);
        actions
    }
}

fn done(user: &str) -> (r: Vec<AuthAction>)
    ensures
        actions_view(r@) == seq![AuthActionView::Print(done_line(user@))],
{
    let mut actions: Vec<AuthAction> = Vec::new();
    actions.push(AuthAction::Print(concat("Authenticated as GitHub user ", user)));
    assert(actions_view(actions@) =~= seq![AuthActionView::Print(done_line(user@))]);
    actions
}

fn prompt_lines(verification_uri: &str, user_code: &str) -> (r: Vec<AuthAction>)
    ensures
        actions_view(r@) == prompt(verification_uri@, user_code@),
{
    let mut lines: Vec<AuthAction> = Vec::new();
    lines.push(AuthAction::Explain("Open this URL in your browser:".to_owned()));
    lines.push(AuthAction::Explain(concat("  ", verification_uri)));
    lines.push(AuthAction::Explain("".to_owned()));
    lines.push(AuthAction::Explain("Enter this code when prompted:".to_owned()));
    lines.push(AuthAction::Explain(concat("  ", user_code)));
    lines.push(AuthAction::Explain("".to_owned()));
    lines.push(AuthAction::Explain("Waiting for authentication…".to_owned()));
    assert(actions_view(lines@) =~= prompt(verification_uri@, user_code@));
    lines
}

// ── Laws ────────────────────────────────────────────────────────────────────

/// Only notifications reach Helix while a response is awaited; a response to any other
/// request is left alone.
pub proof fn law_only_notifications_are_forwarded(
    request_id: Json,
    msg: MessageView,
    forwarding: bool,
)
    requires
        !responds_to(msg, request_id),
    ensures
        reply(request_id, msg, forwarding) == if forwarding && msg.kind()
            == MessageKind::Notification {
            ReplyView::Forward(msg)
        } else {
            ReplyView::Ignored
        },
        msg.kind() == MessageKind::Response ==> reply(request_id, msg, forwarding)
            == ReplyView::Ignored,
{
}

/// Every request of this module is answered by a response with its own id.
pub proof fn law_requests_are_answerable(request: MessageView, response: MessageView)
    requires
        request.id is Some,
        response.kind() == MessageKind::Response,
        response.id == request.id,
    ensures
        responds_to(response, request.id->0),
{
    json::law_json_eq_reflexive(request.id->0);
}

/// The response to a request of a flow is never taken for that of a completion.
pub proof fn law_flow_responses_are_no_completions(
    stage: Stage,
    msg: MessageView,
    state: TranslatorView,
)
    requires
        responds_to(msg, awaited_id(stage)),
    ensures
        !translator::names_pending(state, msg),
{
}

/// The response to the request of one stage is nothing to any other stage.
pub proof fn law_stages_wait_for_different_ids(first: Stage, second: Stage, msg: MessageView)
    requires
        first != Stage::Finished,
        second != Stage::Finished,
        responds_to(msg, awaited_id(first)),
        responds_to(msg, awaited_id(second)),
    ensures
        first == second,
{
    reveal_strlit("copilot-helix:auth:initialize");
    reveal_strlit("copilot-helix:auth:check-status");
    reveal_strlit("copilot-helix:auth:sign-in");
    reveal_strlit("copilot-helix:auth:execute-command");
    assert("copilot-helix:auth:initialize"@.len() == 29);
    assert("copilot-helix:auth:check-status"@.len() == 31);
    assert("copilot-helix:auth:sign-in"@.len() == 26);
    assert("copilot-helix:auth:execute-command"@.len() == 34);
}

/// A flow stays as it is until its response comes, and there is nothing to do.
pub proof fn law_flow_waits_for_its_response(flow: AuthFlowView, msg: MessageView)
    requires
        !responds_to(msg, awaited_id(flow.stage)),
    ensures
        flow_step(flow, msg) == Ok::<FlowStep, AuthErrorView>(FlowStep { flow, actions: seq![] }),
{
}

/// A flow that only asks for the status finishes with what the language server says,
/// after one response to `initialize` and one to `checkStatus`.
pub proof fn law_status_flow_finishes(opened: MessageView, checked: MessageView)
    requires
        responds_to(opened, initialize().id->0),
        opened.error is None,
        responds_to(checked, check_status(false).id->0),
        checked.error is None,
    ensures
        flow_step(started(false), opened) is Ok,
        ({
            let flow = flow_step(started(false), opened)->Ok_0.flow;
            let result = match checked.result {
                Some(result) => result,
                None => Json::Null,
            };
            flow_step(flow, checked) == Ok::<FlowStep, AuthErrorView>(
                FlowStep {
                    flow: AuthFlowView {
                        stage: Stage::Finished,
                        signing_in: false,
                        status: Some(classified(result)),
                    },
                    actions: seq![],
                },
            )
        }),
{
}

/// A user who is signed in already is told so, and nothing is asked of them.
pub proof fn law_signed_in_user_is_not_asked(flow: AuthFlowView, checked: MessageView, result: Json)
    requires
        flow.stage == Stage::CheckingStatus,
        flow.signing_in,
        responds_to(checked, check_status(false).id->0),
        checked.error is None,
        checked.result == Some(result),
        is_signed_in(text_or(result, "status"@, "Unknown"@)),
    ensures
        flow_step(flow, checked) is Ok,
        flow_step(flow, checked)->Ok_0.flow.stage == Stage::Finished,
        flow_step(flow, checked)->Ok_0.actions == seq![
            AuthActionView::Print(already_line(json::text_of(result.get("user"@)))),
        ],
{
}

/// The device flow: a user who is not signed in is shown the address and the code of
/// the reply to `signIn`, its command is run, and the user of the response is named.
pub proof fn law_device_flow_finishes(
    flow: AuthFlowView,
    asked: MessageView,
    answer: Json,
    confirmed: MessageView,
    result: Json,
)
    requires
        flow.stage == Stage::SigningIn,
        responds_to(asked, sign_in().id->0),
        asked.error is None,
        asked.result == Some(answer),
        json::text_of(answer.get("verificationUri"@)) is Some,
        json::text_of(answer.get("userCode"@)) is Some,
        json::text_of(answer.get("status"@)) != Some("AlreadySignedIn"@),
        responds_to(confirmed, Json::String("copilot-helix:auth:execute-command"@)),
        confirmed.error is None,
        confirmed.result == Some(result),
    ensures
        flow_step(flow, asked) is Ok,
        ({
            let waiting = flow_step(flow, asked)->Ok_0;
            let command = match answer.get("command"@) {
                Some(command) => command,
                None => Json::Null,
            };
            &&& waiting.actions == prompt(
                json::text_of(answer.get("verificationUri"@))->0,
                json::text_of(answer.get("userCode"@))->0,
            ).push(AuthActionView::Send(execute_command(command)))
            &&& waiting.flow.stage == Stage::Confirming
            &&& flow_step(waiting.flow, confirmed) == Ok::<FlowStep, AuthErrorView>(
                FlowStep {
                    flow: AuthFlowView { stage: Stage::Finished, ..flow },
                    actions: seq![AuthActionView::Print(done_line(text_or(result, "user"@, "?"@)))],
                },
            )
        }),
{
}

/// An error of the language server ends any stage of a flow, in the server's words.
pub proof fn law_server_errors_end_a_flow(flow: AuthFlowView, msg: MessageView)
    requires
        responds_to(msg, awaited_id(flow.stage)),
        msg.error is Some,
    ensures
        flow_step(flow, msg) == Err::<FlowStep, AuthErrorView>(
            AuthErrorView::Rpc(msg.error->0.code, msg.error->0.message),
        ),
{
}

/// The user is signed in when the language server reports one of three statuses, under the
/// name that it reports, if any; any other status is reported as it is, and a missing one
/// as unknown.
pub proof fn law_statuses(reply: Json)
    ensures
        ({
            let status = json::text_of(reply.get("status"@));
            let user = json::text_of(reply.get("user"@));
            if status == Some("OK"@) || status == Some("MaybeOK"@) || status == Some(
                "AlreadySignedIn"@,
            ) {
                classified(reply) == AuthStatusView::Authenticated(user)
            } else {
                classified(reply) == AuthStatusView::Unauthenticated(
                    match status {
                        Some(status) => status,
                        None => "Unknown"@,
                    },
                )
            }
        }),
{
    reveal_strlit("Unknown");
    reveal_strlit("OK");
    reveal_strlit("MaybeOK");
    reveal_strlit("AlreadySignedIn");
    assert("Unknown"@.len() == 7 && "OK"@.len() == 2 && "AlreadySignedIn"@.len() == 15);
    assert("Unknown"@[0] == 'U' && "MaybeOK"@[0] == 'M');
}

/// A message answers a request when it has its id and no method.
pub proof fn law_responses_have_the_id(msg: MessageView, request_id: Json)
    ensures
        responds_to(msg, request_id) <==> msg.method is None && (msg.id matches Some(id)
            && json::json_eq(id, request_id)),
{
}

/// The answer to a request is its result, null when it has none, unless it is an error.
/// Other notifications go to Helix where they are forwarded, and nothing else does.
pub proof fn law_replies(request_id: Json, msg: MessageView, forwarding: bool)
    ensures
        responds_to(msg, request_id) && msg.error is Some ==> reply(request_id, msg, forwarding)
            == ReplyView::Failed(msg.error->0.code, msg.error->0.message),
        responds_to(msg, request_id) && msg.error is None && msg.result is Some ==> reply(
            request_id,
            msg,
            forwarding,
        ) == ReplyView::Done(msg.result->0),
        responds_to(msg, request_id) && msg.error is None && msg.result is None ==> reply(
            request_id,
            msg,
            forwarding,
        ) == ReplyView::Done(Json::Null),
        msg.id is None && forwarding ==> reply(request_id, msg, forwarding) == ReplyView::Forward(
            msg,
        ),
        !responds_to(msg, request_id) && (msg.id is Some || !forwarding) ==> reply(
            request_id,
            msg,
            forwarding,
        ) == ReplyView::Ignored,
{
}

/// Each request of a flow has the id that its stage waits for.
pub proof fn law_stages_wait_for_their_requests(local_checks_only: bool, command: Json)
    ensures
        initialize().id == Some(awaited_id(Stage::Initializing)),
        check_status(local_checks_only).id == Some(awaited_id(Stage::CheckingStatus)),
        sign_in().id == Some(awaited_id(Stage::SigningIn)),
        execute_command(command).id == Some(awaited_id(Stage::Confirming)),
        awaited_id(Stage::Initializing) == Json::String("copilot-helix:auth:initialize"@),
        awaited_id(Stage::CheckingStatus) == Json::String("copilot-helix:auth:check-status"@),
        awaited_id(Stage::SigningIn) == Json::String("copilot-helix:auth:sign-in"@),
        awaited_id(Stage::Confirming) == Json::String("copilot-helix:auth:execute-command"@),
{
}

/// The status is asked for with the option that is given; signing in is asked for without
/// any; and the command to run is the one that is given, unchanged.
pub proof fn law_requests_carry_their_params(local_checks_only: bool, command: Json)
    ensures
        check_status(local_checks_only).method == Some("checkStatus"@),
        json::member(
            json::member(check_status(local_checks_only).params, "options"@),
            "localChecksOnly"@,
        ) == Some(Json::Bool(local_checks_only)),
        sign_in().method == Some("signIn"@),
        sign_in().params == Some(Json::Object(Map::empty())),
        execute_command(command).method == Some("workspace/executeCommand"@),
        execute_command(command).params == Some(command),
        initialize().method == Some("initialize"@),
        json::member(initialize().params, "initializationOptions"@) == Some(
            initializer::initialization_options("unknown"@),
        ),
        initialized().method == Some("initialized"@),
        initialized().params == Some(Json::Object(Map::empty())),
        initialized().id is None,
{
    reveal_strlit("capabilities");
    reveal_strlit("initializationOptions");
    assert("capabilities"@.len() == 12 && "initializationOptions"@.len() == 21);
}

/// A reply to `signIn` without an address or without a code is an error, the address first;
/// a user who is signed in is named; and else the address, the code and the command are
/// those of the reply, the command null when there is none.
pub proof fn law_sign_in_replies(reply: Json)
    ensures
        json::text_of(reply.get("verificationUri"@)) is None ==> sign_in_reply(reply) == Err::<
            SignInView,
            AuthErrorView,
        >(AuthErrorView::MissingVerificationUri),
        json::text_of(reply.get("verificationUri"@)) is Some && json::text_of(
            reply.get("userCode"@),
        ) is None ==> sign_in_reply(reply) == Err::<SignInView, AuthErrorView>(
            AuthErrorView::MissingUserCode,
        ),
        json::text_of(reply.get("verificationUri"@)) is Some && json::text_of(
            reply.get("userCode"@),
        ) is Some ==> {
            if json::text_of(reply.get("status"@)) == Some("AlreadySignedIn"@) {
                sign_in_reply(reply) matches Ok(SignInView::Already(user)) && (json::text_of(
                    reply.get("user"@),
                ) is Some ==> json::text_of(reply.get("user"@)) == Some(user)) && (json::text_of(
                    reply.get("user"@),
                ) is None ==> user == "?"@)
            } else {
                sign_in_reply(reply) matches Ok(
                    SignInView::Pending { verification_uri, user_code, command },
                ) && {
                    &&& json::text_of(reply.get("verificationUri"@)) == Some(verification_uri)
                    &&& json::text_of(reply.get("userCode"@)) == Some(user_code)
                    &&& reply.get("command"@) is Some ==> reply.get("command"@) == Some(command)
                    &&& reply.get("command"@) is None ==> command == Json::Null
                }
            }
        },
{
}

/// The user is shown the address and the code of the reply to `signIn`, each on a line of
/// its own behind two spaces, whole, whatever its length; then the command of the reply is
/// run.
pub proof fn law_user_is_shown_address_and_code(
    flow: AuthFlowView,
    msg: MessageView,
    members: Map<Seq<char>, Json>,
    uri: Seq<char>,
    code: Seq<char>,
)
    requires
        flow.stage == Stage::SigningIn,
        msg.id == Some(Json::String("copilot-helix:auth:sign-in"@)),
        msg.method is None,
        msg.error is None,
        msg.result == Some(Json::Object(members)),
        jsonrpc::given(members, "verificationUri"@) == Some(Json::String(uri)),
        jsonrpc::given(members, "userCode"@) == Some(Json::String(code)),
        jsonrpc::given(members, "status"@) != Some(Json::String("AlreadySignedIn"@)),
    ensures
        flow_step(flow, msg) is Ok,
        ({
            let step = flow_step(flow, msg)->Ok_0;
            let lines = step.actions.drop_last();
            &&& step.flow.stage == Stage::Confirming
            &&& step.flow.status == flow.status
            &&& step.flow.signing_in == flow.signing_in
            &&& step.actions.len() == 8
            &&& lines.contains(AuthActionView::Explain(seq![' ', ' '] + uri))
            &&& lines.contains(AuthActionView::Explain(seq![' ', ' '] + code))
            &&& step.actions[0] == AuthActionView::Explain("Open this URL in your browser:"@)
            &&& step.actions[1] == AuthActionView::Explain(seq![' ', ' '] + uri)
            &&& step.actions[3] == AuthActionView::Explain("Enter this code when prompted:"@)
            &&& step.actions[4] == AuthActionView::Explain(seq![' ', ' '] + code)
            &&& forall|i: int| 0 <= i < 7 ==> #[trigger] step.actions[i] is Explain
            &&& step.actions[7] matches AuthActionView::Send(request) && {
                &&& request.method == Some("workspace/executeCommand"@)
                &&& request.params == if members.contains_key("command"@) {
                    Some(members["command"@])
                } else {
                    Some(Json::Null)
                }
            }
        }),
{
    reveal_strlit("  ");
    assert("  "@ =~= seq![' ', ' ']);
    json::law_json_eq_reflexive(awaited_id(Stage::SigningIn));
    let step = flow_step(flow, msg)->Ok_0;
    assert(step.actions.drop_last()[1] == AuthActionView::Explain(seq![' ', ' '] + uri));
    assert(step.actions.drop_last()[4] == AuthActionView::Explain(seq![' ', ' '] + code));
}

/// A user who signed in is named by the line that is printed, whole; one whom the language
/// server does not name is shown as a question mark.
pub proof fn law_signed_in_user_is_named(flow: AuthFlowView, msg: MessageView, result: Json)
    requires
        flow.stage == Stage::Confirming,
        msg.id == Some(Json::String("copilot-helix:auth:execute-command"@)),
        msg.method is None,
        msg.error is None,
        msg.result == Some(result),
    ensures
        flow_step(flow, msg) is Ok,
        ({
            let step = flow_step(flow, msg)->Ok_0;
            let user = match json::text_of(result.get("user"@)) {
                Some(user) => user,
                None => seq!['?'],
            };
            &&& step.flow.stage == Stage::Finished
            &&& step.flow.status == flow.status
            &&& step.actions.len() == 1
            &&& step.actions[0] == AuthActionView::Print("Authenticated as GitHub user "@ + user)
        }),
{
    reveal_strlit("?");
    assert("?"@ =~= seq!['?']);
    json::law_json_eq_reflexive(awaited_id(Stage::Confirming));
}

/// A user who turns out to be signed in when signing in is named, and nothing is asked.
pub proof fn law_already_signed_in_user_is_named(
    flow: AuthFlowView,
    msg: MessageView,
    members: Map<Seq<char>, Json>,
)
    requires
        flow.stage == Stage::SigningIn,
        msg.id == Some(Json::String("copilot-helix:auth:sign-in"@)),
        msg.method is None,
        msg.error is None,
        msg.result == Some(Json::Object(members)),
        json::text_of(jsonrpc::given(members, "verificationUri"@)) is Some,
        json::text_of(jsonrpc::given(members, "userCode"@)) is Some,
        jsonrpc::given(members, "status"@) == Some(Json::String("AlreadySignedIn"@)),
    ensures
        flow_step(flow, msg) is Ok,
        ({
            let step = flow_step(flow, msg)->Ok_0;
            let user = match json::text_of(jsonrpc::given(members, "user"@)) {
                Some(user) => user,
                None => seq!['?'],
            };
            &&& step.flow.stage == Stage::Finished
            &&& step.actions.len() == 1
            &&& step.actions[0] == AuthActionView::Print("Authenticated as GitHub user "@ + user)
        }),
{
    reveal_strlit("?");
    assert("?"@ =~= seq!['?']);
    json::law_json_eq_reflexive(awaited_id(Stage::SigningIn));
}

/// Once the language server is initialized, it is told so, gets its settings and is asked
/// for the status, with all checks.
pub proof fn law_flow_asks_for_the_status(flow: AuthFlowView, msg: MessageView)
    requires
        flow.stage == Stage::Initializing,
        msg.id == Some(Json::String("copilot-helix:auth:initialize"@)),
        msg.method is None,
        msg.error is None,
    ensures
        flow_step(flow, msg) is Ok,
        ({
            let step = flow_step(flow, msg)->Ok_0;
            &&& step.flow.stage == Stage::CheckingStatus
            &&& step.flow.signing_in == flow.signing_in
            &&& step.flow.status == flow.status
            &&& step.actions.len() == 3
            &&& step.actions[0] == AuthActionView::Send(initialized())
            &&& step.actions[1] == AuthActionView::Send(initializer::did_change_configuration())
            &&& step.actions[2] == AuthActionView::Send(check_status(false))
        }),
{
    json::law_json_eq_reflexive(awaited_id(Stage::Initializing));
}

/// The status that the language server reports is kept.  A flow that only asks for it then
/// ends; one that signs in tells a signed-in user so, by name where it is known, and asks to
/// sign in for any other.
pub proof fn law_flow_goes_by_the_status(flow: AuthFlowView, msg: MessageView, result: Json)
    requires
        flow.stage == Stage::CheckingStatus,
        msg.id == Some(Json::String("copilot-helix:auth:check-status"@)),
        msg.method is None,
        msg.error is None,
        msg.result == Some(result),
    ensures
        flow_step(flow, msg) is Ok,
        ({
            let step = flow_step(flow, msg)->Ok_0;
            &&& step.flow.status == Some(classified(result))
            &&& step.flow.signing_in == flow.signing_in
            &&& !flow.signing_in ==> step.flow.stage == Stage::Finished && step.actions.len() == 0
            &&& flow.signing_in && classified(result) is Unauthenticated ==> {
                &&& step.flow.stage == Stage::SigningIn
                &&& step.actions.len() == 1
                &&& step.actions[0] == AuthActionView::Send(sign_in())
            }
            &&& flow.signing_in && classified(result) is Authenticated ==> {
                &&& step.flow.stage == Stage::Finished
                &&& step.actions.len() == 1
                &&& step.actions[0] == AuthActionView::Print(
                    match json::text_of(result.get("user"@)) {
                        Some(user) => "Already authenticated as GitHub user "@ + user,
                        None => "Already authenticated with GitHub Copilot"@,
                    },
                )
            }
        }),
{
    json::law_json_eq_reflexive(awaited_id(Stage::CheckingStatus));
}

/// An error of the language server is told with its code and its message, whole.
pub proof fn law_error_tells_code_and_message(code: i64, message: Seq<char>)
    ensures
        AuthErrorView::Rpc(code, message).message() == "RPC error "@ + text::signed_decimal(
            code as int,
        ) + ": "@ + message,
{
}

/// A flow starts by waiting for the language server, with no status.
pub proof fn law_flow_starts(signing_in: bool)
    ensures
        started(signing_in).stage == Stage::Initializing,
        started(signing_in).signing_in == signing_in,
        started(signing_in).status is None,
{
}

/// Statuses, replies and actions stand for what they hold.
pub proof fn law_values_stand_for_what_they_hold(
    user: String,
    value: JsonValue,
    code: i64,
    msg: Message,
    actions: Seq<AuthAction>,
)
    ensures
        AuthStatus::Authenticated(Some(user))@ == AuthStatusView::Authenticated(Some(user@)),
        AuthStatus::Authenticated(None)@ == AuthStatusView::Authenticated(None),
        AuthStatus::Unauthenticated(user)@ == AuthStatusView::Unauthenticated(user@),
        Reply::Done(value)@ == ReplyView::Done(value@),
        Reply::Failed(code, user)@ == ReplyView::Failed(code, user@),
        Reply::Forward(msg)@ == ReplyView::Forward(msg@),
        Reply::Ignored@ == ReplyView::Ignored,
        AuthAction::Send(msg)@ == AuthActionView::Send(msg@),
        AuthAction::Print(user)@ == AuthActionView::Print(user@),
        AuthAction::Explain(user)@ == AuthActionView::Explain(user@),
        AuthError::Rpc(code, user)@ == AuthErrorView::Rpc(code, user@),
        SignIn::Already(user)@ == SignInView::Already(user@),
        actions_view(actions).len() == actions.len(),
        forall|i: int| 0 <= i < actions.len() ==> #[trigger] actions_view(actions)[i] == actions[i]@,
{
}

/// A response without a result counts as one whose result is null.
pub proof fn law_missing_result_counts_as_null(flow: AuthFlowView, msg: MessageView)
    requires
        msg.result is None,
    ensures
        flow_step(flow, msg) == flow_step(flow, (MessageView { result: Some(Json::Null), ..msg })),
{
}

/// A reply to `signIn` that lacks the address or the code ends the flow with that error.
pub proof fn law_unusable_sign_in_ends_a_flow(flow: AuthFlowView, msg: MessageView, result: Json)
    requires
        flow.stage == Stage::SigningIn,
        msg.id == Some(Json::String("copilot-helix:auth:sign-in"@)),
        msg.method is None,
        msg.error is None,
        msg.result == Some(result),
    ensures
        json::text_of(result.get("verificationUri"@)) is None ==> flow_step(flow, msg) == Err::<
            FlowStep,
            AuthErrorView,
        >(AuthErrorView::MissingVerificationUri),
        json::text_of(result.get("verificationUri"@)) is Some && json::text_of(
            result.get("userCode"@),
        ) is None ==> flow_step(flow, msg) == Err::<FlowStep, AuthErrorView>(
            AuthErrorView::MissingUserCode,
        ),
{
    json::law_json_eq_reflexive(awaited_id(Stage::SigningIn));
}

/// A user who is not signed in is warned, and told how to sign in.
pub proof fn law_warning_says_how_to_sign_in()
    ensures
        warning().id is None,
        warning().method == Some("window/showMessage"@),
        json::member(warning().params, "type"@) == Some(Json::Number(json::Num::Int(2))),
        json::member(warning().params, "message"@) == Some(
            Json::String("GitHub Copilot: not authenticated. Run: copilot-helix --auth"@),
        ),
{
    reveal_strlit("type");
    reveal_strlit("message");
    assert("type"@.len() == 4 && "message"@.len() == 7);
}

} // verus!
