//! Walks the user through the setup: the language server, authentication, and the
//! configuration of Helix.
//!
//! The caller does what [`SetupAction`] says, prints the lines of each [`SetupStep`],
//! and hands in what came of it.

use vstd::prelude::*;

use crate::auth::{AuthStatus, AuthStatusView};
use crate::config;
use crate::installer;
use crate::installer::installed_line;
use crate::text;
use crate::text::{concat3, same_ignoring_ascii_case, trim};

verus! {

// ── Answers ─────────────────────────────────────────────────────────────────

/// Whether an answer means yes: `y` or `yes`, in any letter case, with whitespace around.
pub open spec fn means_yes(input: Seq<char>) -> bool {
    let answer = text::trimmed(input).map_values(|c: char| text::ascii_lower(c));
    answer == "y"@ || answer == "yes"@
}

/// Reads an answer to a yes-or-no question.
pub fn parse_yes_no(input: &str) -> (r: bool)
    ensures
        r == means_yes(input@),
{
    let answer = trim(input);
    same_ignoring_ascii_case(answer, "y") || same_ignoring_ascii_case(answer, "yes")
}

// ── Example ─────────────────────────────────────────────────────────────────

/// The example of a Helix configuration.
pub open spec fn config_example() -> Seq<char> {
    "[language-server.copilot]\ncommand = \"copilot-helix\"\nargs = [\"--stdio\"]\n\n[[language]]\nname = \"rust\"\nlanguage-servers = [\"rust-analyzer\", \"copilot\"]"@
}

/// The example of a Helix configuration.
pub fn helix_config_example() -> (r: &'static str)
    ensures
        r@ == config_example(),
{
    "[language-server.copilot]\ncommand = \"copilot-helix\"\nargs = [\"--stdio\"]\n\n[[language]]\nname = \"rust\"\nlanguage-servers = [\"rust-analyzer\", \"copilot\"]"
}

// ── Steps ───────────────────────────────────────────────────────────────────

/// What the setup has the caller do.
#[derive(Debug, Clone, Copy, PartialEq, Eq, Structural)]
pub enum SetupAction {
    /// Look for the cached language server.
    FindLanguageServer,
    /// Ask whether to install the language server.
    AskInstall,
    /// Install the language server.
    Install,
    /// Ask the language server whether the user is signed in.
    CheckAuth,
    /// Ask whether to sign in.
    AskAuth,
    /// Sign in.
    Authenticate,
    /// Look at the configuration of Helix.
    CheckHelix,
    /// Nothing more.
    Finish,
}

/// What came of an action.
pub enum SetupEvent {
    /// Whether the cached language server was found.
    LanguageServer(bool),
    /// What the user answered.
    Answer(String),
    /// The language server was installed at this path.
    Installed(String),
    /// The user's status.
    Auth(AuthStatus),
    /// The user signed in.
    Authenticated,
    /// Whether Helix is configured, and the path of its configuration.
    Helix(bool, String),
}

/// The mathematical value of a [`SetupEvent`].
pub enum SetupEventView {
    LanguageServer(bool),
    Answer(Seq<char>),
    Installed(Seq<char>),
    Auth(AuthStatusView),
    Authenticated,
    Helix(bool, Seq<char>),
}

impl SetupEvent {
    pub open spec fn view(&self) -> SetupEventView {
        match self {
            SetupEvent::LanguageServer(found) => SetupEventView::LanguageServer(*found),
            SetupEvent::Answer(input) => SetupEventView::Answer(input@),
            SetupEvent::Installed(path) => SetupEventView::Installed(path@),
            SetupEvent::Auth(status) => SetupEventView::Auth(status@),
            SetupEvent::Authenticated => SetupEventView::Authenticated,
            SetupEvent::Helix(configured, path) => SetupEventView::Helix(*configured, path@),
        }
    }
}

/// The lines to print after an action, and the next action.
#[derive(Debug)]
pub struct SetupStep {
    pub lines: Vec<String>,
    pub next: SetupAction,
}

/// The mathematical value of a [`SetupStep`].
pub struct SetupStepView {
    pub lines: Seq<Seq<char>>,
    pub next: SetupAction,
}

impl SetupStep {
    pub open spec fn view(&self) -> SetupStepView {
        SetupStepView { lines: config::texts_view(self.lines@), next: self.next }
    }
}

/// The question of an action that asks one.
pub open spec fn question(action: SetupAction) -> Option<Seq<char>> {
    match action {
        SetupAction::AskInstall => Some("Install it now with npx? [y/N] "@),
        SetupAction::AskAuth => Some("Authenticate now? [y/N] "@),
        _ => None,
    }
}

/// The question of an action that asks one.
pub fn prompt(action: SetupAction) -> (r: Option<&'static str>)
    ensures
        match r {
            Some(text) => question(action) == Some(text@),
            None => question(action) is None,
        },
{
    match action {
        SetupAction::AskInstall => Some("Install it now with npx? [y/N] "),
        SetupAction::AskAuth => Some("Authenticate now? [y/N] "),
        _ => None,
    }
}

/// The lines for a Helix that is not configured.
pub open spec fn unconfigured_lines(path: Seq<char>) -> Seq<Seq<char>> {
    seq![
        "Helix is not configured to use copilot-helix in "@ + path + "."@,
        "Append this example to your languages.toml:"@,
        ""@,
        config_example(),
        ""@,
        "Then run `copilot-helix` again."@,
    ]
}

/// The step after an action; `None` for an event that cannot come of it.
pub open spec fn setup_step(action: SetupAction, event: SetupEventView) -> Option<SetupStepView> {
    match (action, event) {
        (SetupAction::FindLanguageServer, SetupEventView::LanguageServer(found)) => Some(
            if found {
                SetupStepView { lines: seq![], next: SetupAction::CheckAuth }
            } else {
                SetupStepView {
                    lines: seq![
                        "GitHub Copilot language server is not installed in the local cache."@,
                    ],
                    next: SetupAction::AskInstall,
                }
            },
        ),
        (SetupAction::AskInstall, SetupEventView::Answer(input)) => Some(
            if means_yes(input) {
                SetupStepView { lines: seq![], next: SetupAction::Install }
            } else {
                SetupStepView {
                    lines: seq!["Setup stopped without installing the language server."@],
                    next: SetupAction::Finish,
                }
            },
        ),
        (SetupAction::Install, SetupEventView::Installed(path)) => Some(
            SetupStepView {
                lines: seq![installer::installed(path)],
                next: SetupAction::CheckAuth,
            },
        ),
        (SetupAction::CheckAuth, SetupEventView::Auth(status)) => Some(
            match status {
                AuthStatusView::Authenticated(Some(user)) => SetupStepView {
                    lines: seq!["GitHub Copilot is authenticated as "@ + user + "."@],
                    next: SetupAction::CheckHelix,
                },
                AuthStatusView::Authenticated(None) => SetupStepView {
                    lines: seq!["GitHub Copilot is already authenticated."@],
                    next: SetupAction::CheckHelix,
                },
                AuthStatusView::Unauthenticated(_) => SetupStepView {
                    lines: seq!["GitHub Copilot is not authenticated."@],
                    next: SetupAction::AskAuth,
                },
            },
        ),
        (SetupAction::AskAuth, SetupEventView::Answer(input)) => Some(
            if means_yes(input) {
                SetupStepView { lines: seq![], next: SetupAction::Authenticate }
            } else {
                SetupStepView {
                    lines: seq!["Setup stopped without authentication."@],
                    next: SetupAction::Finish,
                }
            },
        ),
        (SetupAction::Authenticate, SetupEventView::Authenticated) => Some(
            SetupStepView { lines: seq![], next: SetupAction::CheckHelix },
        ),
        (SetupAction::CheckHelix, SetupEventView::Helix(configured, path)) => Some(
            SetupStepView {
                lines: if configured {
                    seq!["copilot-helix setup is complete."@]
                } else {
                    unconfigured_lines(path)
                },
                next: SetupAction::Finish,
            },
        ),
        _ => None,
    }
}

fn silent(next: SetupAction) -> (r: SetupStep)
    ensures
        r@ == (SetupStepView { lines: seq![], next }),
{
    let lines: Vec<String> = Vec::new();
    assert(config::texts_view(lines@) =~= seq![]);
    SetupStep { lines, next }
}

fn telling(line: String, next: SetupAction) -> (r: SetupStep)
    ensures
        r@ == (SetupStepView { lines: seq![line@], next }),
{
    let mut lines: Vec<String> = Vec::new();
    lines.push(line);
    assert(config::texts_view(lines@) =~= seq![line@]);
    SetupStep { lines, next }
}

/// The step after an action; `None` for an event that cannot come of it.
pub fn next_step(action: SetupAction, event: &SetupEvent) -> (r: Option<SetupStep>)
    ensures
        match r {
            Some(step) => setup_step(action, event@) == Some(step@),
            None => setup_step(action, event@) is None,
        },
{
    match (action, event) {
        (SetupAction::FindLanguageServer, SetupEvent::LanguageServer(found)) => Some(
            if *found {
                silent(SetupAction::CheckAuth)
            } else {
                telling(
                    "GitHub Copilot language server is not installed in the local cache.".to_owned(),
                    SetupAction::AskInstall,
                )
            },
        ),
        (SetupAction::AskInstall, SetupEvent::Answer(input)) => Some(
            if parse_yes_no(input.as_str()) {
                silent(SetupAction::Install)
            } else {
                telling(
                    "Setup stopped without installing the language server.".to_owned(),
                    SetupAction::Finish,
                )
            },
        ),
        (SetupAction::Install, SetupEvent::Installed(path)) => Some(
            telling(installed_line(path.as_str()), SetupAction::CheckAuth),
        ),
        (SetupAction::CheckAuth, SetupEvent::Auth(status)) => Some(after_status(status)),
        (SetupAction::AskAuth, SetupEvent::Answer(input)) => Some(
            if parse_yes_no(input.as_str()) {
                silent(SetupAction::Authenticate)
            } else {
                telling("Setup stopped without authentication.".to_owned(), SetupAction::Finish)
            },
        ),
        (SetupAction::Authenticate, SetupEvent::Authenticated) => Some(
            silent(SetupAction::CheckHelix),
        ),
        (SetupAction::CheckHelix, SetupEvent::Helix(configured, path)) => Some(
            if *configured {
                telling("copilot-helix setup is complete.".to_owned(), SetupAction::Finish)
            } else {
                explain_configuration(path.as_str())
            },
        ),
        _ => None,
    }
}

fn after_status(status: &AuthStatus) -> (r: SetupStep)
    ensures
        setup_step(SetupAction::CheckAuth, SetupEventView::Auth(status@)) == Some(r@),
{
    match status {
        AuthStatus::Authenticated(Some(user)) => telling(
            concat3("GitHub Copilot is authenticated as ", user.as_str(), "."),
            SetupAction::CheckHelix,
        ),
        AuthStatus::Authenticated(None) => telling(
            "GitHub Copilot is already authenticated.".to_owned(),
            SetupAction::CheckHelix,
        ),
        AuthStatus::Unauthenticated(_) => telling(
            "GitHub Copilot is not authenticated.".to_owned(),
            SetupAction::AskAuth,
        ),
    }
}

fn explain_configuration(path: &str) -> (r: SetupStep)
    ensures
        r@ == (SetupStepView { lines: unconfigured_lines(path@), next: SetupAction::Finish }),
{
    let mut lines: Vec<String> = Vec::new();
    lines.push(concat3("Helix is not configured to use copilot-helix in ", path, "."));
    lines.push("Append this example to your languages.toml:".to_owned());
    lines.push("".to_owned());
    lines.push(helix_config_example().to_owned());
    lines.push("".to_owned());
    lines.push("Then run `copilot-helix` again.".to_owned());
    assert(config::texts_view(lines@) =~= unconfigured_lines(path@));
    SetupStep { lines, next: SetupAction::Finish }
}

// ── Laws ────────────────────────────────────────────────────────────────────

/// How far an action is from the start.
pub open spec fn rank(action: SetupAction) -> nat {
    match action {
        SetupAction::FindLanguageServer => 0,
        SetupAction::AskInstall => 1,
        SetupAction::Install => 2,
        SetupAction::CheckAuth => 3,
        SetupAction::AskAuth => 4,
        SetupAction::Authenticate => 5,
        SetupAction::CheckHelix => 6,
        SetupAction::Finish => 7,
    }
}

/// Every step leads further on, so the setup ends; nothing comes after the end.
pub proof fn law_setup_ends(action: SetupAction, event: SetupEventView)
    ensures
        setup_step(action, event) matches Some(step) ==> rank(step.next) > rank(action),
        action == SetupAction::Finish ==> setup_step(action, event) is None,
{
}

/// Nothing is installed, and nobody signed in, without a yes.
pub proof fn law_nothing_happens_without_a_yes(action: SetupAction, event: SetupEventView)
    requires
        setup_step(action, event) matches Some(step) && (step.next == SetupAction::Install
            || step.next == SetupAction::Authenticate),
    ensures
        question(action) is Some,
        event matches SetupEventView::Answer(input) && means_yes(input),
{
}

/// A declined question ends the setup.
pub proof fn law_a_no_ends_the_setup(action: SetupAction, input: Seq<char>)
    requires
        question(action) is Some,
        !means_yes(input),
    ensures
        setup_step(action, SetupEventView::Answer(input)) matches Some(step) && step.next
            == SetupAction::Finish,
{
}

/// With the language server in place, a user who is signed in and Helix configured, the
/// setup is complete without a question.
pub proof fn law_complete_setup_asks_nothing(user: Option<Seq<char>>, path: Seq<char>)
    ensures
        setup_step(
            SetupAction::FindLanguageServer,
            SetupEventView::LanguageServer(true),
        ) matches Some(step) && step.next == SetupAction::CheckAuth && step.lines.len() == 0,
        setup_step(
            SetupAction::CheckAuth,
            SetupEventView::Auth(AuthStatusView::Authenticated(user)),
        ) matches Some(step) && step.next == SetupAction::CheckHelix,
        setup_step(SetupAction::CheckHelix, SetupEventView::Helix(true, path)) == Some(
            SetupStepView {
                lines: seq!["copilot-helix setup is complete."@],
                next: SetupAction::Finish,
            },
        ),
{
}

/// An answer means yes when it is `y` or `yes`, in any letter case, with any whitespace
/// around it; nothing else means yes.
pub proof fn law_yes(before: Seq<char>, answer: Seq<char>, after: Seq<char>)
    requires
        forall|i: int| 0 <= i < before.len() ==> text::is_whitespace(#[trigger] before[i]),
        forall|i: int| 0 <= i < after.len() ==> text::is_whitespace(#[trigger] after[i]),
        answer.len() > 0 ==> !text::is_whitespace(answer[0]) && !text::is_whitespace(
            answer[answer.len() - 1],
        ),
    ensures
        means_yes(before + answer + after) <==> {
            ||| answer.len() == 1 && (answer[0] == 'y' || answer[0] == 'Y')
            ||| answer.len() == 3 && (answer[0] == 'y' || answer[0] == 'Y') && (answer[1] == 'e'
                || answer[1] == 'E') && (answer[2] == 's' || answer[2] == 'S')
        },
{
    text::law_trimmed(before, answer, after);
    reveal_strlit("y");
    reveal_strlit("yes");
    let lower = answer.map_values(|c: char| text::ascii_lower(c));
    assert("y"@.len() == 1 && "yes"@.len() == 3);
    if answer.len() == 1 {
        lemma_letter(answer[0], 'y', 'Y');
        assert(lower =~= "y"@ <==> lower[0] == 'y');
    }
    if answer.len() == 3 {
        lemma_letter(answer[0], 'y', 'Y');
        lemma_letter(answer[1], 'e', 'E');
        lemma_letter(answer[2], 's', 'S');
        assert(lower =~= "yes"@ <==> lower[0] == 'y' && lower[1] == 'e' && lower[2] == 's');
    }
}

proof fn lemma_letter(c: char, small: char, capital: char)
    requires
        'a' <= small <= 'z',
        small as u32 == capital as u32 + 32,
    ensures
        text::ascii_lower(c) == small <==> c == small || c == capital,
{
}

/// The setup starts with the language server: one that is there is used, and for one that is
/// missing the user is asked.
pub proof fn law_missing_server_is_asked_for(found: bool)
    ensures
        setup_step(
            SetupAction::FindLanguageServer,
            SetupEventView::LanguageServer(found),
        ) matches Some(step) && {
            &&& found ==> step.next == SetupAction::CheckAuth && step.lines.len() == 0
            &&& !found ==> step.next == SetupAction::AskInstall && step.lines.len() == 1
                && step.lines[0]
                == "GitHub Copilot language server is not installed in the local cache."@
        },
{
}

/// A yes is followed by what was asked for; a no by the end and a line that says so.
pub proof fn law_answers_are_followed(input: Seq<char>)
    ensures
        setup_step(SetupAction::AskInstall, SetupEventView::Answer(input)) matches Some(step) && {
            &&& means_yes(input) ==> step.next == SetupAction::Install && step.lines.len() == 0
            &&& !means_yes(input) ==> step.next == SetupAction::Finish && step.lines.len() == 1
                && step.lines[0] == "Setup stopped without installing the language server."@
        },
        setup_step(SetupAction::AskAuth, SetupEventView::Answer(input)) matches Some(step) && {
            &&& means_yes(input) ==> step.next == SetupAction::Authenticate && step.lines.len() == 0
            &&& !means_yes(input) ==> step.next == SetupAction::Finish && step.lines.len() == 1
                && step.lines[0] == "Setup stopped without authentication."@
        },
{
}

/// An installed language server is told of with its path, whole, and then the status is
/// checked.
pub proof fn law_installed_server_is_told_of(path: Seq<char>)
    ensures
        setup_step(SetupAction::Install, SetupEventView::Installed(path)) matches Some(step)
            && step.next == SetupAction::CheckAuth && step.lines.len() == 1 && step.lines[0]
            == "Installed GitHub Copilot language server 1.472.0 at "@ + path,
{
    installer::law_installation_tells_path(path);
}

/// A user who is signed in is told so, by name, whole, where it is known; any other is asked
/// to sign in, and goes on once signed in.
pub proof fn law_users_are_told_of(user: Seq<char>)
    ensures
        setup_step(
            SetupAction::CheckAuth,
            SetupEventView::Auth(AuthStatusView::Authenticated(Some(user))),
        ) matches Some(step) && step.next == SetupAction::CheckHelix && step.lines.len() == 1
            && step.lines[0] == "GitHub Copilot is authenticated as "@ + user + "."@,
        setup_step(
            SetupAction::CheckAuth,
            SetupEventView::Auth(AuthStatusView::Authenticated(None)),
        ) matches Some(step) && step.next == SetupAction::CheckHelix && step.lines.len() == 1
            && step.lines[0] == "GitHub Copilot is already authenticated."@,
        setup_step(
            SetupAction::CheckAuth,
            SetupEventView::Auth(AuthStatusView::Unauthenticated(user)),
        ) matches Some(step) && step.next == SetupAction::AskAuth && step.lines.len() == 1
            && step.lines[0] == "GitHub Copilot is not authenticated."@,
        setup_step(SetupAction::Authenticate, SetupEventView::Authenticated) matches Some(step)
            && step.next == SetupAction::CheckHelix && step.lines.len() == 0,
{
}

/// The setup ends with Helix: it is complete exactly when Helix is configured, and else the
/// user is shown where, whole, and what to add.
pub proof fn law_setup_ends_with_helix(configured: bool, path: Seq<char>)
    ensures
        setup_step(SetupAction::CheckHelix, SetupEventView::Helix(configured, path)) matches Some(
            step,
        ) && {
            &&& step.next == SetupAction::Finish
            &&& configured ==> step.lines.len() == 1 && step.lines[0]
                == "copilot-helix setup is complete."@
            &&& !configured ==> {
                &&& step.lines.len() == 6
                &&& step.lines[0] == "Helix is not configured to use copilot-helix in "@ + path
                    + "."@
                &&& step.lines[1] == "Append this example to your languages.toml:"@
                &&& step.lines[2].len() == 0
                &&& step.lines[3] == config_example()
                &&& step.lines[4].len() == 0
                &&& step.lines[5] == "Then run `copilot-helix` again."@
            }
        },
{
    reveal_strlit("");
}

/// Events and steps stand for what they hold.
pub proof fn law_setup_values_stand_for_what_they_hold(
    flag: bool,
    text: String,
    status: AuthStatus,
    step: SetupStep,
)
    ensures
        SetupEvent::LanguageServer(flag)@ == SetupEventView::LanguageServer(flag),
        SetupEvent::Answer(text)@ == SetupEventView::Answer(text@),
        SetupEvent::Installed(text)@ == SetupEventView::Installed(text@),
        SetupEvent::Auth(status)@ == SetupEventView::Auth(status@),
        SetupEvent::Authenticated@ == SetupEventView::Authenticated,
        SetupEvent::Helix(flag, text)@ == SetupEventView::Helix(flag, text@),
        step@.next == step.next,
        step@.lines.len() == step.lines@.len(),
        forall|i: int| 0 <= i < step.lines@.len() ==> #[trigger] step@.lines[i] == step.lines@[i]@,
{
}

/// Two actions ask the user, each its own question.
pub proof fn law_questions(action: SetupAction)
    ensures
        question(action) == match action {
            SetupAction::AskInstall => Some("Install it now with npx? [y/N] "@),
            SetupAction::AskAuth => Some("Authenticate now? [y/N] "@),
            _ => None,
        },
{
}

/// An action goes on with an event of its own kind, and with no other.
pub proof fn law_actions_have_their_events(action: SetupAction, event: SetupEventView)
    ensures
        setup_step(action, event) is Some <==> match event {
            SetupEventView::LanguageServer(_) => action == SetupAction::FindLanguageServer,
            SetupEventView::Answer(_) => action == SetupAction::AskInstall || action
                == SetupAction::AskAuth,
            SetupEventView::Installed(_) => action == SetupAction::Install,
            SetupEventView::Auth(_) => action == SetupAction::CheckAuth,
            SetupEventView::Authenticated => action == SetupAction::Authenticate,
            SetupEventView::Helix(_, _) => action == SetupAction::CheckHelix,
        },
{
}

/// The example lists this program as a language server, and has a language that uses it.
pub proof fn law_example_lists_and_uses_this_program()
    ensures
        config_example()
            == "[language-server.copilot]\ncommand = \"copilot-helix\"\nargs = [\"--stdio\"]\n\n[[language]]\nname = \"rust\"\nlanguage-servers = [\"rust-analyzer\", \"copilot\"]"@,
{
}

} // verus!
