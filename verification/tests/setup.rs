use copilot_helix::auth::AuthStatus;
use copilot_helix::cli::{parse_flag, unknown_flag, CliCommand, USAGE};
use copilot_helix::helix::analyze_languages_toml;
use copilot_helix::installer::{
    install_command_args, install_result, installed_line, running_failure,
};
use copilot_helix::setup::{
    helix_config_example, next_step, parse_yes_no, prompt, SetupAction, SetupEvent,
};

#[test]
fn install_command_uses_npm_global() {
    let args = install_command_args();

    assert_eq!(args[0], "install");
    assert_eq!(args[1], "-g");
    assert!(args[2].contains("@github/copilot-language-server"));
}

#[test]
fn prompt_decline_is_false() {
    assert!(!parse_yes_no("n"));
    assert!(!parse_yes_no(""));
}

#[test]
fn prompt_accepts_yes_variants() {
    assert!(parse_yes_no("y"));
    assert!(parse_yes_no("Yes"));
}

#[test]
fn setup_example_uses_stdio_command() {
    let example = helix_config_example();

    assert!(example.contains("command = \"copilot-helix\""));
    assert!(example.contains("args = [\"--stdio\"]"));
    assert!(example.contains("language-servers = [\"rust-analyzer\", \"copilot\"]"));
}

#[test]
fn default_usage_mentions_stdio_explicitly() {
    let usage = "Usage: copilot-helix [--stdio | --auth | --install-ls]";
    assert!(usage.contains("--stdio"));
    assert_eq!(USAGE, usage);
}

#[test]
fn install_arguments_are_exact() {
    assert_eq!(
        install_command_args(),
        ["install", "-g", "@github/copilot-language-server@1.472.0"]
    );
}

#[test]
fn failed_installations_are_described() {
    assert_eq!(install_result(true, "exit status: 0"), Ok(()));
    assert_eq!(
        install_result(false, "exit status: 1"),
        Err(
            "npm global install failed with status exit status: 1 while installing \
             @github/copilot-language-server@1.472.0"
                .to_owned()
        )
    );
    assert_eq!(running_failure("/usr/bin/npm"), "running /usr/bin/npm install -g");
    assert_eq!(
        installed_line("/x/language-server.js"),
        "Installed GitHub Copilot language server 1.472.0 at /x/language-server.js"
    );
}

#[test]
fn answers_are_trimmed_and_read_in_any_case() {
    for yes in ["Y\n", "  yEs\r\n", "\u{a0}YES\u{2003}", "\ty"] {
        assert!(parse_yes_no(yes), "{yes:?}");
    }
    for no in ["yess", "y e s", "ye", "no", "\n", "ｙ"] {
        assert!(!parse_yes_no(no), "{no:?}");
    }
}

#[test]
fn example_configures_helix() {
    let status = analyze_languages_toml(Some(helix_config_example()), ())
        .ok()
        .expect("status");
    assert!(status.is_configured);
    assert_eq!(status.server_name.as_deref(), Some("copilot"));
}

#[test]
fn flags_choose_the_command() {
    assert_eq!(parse_flag(None), CliCommand::Setup);
    assert_eq!(parse_flag(Some("--stdio")), CliCommand::Stdio);
    assert_eq!(parse_flag(Some("--auth")), CliCommand::Auth);
    assert_eq!(parse_flag(Some("--install-ls")), CliCommand::InstallLanguageServer);
    assert_eq!(parse_flag(Some("--help")), CliCommand::Unknown("--help".to_owned()));
    assert_eq!(
        unknown_flag("--help"),
        "unknown flag: --help\nUsage: copilot-helix [--stdio | --auth | --install-ls]"
    );
}

fn step(action: SetupAction, event: SetupEvent) -> (Vec<String>, SetupAction) {
    let step = next_step(action, &event).expect("step");
    (step.lines, step.next)
}

#[test]
fn setup_asks_before_it_installs() {
    let (lines, next) = step(
        SetupAction::FindLanguageServer,
        SetupEvent::LanguageServer(false),
    );
    assert_eq!(
        lines,
        ["GitHub Copilot language server is not installed in the local cache."]
    );
    assert_eq!(next, SetupAction::AskInstall);
    assert_eq!(prompt(next), Some("Install it now with npx? [y/N] "));

    let (lines, next) = step(SetupAction::AskInstall, SetupEvent::Answer("no\n".to_owned()));
    assert_eq!(lines, ["Setup stopped without installing the language server."]);
    assert_eq!(next, SetupAction::Finish);

    let (lines, next) = step(SetupAction::AskInstall, SetupEvent::Answer("y\n".to_owned()));
    assert!(lines.is_empty());
    assert_eq!(next, SetupAction::Install);

    let (lines, next) = step(SetupAction::Install, SetupEvent::Installed("/p".to_owned()));
    assert_eq!(lines, ["Installed GitHub Copilot language server 1.472.0 at /p"]);
    assert_eq!(next, SetupAction::CheckAuth);
}

#[test]
fn setup_asks_before_it_authenticates() {
    let (lines, next) = step(
        SetupAction::FindLanguageServer,
        SetupEvent::LanguageServer(true),
    );
    assert!(lines.is_empty());
    assert_eq!(next, SetupAction::CheckAuth);

    let unknown = AuthStatus::Unauthenticated("x".to_owned());
    let (lines, next) = step(SetupAction::CheckAuth, SetupEvent::Auth(unknown));
    assert_eq!(lines, ["GitHub Copilot is not authenticated."]);
    assert_eq!(next, SetupAction::AskAuth);
    assert_eq!(prompt(next), Some("Authenticate now? [y/N] "));

    let (lines, next) = step(SetupAction::AskAuth, SetupEvent::Answer("".to_owned()));
    assert_eq!(lines, ["Setup stopped without authentication."]);
    assert_eq!(next, SetupAction::Finish);

    let (_, next) = step(SetupAction::AskAuth, SetupEvent::Answer("yes".to_owned()));
    assert_eq!(next, SetupAction::Authenticate);
    let (lines, next) = step(SetupAction::Authenticate, SetupEvent::Authenticated);
    assert!(lines.is_empty());
    assert_eq!(next, SetupAction::CheckHelix);
}

#[test]
fn setup_names_the_user() {
    let named = AuthStatus::Authenticated(Some("alice".to_owned()));
    let (lines, next) = step(SetupAction::CheckAuth, SetupEvent::Auth(named));
    assert_eq!(lines, ["GitHub Copilot is authenticated as alice."]);
    assert_eq!(next, SetupAction::CheckHelix);
    let nameless = AuthStatus::Authenticated(None);
    let (lines, _) = step(SetupAction::CheckAuth, SetupEvent::Auth(nameless));
    assert_eq!(lines, ["GitHub Copilot is already authenticated."]);
}

#[test]
fn setup_ends_with_helix() {
    let (lines, next) = step(
        SetupAction::CheckHelix,
        SetupEvent::Helix(true, "/c".to_owned()),
    );
    assert_eq!(lines, ["copilot-helix setup is complete."]);
    assert_eq!(next, SetupAction::Finish);

    let (lines, next) = step(
        SetupAction::CheckHelix,
        SetupEvent::Helix(false, "/c".to_owned()),
    );
    assert_eq!(
        lines,
        [
            "Helix is not configured to use copilot-helix in /c.",
            "Append this example to your languages.toml:",
            "",
            helix_config_example(),
            "",
            "Then run `copilot-helix` again."
        ]
    );
    assert_eq!(next, SetupAction::Finish);
}

#[test]
fn events_must_fit_the_action() {
    assert!(next_step(SetupAction::Finish, &SetupEvent::Authenticated).is_none());
    assert!(next_step(SetupAction::AskAuth, &SetupEvent::LanguageServer(true)).is_none());
    assert_eq!(prompt(SetupAction::Install), None);
}
