//! The command line of the program.

use vstd::prelude::*;

use crate::json;
use crate::text::{concat, concat3, same_text};

verus! {

/// What the program is asked to do.
#[derive(Debug, PartialEq, Eq)]
pub enum CliCommand {
    /// Walk the user through the setup.
    Setup,
    /// Run the proxy on the standard streams.
    Stdio,
    /// Sign in.
    Auth,
    /// Install the language server.
    InstallLanguageServer,
    /// A flag that is not known.
    Unknown(String),
}

/// The mathematical value of a [`CliCommand`].
pub enum CliCommandView {
    Setup,
    Stdio,
    Auth,
    InstallLanguageServer,
    Unknown(Seq<char>),
}

impl CliCommand {
    pub open spec fn view(&self) -> CliCommandView {
        match self {
            CliCommand::Setup => CliCommandView::Setup,
            CliCommand::Stdio => CliCommandView::Stdio,
            CliCommand::Auth => CliCommandView::Auth,
            CliCommand::InstallLanguageServer => CliCommandView::InstallLanguageServer,
            CliCommand::Unknown(flag) => CliCommandView::Unknown(flag@),
        }
    }
}

/// What the first argument asks for.
pub open spec fn command(flag: Option<Seq<char>>) -> CliCommandView {
    match flag {
        None => CliCommandView::Setup,
        Some(flag) => if flag == "--stdio"@ {
            CliCommandView::Stdio
        } else if flag == "--auth"@ {
            CliCommandView::Auth
        } else if flag == "--install-ls"@ {
            CliCommandView::InstallLanguageServer
        } else {
            CliCommandView::Unknown(flag)
        },
    }
}

/// Reads the first argument.
pub fn parse_flag(flag: Option<&str>) -> (r: CliCommand)
    ensures
        r@ == command(json::str_view(flag)),
{
    let flag = match flag {
        Some(flag) => flag,
        None => return CliCommand::Setup,
    };
    if same_text(flag, "--stdio") {
        CliCommand::Stdio
    } else if same_text(flag, "--auth") {
        CliCommand::Auth
    } else if same_text(flag, "--install-ls") {
        CliCommand::InstallLanguageServer
    } else {
        CliCommand::Unknown(flag.to_owned())
    }
}

pub const USAGE: &'static str = "Usage: copilot-helix [--stdio | --auth | --install-ls]";

/// Says that a flag is not known, and which ones are.
pub fn unknown_flag(flag: &str) -> (r: String)
    ensures
        r@ == "unknown flag: "@ + flag@ + "\n"@
            + "Usage: copilot-helix [--stdio | --auth | --install-ls]"@,
{
    let start = concat3("unknown flag: ", flag, "\n");
    concat(start.as_str(), USAGE)
}

/// The three flags ask for three different things, and any other flag is reported as it
/// was given.
pub proof fn law_flags(flag: Seq<char>)
    ensures
        command(Some("--stdio"@)) == CliCommandView::Stdio,
        command(Some("--auth"@)) == CliCommandView::Auth,
        command(Some("--install-ls"@)) == CliCommandView::InstallLanguageServer,
        flag != "--stdio"@ && flag != "--auth"@ && flag != "--install-ls"@ <==> command(Some(flag))
            == CliCommandView::Unknown(flag),
{
    reveal_strlit("--stdio");
    reveal_strlit("--auth");
    reveal_strlit("--install-ls");
    assert("--stdio"@.len() == 7 && "--auth"@.len() == 6 && "--install-ls"@.len() == 12);
}

/// Without a flag the program walks the user through the setup, and an unknown flag never
/// does anything.
pub proof fn law_no_flag_is_the_setup(flag: Option<Seq<char>>)
    ensures
        command(flag) == CliCommandView::Setup <==> flag is None,
        command(flag) == CliCommandView::Stdio <==> flag == Some("--stdio"@),
        command(flag) == CliCommandView::Auth <==> flag == Some("--auth"@),
        command(flag) == CliCommandView::InstallLanguageServer <==> flag == Some("--install-ls"@),
{
    law_flags("--stdio"@);
}

/// A command stands for itself.
pub proof fn law_commands_stand_for_themselves(flag: String)
    ensures
        CliCommand::Setup@ == CliCommandView::Setup,
        CliCommand::Stdio@ == CliCommandView::Stdio,
        CliCommand::Auth@ == CliCommandView::Auth,
        CliCommand::InstallLanguageServer@ == CliCommandView::InstallLanguageServer,
        CliCommand::Unknown(flag)@ == CliCommandView::Unknown(flag@),
{
}

} // verus!
