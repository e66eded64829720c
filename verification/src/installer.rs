//! Installs the Copilot language server globally via npm.

use vstd::prelude::*;

use crate::config;
use crate::config::{package_spec, PACKAGE_VERSION};
use crate::text::{concat, concat3};

verus! {

/// The arguments that have `npm` install the pinned package globally.
pub open spec fn install_args() -> Seq<Seq<char>> {
    seq!["install"@, "-g"@, config::package()]
}

/// The arguments that have `npm` install the pinned package globally.
pub fn install_command_args() -> (r: Vec<String>)
    ensures
        config::texts_view(r@) == install_args(),
{
    let mut args: Vec<String> = Vec::new();
    args.push("install".to_owned());
    args.push("-g".to_owned());
    args.push(package_spec());
    assert(config::texts_view(args@) =~= install_args());
    args
}

/// Says that `npm` could not be run.
pub fn running_failure(shown_npm: &str) -> (r: String)
    ensures
        r@ == "running "@ + shown_npm@ + " install -g"@,
{
    concat3("running ", shown_npm, " install -g")
}

/// The words for a failed installation.
pub open spec fn install_failure(shown_status: Seq<char>) -> Seq<char> {
    "npm global install failed with status "@ + shown_status + " while installing "@
        + config::package()
}

/// Reads how `npm` ended: an error in words when it failed.
pub fn install_result(success: bool, shown_status: &str) -> (r: Result<(), String>)
    ensures
        match r {
            Ok(()) => success,
            Err(message) => !success && message@ == install_failure(shown_status@),
        },
{
    if success {
        return Ok(());
    }
    let start = concat3("npm global install failed with status ", shown_status, " while installing ");
    Err(concat(start.as_str(), package_spec().as_str()))
}

/// The line that tells of the installation.
pub open spec fn installed(shown_path: Seq<char>) -> Seq<char> {
    "Installed GitHub Copilot language server "@ + "1.472.0"@ + " at "@ + shown_path
}

/// The line that tells of the installation.
pub fn installed_line(shown_path: &str) -> (r: String)
    ensures
        r@ == installed(shown_path@),
{
    let start = concat3("Installed GitHub Copilot language server ", PACKAGE_VERSION, " at ");
    concat(start.as_str(), shown_path)
}

/// A failed installation is told with its status, whole, and the package.
pub proof fn law_failure_tells_status(shown_status: Seq<char>)
    ensures
        install_failure(shown_status) == "npm global install failed with status "@ + shown_status
            + " while installing "@ + "@github/copilot-language-server"@ + "@"@ + "1.472.0"@,
{
    assert(install_failure(shown_status) =~= "npm global install failed with status "@
        + shown_status + " while installing "@ + "@github/copilot-language-server"@ + "@"@
        + "1.472.0"@);
}

/// An installation is told with its version and its path, whole.
pub proof fn law_installation_tells_path(shown_path: Seq<char>)
    ensures
        installed(shown_path) == "Installed GitHub Copilot language server 1.472.0 at "@
            + shown_path,
{
    reveal_strlit("Installed GitHub Copilot language server ");
    reveal_strlit("1.472.0");
    reveal_strlit(" at ");
    reveal_strlit("Installed GitHub Copilot language server 1.472.0 at ");
    assert(installed(shown_path) =~= "Installed GitHub Copilot language server 1.472.0 at "@
        + shown_path);
}

/// The pinned package is installed globally.
pub proof fn law_package_is_installed_globally()
    ensures
        install_args().len() == 3,
        install_args()[0] == "install"@,
        install_args()[1] == "-g"@,
        install_args()[2] == "@github/copilot-language-server"@ + "@"@ + "1.472.0"@,
{
}

} // verus!
