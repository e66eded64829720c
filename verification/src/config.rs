//! Resolves the command used to launch the cached Copilot language server.
//!
//! Paths are whatever the caller uses for them: this module never looks inside one,
//! and asks the caller what lies at a path.

use vstd::prelude::*;

use crate::text::{concat, concat3};

verus! {

pub const PACKAGE_NAME: &'static str = "@github/copilot-language-server";

pub const PACKAGE_VERSION: &'static str = "1.472.0";

pub const STDIO_FLAG: &'static str = "--stdio";

pub const CACHED_SCRIPT_RELATIVE_PATH: &'static str =
    "node_modules/@github/copilot-language-server/dist/language-server.js";

// ── Package ─────────────────────────────────────────────────────────────────

/// The package to install, with its version.
pub open spec fn package() -> Seq<char> {
    "@github/copilot-language-server"@ + "@"@ + "1.472.0"@
}

/// The package to install, with its version.
pub fn package_spec() -> (r: String)
    ensures
        r@ == package(),
{
    concat3(PACKAGE_NAME, "@", PACKAGE_VERSION)
}

// ── Paths ───────────────────────────────────────────────────────────────────

/// A path below another one, reached by joining the parts one after the other.
#[derive(Debug)]
pub struct JoinedPath<P> {
    pub base: P,
    pub parts: Vec<String>,
}

/// The mathematical value of a [`JoinedPath`].
pub struct JoinedPathView<P> {
    pub base: P,
    pub parts: Seq<Seq<char>>,
}

/// The mathematical value of a list of texts.
pub open spec fn texts_view(texts: Seq<String>) -> Seq<Seq<char>> {
    texts.map_values(|text: String| text@)
}

impl<P> JoinedPath<P> {
    pub open spec fn view(&self) -> JoinedPathView<P> {
        JoinedPathView { base: self.base, parts: texts_view(self.parts@) }
    }
}

/// Where the package is installed below the cache directory of the system: the path
/// names the version.
pub open spec fn install_dir<P>(cache_root: P) -> JoinedPathView<P> {
    JoinedPathView {
        base: cache_root,
        parts: seq!["copilot-helix"@, "copilot-language-server"@, "1.472.0"@],
    }
}

/// Where the script of the language server is below the directory of the package.
pub open spec fn script_below<P>(install_dir: JoinedPathView<P>) -> JoinedPathView<P> {
    JoinedPathView {
        base: install_dir.base,
        parts: install_dir.parts.push(
            "node_modules/@github/copilot-language-server/dist/language-server.js"@,
        ),
    }
}

pub fn cached_install_dir_for<P>(cache_root: P) -> (r: JoinedPath<P>)
    ensures
        r@ == install_dir(cache_root),
{
    let mut parts: Vec<String> = Vec::new();
    parts.push("copilot-helix".to_owned());
    parts.push("copilot-language-server".to_owned());
    parts.push(PACKAGE_VERSION.to_owned());
    assert(texts_view(parts@) =~= install_dir(cache_root).parts);
    JoinedPath { base: cache_root, parts }
}

pub fn cached_language_server_path_for<P>(install_dir: JoinedPath<P>) -> (r: JoinedPath<P>)
    ensures
        r@ == script_below(install_dir@),
{
    let JoinedPath { base, parts } = install_dir;
    let mut parts = parts;
    let ghost before = parts@;
    parts.push(CACHED_SCRIPT_RELATIVE_PATH.to_owned());
    assert(texts_view(parts@) =~= texts_view(before).push(
        "node_modules/@github/copilot-language-server/dist/language-server.js"@,
    ));
    JoinedPath { base, parts }
}

/// Where the script of a package is that was installed globally, below the directory
/// that `npm` installs such packages in.
pub fn global_language_server_path<P>(npm_root: P) -> (r: JoinedPath<P>)
    ensures
        r@ == (JoinedPathView {
            base: npm_root,
            parts: seq!["@github/copilot-language-server"@, "dist/language-server.js"@],
        }),
{
    let mut parts: Vec<String> = Vec::new();
    parts.push(PACKAGE_NAME.to_owned());
    parts.push("dist/language-server.js".to_owned());
    assert(texts_view(parts@) =~= seq![
        "@github/copilot-language-server"@,
        "dist/language-server.js"@,
    ]);
    JoinedPath { base: npm_root, parts }
}

// ── Files ───────────────────────────────────────────────────────────────────

/// What lies at a path.
#[derive(Debug)]
pub enum FileState<E> {
    /// No file.
    Missing,
    /// A file that cannot be opened, and why.
    Unreadable(E),
    /// A file that can be opened.
    Readable,
}

/// What a path is the setting of.
#[derive(Debug, Clone, Copy, PartialEq, Eq, Structural)]
pub enum Setting {
    /// The script to use in place of the cached one.
    LanguageServer,
    /// The `node` to use.
    Node,
    /// The cached script.
    Cached,
}

impl Setting {
    pub open spec fn text(self) -> Seq<char> {
        match self {
            Setting::LanguageServer => "COPILOT_LS_PATH"@,
            Setting::Node => "COPILOT_NODE"@,
            Setting::Cached => "cached Copilot language server"@,
        }
    }

    pub fn name(&self) -> (r: &'static str)
        ensures
            r@ == self.text(),
    {
        match self {
            Setting::LanguageServer => "COPILOT_LS_PATH",
            Setting::Node => "COPILOT_NODE",
            Setting::Cached => "cached Copilot language server",
        }
    }
}

/// What is wrong with the file of a setting.
#[derive(Debug)]
pub enum FileProblem<P, E> {
    Missing { setting: Setting, path: P },
    Unreadable { setting: Setting, path: P, cause: E },
}

impl<P, E> FileProblem<P, E> {
    pub open spec fn message(self, shown_path: Seq<char>) -> Seq<char> {
        match self {
            FileProblem::Missing { setting, .. } => setting.text() + "="@ + shown_path
                + " does not point to an existing file"@,
            FileProblem::Unreadable { setting, .. } => setting.text() + "="@ + shown_path
                + " is not readable"@,
        }
    }

    /// Says in words what is wrong, with the path as the caller shows it.
    pub fn description(&self, shown_path: &str) -> (r: String)
        ensures
            r@ == self.message(shown_path@),
    {
        match self {
            FileProblem::Missing { setting, .. } => concat(
                concat3(setting.name(), "=", shown_path).as_str(),
                " does not point to an existing file",
            ),
            FileProblem::Unreadable { setting, .. } => concat(
                concat3(setting.name(), "=", shown_path).as_str(),
                " is not readable",
            ),
        }
    }
}

/// A path, if there is a file.
pub open spec fn existing<P, E>(path: P, state: FileState<E>, setting: Setting) -> Result<
    P,
    FileProblem<P, E>,
> {
    match state {
        FileState::Missing => Err(FileProblem::Missing { setting, path }),
        _ => Ok(path),
    }
}

/// A path, if there is a file that can be opened.
pub open spec fn readable<P, E>(path: P, state: FileState<E>, setting: Setting) -> Result<
    P,
    FileProblem<P, E>,
> {
    match state {
        FileState::Missing => Err(FileProblem::Missing { setting, path }),
        FileState::Unreadable(cause) => Err(FileProblem::Unreadable { setting, path, cause }),
        FileState::Readable => Ok(path),
    }
}

/// Accepts a path at which there is a file.
pub fn validate_existing_file<P, E>(path: P, state: FileState<E>, setting: Setting) -> (r: Result<
    P,
    FileProblem<P, E>,
>)
    ensures
        r == existing(path, state, setting),
{
    match state {
        FileState::Missing => Err(FileProblem::Missing { setting, path }),
        _ => Ok(path),
    }
}

/// Accepts a path at which there is a file that can be opened.
pub fn validate_readable_file<P, E>(path: P, state: FileState<E>, setting: Setting) -> (r: Result<
    P,
    FileProblem<P, E>,
>)
    ensures
        r == readable(path, state, setting),
{
    match state {
        FileState::Missing => Err(FileProblem::Missing { setting, path }),
        FileState::Unreadable(cause) => Err(FileProblem::Unreadable { setting, path, cause }),
        FileState::Readable => Ok(path),
    }
}

/// Whether none of the first `n` candidates is a file, by what `is_file` says.
pub open spec fn no_file<P, F: Fn(&P) -> bool>(candidates: Seq<P>, is_file: F, n: int) -> bool {
    forall|j: int|
        #![trigger candidates[j]]
        0 <= j < n ==> call_ensures(is_file, (&candidates[j],), false)
}

/// Whether the candidate at `i` is the first that is a file, by what `is_file` says.
pub open spec fn first_file<P, F: Fn(&P) -> bool>(candidates: Seq<P>, is_file: F, i: int) -> bool {
    &&& 0 <= i < candidates.len()
    &&& no_file(candidates, is_file, i)
    &&& call_ensures(is_file, (&candidates[i],), true)
}

/// Finds a program among the places where it could be, in the order of `$PATH`: the first
/// of them that is a file, made absolute.
pub fn which<P, F: Fn(&P) -> bool, A: FnOnce(P) -> P>(
    candidates: Vec<P>,
    is_file: F,
    absolute: A,
) -> (r: Option<P>)
    requires
        forall|i: int|
            #![trigger candidates@[i]]
            0 <= i < candidates.len() ==> call_requires(is_file, (&candidates@[i],))
                && call_requires(absolute, (candidates@[i],)),
    ensures
        match r {
            Some(path) => exists|i: int|
                #[trigger] first_file(candidates@, is_file, i) && call_ensures(
                    absolute,
                    (candidates@[i],),
                    path,
                ),
            None => no_file(candidates@, is_file, candidates.len() as int),
        },
{
    let mut i: usize = 0;
    while i < candidates.len()
        invariant
            i <= candidates.len(),
            forall|k: int|
                #![trigger candidates@[k]]
                0 <= k < candidates.len() ==> call_requires(is_file, (&candidates@[k],))
                    && call_requires(absolute, (candidates@[k],)),
            no_file(candidates@, is_file, i as int),
        decreases candidates.len() - i,
    {
        if is_file(&candidates[i]) {
            assert(first_file(candidates@, is_file, i as int));
            let mut candidates = candidates;
            return Some(absolute(candidates.remove(i)));
        }
        i = i + 1;
    }
    None
}

/// Reads the result of looking for `npm`.
pub fn npm_path<P>(found: Option<P>) -> (r: Result<P, NpmNotFound>)
    ensures
        r == match found {
            Some(path) => Ok::<P, NpmNotFound>(path),
            None => Err(NpmNotFound),
        },
{
    match found {
        Some(path) => Ok(path),
        None => Err(NpmNotFound),
    }
}

/// There is no `npm` on `$PATH`.
#[derive(Debug, Clone, Copy, PartialEq, Eq, Structural)]
pub struct NpmNotFound;

impl NpmNotFound {
    /// Says in words what is missing.
    pub fn description(&self) -> (r: &'static str)
        ensures
            r@ == "npm not found in $PATH — install Node.js/npm ≥22"@,
    {
        "npm not found in $PATH — install Node.js/npm ≥22"
    }
}

// ── Cache ───────────────────────────────────────────────────────────────────

/// Why there is no cached language server.
#[derive(Debug)]
pub enum CacheError<P, E> {
    /// The system has no cache directory.
    NoCacheDirectory,
    /// The package is not installed there.
    NotInstalled(FileProblem<JoinedPath<P>, E>),
}

impl<P, E> CacheError<P, E> {
    pub open spec fn message(self) -> Seq<char> {
        match self {
            CacheError::NoCacheDirectory => "could not determine OS cache directory"@,
            CacheError::NotInstalled(_) => "cached Copilot language server v"@ + "1.472.0"@
                + " not found. Run `copilot-helix --install-ls` or set COPILOT_LS_PATH=/path/to/language-server.js"@,
        }
    }

    /// Says in words what is missing.
    pub fn description(&self) -> (r: String)
        ensures
            r@ == self.message(),
    {
        match self {
            CacheError::NoCacheDirectory => "could not determine OS cache directory".to_owned(),
            CacheError::NotInstalled(_) => concat3(
                "cached Copilot language server v",
                PACKAGE_VERSION,
                " not found. Run `copilot-helix --install-ls` or set COPILOT_LS_PATH=/path/to/language-server.js",
            ),
        }
    }
}

/// Where the package is installed, for the cache directory of the system.
pub fn cache_install_dir<P, E>(cache_root: Option<P>) -> (r: Result<
    JoinedPath<P>,
    CacheError<P, E>,
>)
    ensures
        match (cache_root, r) {
            (Some(root), Ok(dir)) => dir@ == install_dir(root),
            (None, Err(error)) => error == CacheError::<P, E>::NoCacheDirectory,
            _ => false,
        },
{
    match cache_root {
        Some(root) => Ok(cached_install_dir_for(root)),
        None => Err(CacheError::NoCacheDirectory),
    }
}

/// Where the cached script is, below the cache directory of the system.
pub open spec fn cached_script<P>(cache_root: P) -> JoinedPathView<P> {
    script_below(install_dir(cache_root))
}

/// What the state of the cached script says.
pub open spec fn installed<P, E>(path: JoinedPath<P>, state: FileState<E>) -> Result<
    JoinedPath<P>,
    CacheError<P, E>,
> {
    match readable(path, state, Setting::Cached) {
        Ok(path) => Ok(path),
        Err(problem) => Err(CacheError::NotInstalled(problem)),
    }
}

/// Whether `r` is what may come of looking for the cached script with `probe`.
pub open spec fn cache_lookup<P, E, H: FnOnce(&JoinedPath<P>) -> FileState<E>>(
    cache_root: Option<P>,
    probe: H,
    r: Result<JoinedPath<P>, CacheError<P, E>>,
) -> bool {
    match cache_root {
        Some(root) => exists|path: JoinedPath<P>, state: FileState<E>|
            #[trigger] call_ensures(probe, (&path,), state) && path@ == cached_script(root) && r
                == installed(path, state),
        None => r == Err::<JoinedPath<P>, CacheError<P, E>>(CacheError::NoCacheDirectory),
    }
}

/// Whether `probe` can be asked for the state of the cached script.
pub open spec fn probes_cache<P, E, H: FnOnce(&JoinedPath<P>) -> FileState<E>>(
    cache_root: Option<P>,
    probe: H,
) -> bool {
    cache_root matches Some(root) ==> forall|path: JoinedPath<P>|
        path@ == cached_script(root) ==> #[trigger] call_requires(probe, (&path,))
}

/// Finds the cached script, which must be a file that can be opened.
pub fn cached_language_server_path<P, E, H: FnOnce(&JoinedPath<P>) -> FileState<E>>(
    cache_root: Option<P>,
    probe: H,
) -> (r: Result<JoinedPath<P>, CacheError<P, E>>)
    requires
        probes_cache(cache_root, probe),
    ensures
        cache_lookup(cache_root, probe, r),
{
    let dir = match cache_install_dir::<P, E>(cache_root) {
        Ok(dir) => dir,
        Err(_) => return Err(CacheError::NoCacheDirectory),
    };
    let path = cached_language_server_path_for(dir);
    let state = probe(&path);
    match validate_readable_file(path, state, Setting::Cached) {
        Ok(path) => Ok(path),
        Err(problem) => Err(CacheError::NotInstalled(problem)),
    }
}

/// Finds the cached script; `None` when it is not installed.
pub fn cached_language_server_path_if_exists<P, E, H: FnOnce(&JoinedPath<P>) -> FileState<E>>(
    cache_root: Option<P>,
    probe: H,
) -> (r: Result<Option<JoinedPath<P>>, CacheError<P, E>>)
    requires
        probes_cache(cache_root, probe),
    ensures
        exists|found: Result<JoinedPath<P>, CacheError<P, E>>|
            #[trigger] cache_lookup(cache_root, probe, found) && r == match found {
                Ok(path) => Ok::<Option<JoinedPath<P>>, CacheError<P, E>>(Some(path)),
                Err(CacheError::NotInstalled(_)) => Ok(None),
                Err(error) => Err(error),
            },
{
    match cached_language_server_path(cache_root, probe) {
        Ok(path) => Ok(Some(path)),
        Err(CacheError::NotInstalled(_)) => Ok(None),
        Err(error) => Err(error),
    }
}

// ── Detection ───────────────────────────────────────────────────────────────

/// An argument of the command.
#[derive(Debug, Clone, PartialEq, Eq)]
pub enum Argument<P> {
    Path(P),
    Text(String),
}

/// The mathematical value of an [`Argument`].
pub enum ArgumentView<P> {
    Path(P),
    Text(Seq<char>),
}

impl<P> Argument<P> {
    pub open spec fn view(&self) -> ArgumentView<P> {
        match self {
            Argument::Path(path) => ArgumentView::Path(*path),
            Argument::Text(text) => ArgumentView::Text(text@),
        }
    }
}

/// Runtime command needed to start the language server subprocess.
#[derive(Debug, Clone, PartialEq, Eq)]
pub struct Config<P> {
    /// Executable to spawn (`node` for both local override and cached modes).
    pub program: P,
    /// Arguments passed to `program`.
    pub args: Vec<Argument<P>>,
}

/// The mathematical value of a [`Config`].
pub struct ConfigView<P> {
    pub program: P,
    pub args: Seq<ArgumentView<P>>,
}

impl<P> Config<P> {
    pub open spec fn view(&self) -> ConfigView<P> {
        ConfigView {
            program: self.program,
            args: self.args@.map_values(|arg: Argument<P>| arg@),
        }
    }
}

/// The command that runs a script of the language server.
pub open spec fn launch<P>(program: P, script: P) -> ConfigView<P> {
    ConfigView {
        program,
        args: seq![ArgumentView::Path(script), ArgumentView::Text("--stdio"@)],
    }
}

fn launch_script<P>(program: P, script: P) -> (r: Config<P>)
    ensures
        r@ == launch(program, script),
{
    let mut args: Vec<Argument<P>> = Vec::new();
    args.push(Argument::Path(script));
    args.push(Argument::Text(STDIO_FLAG.to_owned()));
    let config = Config { program, args };
    assert(config@.args =~= launch(program, script).args);
    config
}

/// What the environment sets in place of the defaults.
#[derive(Debug)]
pub struct EnvOverrides<P> {
    pub node_path: Option<P>,
    pub language_server_path: Option<P>,
}

impl<P> Default for EnvOverrides<P> {
    fn default() -> (r: EnvOverrides<P>)
        ensures
            r.node_path is None,
            r.language_server_path is None,
    {
        EnvOverrides { node_path: None, language_server_path: None }
    }
}

/// Why there is no command; `C` tells why there is no cached script.
#[derive(Debug)]
pub enum DetectError<P, E, C> {
    /// A file that the environment names cannot be used.
    File(FileProblem<P, E>),
    /// There is no `node` on `$PATH`.
    NodeNotFound,
    /// There is no cached script.
    Cached(C),
}

/// The words for a missing `node`.
pub open spec fn node_not_found() -> Seq<char> {
    "node not found in $PATH — install Node.js ≥22 or set COPILOT_NODE=/path/to/node"@
}

/// Says in words that `node` is missing.
pub fn node_not_found_message() -> (r: &'static str)
    ensures
        r@ == node_not_found(),
{
    "node not found in $PATH — install Node.js ≥22 or set COPILOT_NODE=/path/to/node"
}

/// What was found on the machine.
pub struct Findings<P, E, C> {
    /// What lies at the path of the script that the environment names.
    pub script: FileState<E>,
    /// What lies at the path of the `node` that the environment names.
    pub node: FileState<E>,
    /// The `node` on `$PATH`.
    pub node_on_path: Option<P>,
    /// The cached script.
    pub cached: Result<P, C>,
}

/// The `node` to use: the one that the environment names, else the one on `$PATH`.
pub open spec fn located_node<P, E, C>(
    node_path: Option<P>,
    findings: Findings<P, E, C>,
) -> Result<P, DetectError<P, E, C>> {
    match node_path {
        Some(path) => match existing(path, findings.node, Setting::Node) {
            Ok(path) => Ok(path),
            Err(problem) => Err(DetectError::File(problem)),
        },
        None => match findings.node_on_path {
            Some(path) => Ok(path),
            None => Err(DetectError::NodeNotFound),
        },
    }
}

/// The script to run: the one that the environment names, else the cached one.
pub open spec fn located_script<P, E, C>(
    language_server_path: Option<P>,
    findings: Findings<P, E, C>,
) -> Result<P, DetectError<P, E, C>> {
    match language_server_path {
        Some(path) => match readable(path, findings.script, Setting::LanguageServer) {
            Ok(path) => Ok(path),
            Err(problem) => Err(DetectError::File(problem)),
        },
        None => match findings.cached {
            Ok(path) => Ok(path),
            Err(error) => Err(DetectError::Cached(error)),
        },
    }
}

/// The command for what was found: first the script is looked for, then `node`.
pub open spec fn detected<P, E, C>(
    overrides: EnvOverrides<P>,
    findings: Findings<P, E, C>,
) -> Result<ConfigView<P>, DetectError<P, E, C>> {
    match (
        located_script(overrides.language_server_path, findings),
        located_node(overrides.node_path, findings),
    ) {
        (Err(error), _) => Err(error),
        (Ok(_), Err(error)) => Err(error),
        (Ok(script), Ok(program)) => Ok(launch(program, script)),
    }
}

/// Whether these findings about `node` may come of the calls.
pub open spec fn finds_node<P, E, C, F: FnOnce(&'static str) -> Option<P>, H: Fn(&P) -> FileState<E>>(
    node_path: Option<P>,
    lookup_path: F,
    probe: H,
    findings: Findings<P, E, C>,
) -> bool {
    match node_path {
        Some(path) => call_ensures(probe, (&path,), findings.node),
        None => call_ensures(lookup_path, ("node",), findings.node_on_path),
    }
}

/// Whether these findings about the script may come of the calls.
pub open spec fn finds_script<P, E, C, G: FnOnce() -> Result<P, C>, H: Fn(&P) -> FileState<E>>(
    language_server_path: Option<P>,
    resolve_cached_path: G,
    probe: H,
    findings: Findings<P, E, C>,
) -> bool {
    match language_server_path {
        Some(path) => call_ensures(probe, (&path,), findings.script),
        None => call_ensures(resolve_cached_path, (), findings.cached),
    }
}

/// Finds the `node` to use.
pub fn locate_node<P, E, C, F: FnOnce(&'static str) -> Option<P>, H: Fn(&P) -> FileState<E>>(
    explicit_node_path: Option<P>,
    lookup_path: F,
    probe: &H,
) -> (r: Result<P, DetectError<P, E, C>>)
    requires
        match explicit_node_path {
            Some(path) => call_requires(*probe, (&path,)),
            None => call_requires(lookup_path, ("node",)),
        },
    ensures
        exists|findings: Findings<P, E, C>|
            #[trigger] finds_node(explicit_node_path, lookup_path, *probe, findings) && r
                == located_node(explicit_node_path, findings),
{
    let ghost findings: Findings<P, E, C> = arbitrary();
    match explicit_node_path {
        Some(path) => {
            let state = probe(&path);
            let ghost findings = Findings { node: state, ..findings };
            assert(finds_node(explicit_node_path, lookup_path, *probe, findings));
            match validate_existing_file(path, state, Setting::Node) {
                Ok(path) => Ok(path),
                Err(problem) => Err(DetectError::File(problem)),
            }
        },
        None => {
            let found = lookup_path("node");
            let ghost findings = Findings { node_on_path: found, ..findings };
            assert(finds_node(explicit_node_path, lookup_path, *probe, findings));
            match found {
                Some(path) => Ok(path),
                None => Err(DetectError::NodeNotFound),
            }
        },
    }
}

/// Whether these findings may come of the calls; `node` is looked for only once there is
/// a script.
pub open spec fn finds<
    P,
    E,
    C,
    F: FnOnce(&'static str) -> Option<P>,
    G: FnOnce() -> Result<P, C>,
    H: Fn(&P) -> FileState<E>,
>(
    overrides: EnvOverrides<P>,
    lookup_path: F,
    resolve_cached_path: G,
    probe: H,
    findings: Findings<P, E, C>,
) -> bool {
    &&& finds_script(overrides.language_server_path, resolve_cached_path, probe, findings)
    &&& located_script(overrides.language_server_path, findings) is Ok ==> finds_node(
        overrides.node_path,
        lookup_path,
        probe,
        findings,
    )
}

/// The mathematical value of what detection gives.
pub open spec fn outcome<P, E, C>(r: Result<Config<P>, DetectError<P, E, C>>) -> Result<
    ConfigView<P>,
    DetectError<P, E, C>,
> {
    match r {
        Ok(config) => Ok(config@),
        Err(error) => Err(error),
    }
}

impl<P> Config<P> {
    /// Detect the runtime command from environment variables and the local cache.
    ///
    /// Search order:
    /// - `COPILOT_LS_PATH` + (`COPILOT_NODE` or `node` on `$PATH`)
    /// - cached pinned install under the OS cache directory
    ///
    /// The cached install is not looked for when the environment names a script, and
    /// `$PATH` is not searched when it names a `node`.  No `node` is looked for at all
    /// unless there is a script to run.
    pub fn detect_with<
        E,
        C,
        F: FnOnce(&'static str) -> Option<P>,
        G: FnOnce() -> Result<P, C>,
        H: Fn(&P) -> FileState<E>,
    >(overrides: EnvOverrides<P>, lookup_path: F, resolve_cached_path: G, probe: H) -> (r: Result<
        Config<P>,
        DetectError<P, E, C>,
    >)
        requires
            match overrides.language_server_path {
                Some(path) => call_requires(probe, (&path,)),
                None => call_requires(resolve_cached_path, ()),
            },
            forall|findings: Findings<P, E, C>| #[trigger]
                finds_script(overrides.language_server_path, resolve_cached_path, probe, findings)
                    && located_script(overrides.language_server_path, findings) is Ok ==> match
                    overrides.node_path {
                    Some(path) => call_requires(probe, (&path,)),
                    None => call_requires(lookup_path, ("node",)),
                },
        ensures
            exists|findings: Findings<P, E, C>|
                #[trigger] finds(overrides, lookup_path, resolve_cached_path, probe, findings)
                    && outcome(r) == detected(overrides, findings),
    {
        let ghost findings: Findings<P, E, C> = arbitrary();
        let script = match overrides.language_server_path {
            Some(path) => {
                let state = probe(&path);
                proof {
                    findings.script = state;
                }
                match validate_readable_file(path, state, Setting::LanguageServer) {
                    Ok(path) => path,
                    Err(problem) => {
                        assert(finds(overrides, lookup_path, resolve_cached_path, probe, findings));
                        return Err(DetectError::File(problem));
                    },
                }
            },
            None => {
                let cached = resolve_cached_path();
                proof {
                    findings.cached = cached;
                }
                match cached {
                    Ok(path) => path,
                    Err(error) => {
                        assert(finds(overrides, lookup_path, resolve_cached_path, probe, findings));
                        return Err(DetectError::Cached(error));
                    },
                }
            },
        };
        assert(finds_script(overrides.language_server_path, resolve_cached_path, probe, findings));
        let program = locate_node(overrides.node_path, lookup_path, &probe);
        proof {
            let found = choose|found: Findings<P, E, C>|
                #[trigger] finds_node(overrides.node_path, lookup_path, probe, found) && program
                    == located_node(overrides.node_path, found);
            findings.node = found.node;
            findings.node_on_path = found.node_on_path;
            assert(finds_script(
                overrides.language_server_path,
                resolve_cached_path,
                probe,
                findings,
            ));
            assert(finds(overrides, lookup_path, resolve_cached_path, probe, findings));
        }
        match program {
            Ok(program) => Ok(launch_script(program, script)),
            Err(error) => Err(error),
        }
    }
}

// ── Laws ────────────────────────────────────────────────────────────────────

/// When the environment names a script, what is cached makes no difference.
pub proof fn law_named_script_beats_cache<P, E, C>(
    overrides: EnvOverrides<P>,
    findings: Findings<P, E, C>,
    cached: Result<P, C>,
)
    requires
        overrides.language_server_path is Some,
    ensures
        detected(overrides, findings) == detected(overrides, (Findings { cached, ..findings })),
{
}

/// When the environment names a `node`, what is on `$PATH` makes no difference.
pub proof fn law_named_node_beats_path<P, E, C>(
    overrides: EnvOverrides<P>,
    findings: Findings<P, E, C>,
    node_on_path: Option<P>,
)
    requires
        overrides.node_path is Some,
    ensures
        detected(overrides, findings) == detected(
            overrides,
            (Findings { node_on_path, ..findings }),
        ),
{
}

/// A script that the environment names and that cannot be read is an error: nothing is
/// used in its place.
pub proof fn law_bad_script_is_an_error<P, E, C>(
    overrides: EnvOverrides<P>,
    findings: Findings<P, E, C>,
)
    requires
        overrides.language_server_path is Some,
        !(findings.script is Readable),
    ensures
        detected(overrides, findings) matches Err(DetectError::File(problem)) && match problem {
            FileProblem::Missing { setting, path } => setting == Setting::LanguageServer && path
                == overrides.language_server_path->0,
            FileProblem::Unreadable { setting, path, .. } => setting == Setting::LanguageServer
                && path == overrides.language_server_path->0,
        },
{
}

/// A command is `node` with the script and `--stdio`, where the script and the `node`
/// are those that the environment names, or else the ones that were found.
pub proof fn law_command_runs_script<P, E, C>(
    overrides: EnvOverrides<P>,
    findings: Findings<P, E, C>,
)
    requires
        detected(overrides, findings) is Ok,
    ensures
        ({
            let config = detected(overrides, findings)->Ok_0;
            let script = match overrides.language_server_path {
                Some(path) => path,
                None => findings.cached->Ok_0,
            };
            &&& config.args == seq![ArgumentView::Path(script), ArgumentView::Text("--stdio"@)]
            &&& config.program == match overrides.node_path {
                Some(path) => path,
                None => findings.node_on_path->0,
            }
        }),
{
}

/// The cached script lies in a directory of its version, and nowhere else: each cache
/// directory has one.
pub proof fn law_cached_script_is_versioned<P>(cache_root: P)
    ensures
        cached_script(cache_root).base == cache_root,
        cached_script(cache_root).parts == seq![
            "copilot-helix"@,
            "copilot-language-server"@,
            "1.472.0"@,
            "node_modules/@github/copilot-language-server/dist/language-server.js"@,
        ],
{
    assert(cached_script(cache_root).parts =~= seq![
        "copilot-helix"@,
        "copilot-language-server"@,
        "1.472.0"@,
        "node_modules/@github/copilot-language-server/dist/language-server.js"@,
    ]);
}

/// Whenever there is a script that can be used and a `node` that can be used, there is a
/// command: the script is the one that the environment names, if it can be read, or else the
/// cached one; the `node` is the one that the environment names, if it is a file, or else
/// the one on `$PATH`.
pub proof fn law_detection_succeeds<P, E, C>(
    overrides: EnvOverrides<P>,
    findings: Findings<P, E, C>,
    script: P,
    program: P,
)
    requires
        match overrides.language_server_path {
            Some(path) => script == path && findings.script is Readable,
            None => findings.cached == Ok::<P, C>(script),
        },
        match overrides.node_path {
            Some(path) => program == path && !(findings.node is Missing),
            None => findings.node_on_path == Some(program),
        },
    ensures
        detected(overrides, findings) matches Ok(config) && {
            &&& config.program == program
            &&& config.args.len() == 2
            &&& config.args[0] == ArgumentView::Path(script)
            &&& config.args[1] == ArgumentView::<P>::Text("--stdio"@)
        },
{
}

/// Without a script, detection fails for want of it: with what is wrong with the one that
/// the environment names, or with why there is no cached one, whatever is known of `node`.
pub proof fn law_detection_needs_a_script<P, E, C>(
    overrides: EnvOverrides<P>,
    findings: Findings<P, E, C>,
)
    ensures
        overrides.language_server_path is Some && findings.script is Missing ==> detected(
            overrides,
            findings,
        ) == Err::<ConfigView<P>, DetectError<P, E, C>>(
            DetectError::File(
                FileProblem::Missing {
                    setting: Setting::LanguageServer,
                    path: overrides.language_server_path->0,
                },
            ),
        ),
        overrides.language_server_path is Some && findings.script is Unreadable ==> detected(
            overrides,
            findings,
        ) == Err::<ConfigView<P>, DetectError<P, E, C>>(
            DetectError::File(
                FileProblem::Unreadable {
                    setting: Setting::LanguageServer,
                    path: overrides.language_server_path->0,
                    cause: findings.script->Unreadable_0,
                },
            ),
        ),
        overrides.language_server_path is None && findings.cached is Err ==> detected(
            overrides,
            findings,
        ) == Err::<ConfigView<P>, DetectError<P, E, C>>(
            DetectError::Cached(findings.cached->Err_0),
        ),
{
}

/// With a script but without a `node`, detection fails for want of that: with the path that
/// the environment names and that is no file, or because there is none on `$PATH`.
pub proof fn law_detection_needs_a_node<P, E, C>(
    overrides: EnvOverrides<P>,
    findings: Findings<P, E, C>,
)
    requires
        match overrides.language_server_path {
            Some(_) => findings.script is Readable,
            None => findings.cached is Ok,
        },
    ensures
        overrides.node_path is Some && findings.node is Missing ==> detected(overrides, findings)
            == Err::<ConfigView<P>, DetectError<P, E, C>>(
            DetectError::File(
                FileProblem::Missing { setting: Setting::Node, path: overrides.node_path->0 },
            ),
        ),
        overrides.node_path is None && findings.node_on_path is None ==> detected(
            overrides,
            findings,
        ) == Err::<ConfigView<P>, DetectError<P, E, C>>(DetectError::NodeNotFound),
{
}

/// What was found is what the calls gave: the script that the environment names is probed,
/// or the cached one resolved; and, once there is a script, the `node` that the environment
/// names is probed, or one looked up by that name.
pub proof fn law_findings_come_of_the_calls<
    P,
    E,
    C,
    F: FnOnce(&'static str) -> Option<P>,
    G: FnOnce() -> Result<P, C>,
    H: Fn(&P) -> FileState<E>,
>(
    overrides: EnvOverrides<P>,
    lookup_path: F,
    resolve_cached_path: G,
    probe: H,
    findings: Findings<P, E, C>,
)
    requires
        finds(overrides, lookup_path, resolve_cached_path, probe, findings),
    ensures
        overrides.language_server_path matches Some(path) ==> call_ensures(
            probe,
            (&path,),
            findings.script,
        ),
        overrides.language_server_path is None ==> call_ensures(
            resolve_cached_path,
            (),
            findings.cached,
        ),
        (match overrides.language_server_path {
            Some(_) => findings.script is Readable,
            None => findings.cached is Ok,
        }) ==> match overrides.node_path {
            Some(path) => call_ensures(probe, (&path,), findings.node),
            None => call_ensures(lookup_path, ("node",), findings.node_on_path),
        },
{
}

/// A `node` is found where the call that looks for it finds one.
pub proof fn law_located_node<
    P,
    E,
    C,
    F: FnOnce(&'static str) -> Option<P>,
    H: Fn(&P) -> FileState<E>,
>(node_path: Option<P>, lookup_path: F, probe: H, findings: Findings<P, E, C>)
    requires
        finds_node(node_path, lookup_path, probe, findings),
    ensures
        node_path is Some ==> call_ensures(probe, (&node_path->0,), findings.node) && located_node(
            node_path,
            findings,
        ) == if findings.node is Missing {
            Err::<P, DetectError<P, E, C>>(
                DetectError::File(
                    FileProblem::Missing { setting: Setting::Node, path: node_path->0 },
                ),
            )
        } else {
            Ok(node_path->0)
        },
        node_path is None ==> call_ensures(lookup_path, ("node",), findings.node_on_path)
            && located_node(node_path, findings) == match findings.node_on_path {
            Some(path) => Ok::<P, DetectError<P, E, C>>(path),
            None => Err(DetectError::NodeNotFound),
        },
{
}

/// A path is accepted as a file unless there is none, and as a file to read only if it can
/// be opened; what is wrong is told of the path and the setting.
pub proof fn law_file_checks<P, E>(path: P, cause: E, setting: Setting)
    ensures
        existing(path, FileState::<E>::Readable, setting) == Ok::<P, FileProblem<P, E>>(path),
        existing(path, FileState::Unreadable(cause), setting) == Ok::<P, FileProblem<P, E>>(path),
        existing(path, FileState::<E>::Missing, setting) == Err::<P, FileProblem<P, E>>(
            FileProblem::Missing { setting, path },
        ),
        readable(path, FileState::<E>::Readable, setting) == Ok::<P, FileProblem<P, E>>(path),
        readable(path, FileState::Unreadable(cause), setting) == Err::<P, FileProblem<P, E>>(
            FileProblem::Unreadable { setting, path, cause },
        ),
        readable(path, FileState::<E>::Missing, setting) == Err::<P, FileProblem<P, E>>(
            FileProblem::Missing { setting, path },
        ),
{
}

/// What is wrong with a file is told with the name of its setting and the path as it is
/// shown, whole.
pub proof fn law_file_problems_are_told<P, E>(problem: FileProblem<P, E>, shown_path: Seq<char>)
    ensures
        ({
            let setting = match problem {
                FileProblem::Missing { setting, .. } => setting,
                FileProblem::Unreadable { setting, .. } => setting,
            };
            let name = match setting {
                Setting::LanguageServer => "COPILOT_LS_PATH"@,
                Setting::Node => "COPILOT_NODE"@,
                Setting::Cached => "cached Copilot language server"@,
            };
            let ending = if problem is Missing {
                " does not point to an existing file"@
            } else {
                " is not readable"@
            };
            problem.message(shown_path) == name + "="@ + shown_path + ending
        }),
{
}

/// The first file is a candidate that is a file, and none before it is.
pub proof fn law_first_file<P, F: Fn(&P) -> bool>(candidates: Seq<P>, is_file: F, i: int, j: int)
    ensures
        first_file(candidates, is_file, i) ==> 0 <= i < candidates.len() && call_ensures(
            is_file,
            (&candidates[i],),
            true,
        ),
        first_file(candidates, is_file, i) && 0 <= j < i ==> call_ensures(
            is_file,
            (&candidates[j],),
            false,
        ),
        no_file(candidates, is_file, candidates.len() as int) && 0 <= j < candidates.len()
            ==> call_ensures(is_file, (&candidates[j],), false),
{
}

/// The cached script is looked for where it is installed below the cache directory, and is
/// found there exactly when it can be read; there must be a cache directory.
pub proof fn law_cache_lookup<P, E, H: FnOnce(&JoinedPath<P>) -> FileState<E>>(
    cache_root: Option<P>,
    probe: H,
    r: Result<JoinedPath<P>, CacheError<P, E>>,
)
    requires
        cache_lookup(cache_root, probe, r),
    ensures
        cache_root is None ==> r matches Err(CacheError::NoCacheDirectory),
        cache_root is Some && r is Ok ==> {
            &&& r->Ok_0@ == cached_script(cache_root->0)
            &&& call_ensures(probe, (&r->Ok_0,), FileState::<E>::Readable)
        },
        cache_root is Some && r is Err ==> exists|path: JoinedPath<P>, state: FileState<E>|
            #[trigger] call_ensures(probe, (&path,), state) && path@ == cached_script(cache_root->0)
                && !(state is Readable) && (r->Err_0 matches CacheError::NotInstalled(_)),
{
    if cache_root is Some {
        let (path, state) = choose|path: JoinedPath<P>, state: FileState<E>|
            #[trigger] call_ensures(probe, (&path,), state) && path@ == cached_script(cache_root->0)
                && r == installed(path, state);
        assert(call_ensures(probe, (&path,), state));
    }
}

/// The script of a package is below its directory, wherever that is.
pub proof fn law_script_is_below<P>(install_dir: JoinedPathView<P>)
    ensures
        script_below(install_dir).base == install_dir.base,
        script_below(install_dir).parts.len() == install_dir.parts.len() + 1,
        script_below(install_dir).parts.take(install_dir.parts.len() as int) == install_dir.parts,
        script_below(install_dir).parts.last()
            == "node_modules/@github/copilot-language-server/dist/language-server.js"@,
{
    assert(script_below(install_dir).parts.take(install_dir.parts.len() as int)
        =~= install_dir.parts);
}

/// A command stands for its program and its arguments, one by one.
pub proof fn law_command_in_order<P>(config: Config<P>, path: P, text: String)
    ensures
        config@.program == config.program,
        config@.args.len() == config.args@.len(),
        forall|i: int| 0 <= i < config.args@.len() ==> #[trigger] config@.args[i] == config.args@[i]@,
        Argument::Path(path)@ == ArgumentView::Path(path),
        Argument::<P>::Text(text)@ == ArgumentView::<P>::Text(text@),
{
}

/// A joined path stands for its base and its parts, one by one.
pub proof fn law_path_in_order<P>(path: JoinedPath<P>)
    ensures
        path@.base == path.base,
        path@.parts.len() == path.parts@.len(),
        forall|i: int| 0 <= i < path.parts@.len() ==> #[trigger] path@.parts[i] == path.parts@[i]@,
{
}

/// Detection gives the command that was found, or the reason why there is none.
pub proof fn law_outcome<P, E, C>(config: Config<P>, error: DetectError<P, E, C>)
    ensures
        outcome(Ok::<Config<P>, DetectError<P, E, C>>(config)) == Ok::<
            ConfigView<P>,
            DetectError<P, E, C>,
        >(config@),
        outcome(Err::<Config<P>, DetectError<P, E, C>>(error)) == Err::<
            ConfigView<P>,
            DetectError<P, E, C>,
        >(error),
{
}

/// A missing `node`, cache directory or cached script is told with what to do about it.
pub proof fn law_missing_things_are_told<P, E>(problem: FileProblem<JoinedPath<P>, E>)
    ensures
        node_not_found()
            == "node not found in $PATH — install Node.js ≥22 or set COPILOT_NODE=/path/to/node"@,
        CacheError::<P, E>::NoCacheDirectory.message() == "could not determine OS cache directory"@,
        CacheError::NotInstalled(problem).message() == "cached Copilot language server v"@
            + "1.472.0"@
            + " not found. Run `copilot-helix --install-ls` or set COPILOT_LS_PATH=/path/to/language-server.js"@,
{
}

} // verus!
