use std::path::PathBuf;

use copilot_helix::config::{
    cache_install_dir, cached_install_dir_for, cached_language_server_path,
    cached_language_server_path_for, cached_language_server_path_if_exists,
    global_language_server_path, locate_node, node_not_found_message, npm_path, package_spec,
    validate_existing_file, validate_readable_file, which, Argument, CacheError, Config,
    DetectError, EnvOverrides, FileProblem, FileState, JoinedPath, Setting, PACKAGE_VERSION,
    STDIO_FLAG,
};

fn to_path(path: &JoinedPath<PathBuf>) -> PathBuf {
    path.parts.iter().fold(path.base.clone(), |path, part| path.join(part))
}

/// A machine on which every file but those under `/nonexistent` can be read.
fn probe(path: &PathBuf) -> FileState<String> {
    if path.starts_with("/nonexistent") {
        FileState::Missing
    } else {
        FileState::Readable
    }
}

type Detected = Result<Config<PathBuf>, DetectError<PathBuf, String, String>>;

fn message(error: &DetectError<PathBuf, String, String>) -> String {
    match error {
        DetectError::File(problem) => {
            let path = match problem {
                FileProblem::Missing { path, .. } => path,
                FileProblem::Unreadable { path, .. } => path,
            };
            problem.description(&format!("{path:?}"))
        }
        DetectError::NodeNotFound => node_not_found_message().to_owned(),
        DetectError::Cached(error) => error.clone(),
    }
}

#[test]
fn detect_prefers_local_override_when_set() {
    let node_path = PathBuf::from("/tmp/copilot-helix-config-node");
    let language_server_path = PathBuf::from("/tmp/copilot-helix-config-language-server.js");
    let overrides = EnvOverrides {
        node_path: Some(node_path.clone()),
        language_server_path: Some(language_server_path.clone()),
    };

    let config: Detected = Config::detect_with(overrides, |_| None, || unreachable!(), probe);
    let config = config.unwrap();

    assert_eq!(config.program, node_path);
    assert_eq!(
        config.args,
        vec![
            Argument::Path(language_server_path),
            Argument::Text(STDIO_FLAG.to_owned()),
        ]
    );
}

#[test]
fn invalid_local_override_errors() {
    let node_path = PathBuf::from("/tmp/copilot-helix-config-node");
    let overrides = EnvOverrides {
        node_path: Some(node_path),
        language_server_path: Some(PathBuf::from("/nonexistent/language-server.js")),
    };

    let config: Detected = Config::detect_with(overrides, |_| None, || unreachable!(), probe);
    let err = config.unwrap_err();

    assert!(message(&err).contains("COPILOT_LS_PATH"));
}

#[test]
fn detect_uses_cached_install_by_default() {
    let node_path = PathBuf::from("/usr/bin/node");
    let cached_path = PathBuf::from("/cache/copilot-language-server/dist/language-server.js");

    let config: Detected = Config::detect_with(
        EnvOverrides::default(),
        |name| (name == "node").then(|| node_path.clone()),
        || Ok(cached_path.clone()),
        probe,
    );
    let config = config.unwrap();

    assert_eq!(config.program, node_path);
    assert_eq!(
        config.args,
        vec![
            Argument::Path(cached_path),
            Argument::Text(STDIO_FLAG.to_owned())
        ]
    );
}

#[test]
fn missing_cached_install_without_override_errors() {
    let node_path = PathBuf::from("/usr/bin/node");
    let config: Detected = Config::detect_with(
        EnvOverrides::default(),
        |name| (name == "node").then(|| node_path.clone()),
        || Err("cached install missing".to_owned()),
        probe,
    );
    let err = config.unwrap_err();

    assert!(message(&err).contains("cached install missing"));
}

#[test]
fn cache_path_is_versioned_and_deterministic() {
    let cache_root = PathBuf::from("/tmp/cache-root");
    let install_dir = cached_install_dir_for(cache_root.clone());
    let shown_dir = to_path(&install_dir);
    let script_path = cached_language_server_path_for(install_dir);

    assert_eq!(
        shown_dir,
        cache_root
            .join("copilot-helix")
            .join("copilot-language-server")
            .join(PACKAGE_VERSION)
    );
    assert_eq!(
        to_path(&script_path),
        shown_dir.join("node_modules/@github/copilot-language-server/dist/language-server.js")
    );
}

#[test]
fn package_is_pinned() {
    assert_eq!(package_spec(), "@github/copilot-language-server@1.472.0");
}

#[test]
fn file_problems_are_described() {
    let missing: Result<u8, FileProblem<u8, ()>> =
        validate_existing_file(1, FileState::Missing, Setting::Node);
    assert_eq!(
        missing.unwrap_err().description("\"/n\""),
        "COPILOT_NODE=\"/n\" does not point to an existing file"
    );
    let unreadable = validate_readable_file(1, FileState::Unreadable("denied"), Setting::LanguageServer);
    match unreadable {
        Err(problem) => {
            assert_eq!(problem.description("\"/s\""), "COPILOT_LS_PATH=\"/s\" is not readable");
            assert!(matches!(problem, FileProblem::Unreadable { path: 1, cause: "denied", .. }));
        }
        Ok(_) => panic!("expected an error"),
    }
    // A program need not be readable to be run.
    assert!(validate_existing_file(1, FileState::Unreadable("denied"), Setting::Node).is_ok());
}

#[test]
fn node_is_taken_from_the_environment_or_the_path() {
    let explicit: Result<u8, DetectError<u8, (), ()>> =
        locate_node(Some(1), |_| unreachable!(), &|_: &u8| FileState::Readable);
    assert!(matches!(explicit, Ok(1)));
    let missing: Result<u8, DetectError<u8, (), ()>> =
        locate_node(Some(1), |_| Some(2), &|_: &u8| FileState::Missing);
    assert!(matches!(
        missing,
        Err(DetectError::File(FileProblem::Missing { setting: Setting::Node, path: 1 }))
    ));
    let found: Result<u8, DetectError<u8, (), ()>> =
        locate_node(None, |_| Some(2), &|_: &u8| unreachable!());
    assert!(matches!(found, Ok(2)));
    let none: Result<u8, DetectError<u8, (), ()>> =
        locate_node(None, |_| None, &|_: &u8| unreachable!());
    assert!(matches!(none, Err(DetectError::NodeNotFound)));
    assert_eq!(
        node_not_found_message(),
        "node not found in $PATH — install Node.js ≥22 or set COPILOT_NODE=/path/to/node"
    );
}

#[test]
fn node_is_not_looked_for_without_a_script() {
    let missing: Detected = Config::detect_with(
        EnvOverrides {
            node_path: None,
            language_server_path: Some(PathBuf::from("/nonexistent/language-server.js")),
        },
        |_| unreachable!(),
        || unreachable!(),
        probe,
    );
    assert!(matches!(missing, Err(DetectError::File(_))));
    let uncached: Detected = Config::detect_with(
        EnvOverrides::default(),
        |_| unreachable!(),
        || Err("not cached".to_owned()),
        probe,
    );
    assert!(matches!(uncached, Err(DetectError::Cached(_))));
}

#[test]
fn configurations_can_be_copied() {
    let config: Detected = Config::detect_with(
        EnvOverrides::default(),
        |_| Some(PathBuf::from("/n")),
        || Ok(PathBuf::from("/s")),
        probe,
    );
    let config = config.unwrap();
    assert_eq!(config.clone(), config);
}

#[test]
fn cached_error_comes_before_node_error() {
    let config: Result<Config<u8>, DetectError<u8, (), &str>> = Config::detect_with(
        EnvOverrides::default(),
        |_| None,
        || Err("not cached"),
        |_: &u8| FileState::Readable,
    );
    assert!(matches!(config, Err(DetectError::Cached("not cached"))));
}

#[test]
fn cached_script_must_be_readable() {
    let root = || Some(PathBuf::from("/c"));
    let found: Result<JoinedPath<PathBuf>, CacheError<PathBuf, String>> =
        cached_language_server_path(root(), |path: &JoinedPath<PathBuf>| probe(&to_path(path)));
    assert_eq!(
        to_path(&found.unwrap()),
        PathBuf::from(
            "/c/copilot-helix/copilot-language-server/1.472.0/\
             node_modules/@github/copilot-language-server/dist/language-server.js"
        )
    );

    let missing = cached_language_server_path(root(), |_: &JoinedPath<PathBuf>| {
        FileState::<()>::Missing
    });
    match missing {
        Err(error) => {
            assert_eq!(
                error.description(),
                "cached Copilot language server v1.472.0 not found. Run `copilot-helix --install-ls` \
                 or set COPILOT_LS_PATH=/path/to/language-server.js"
            );
            match error {
                CacheError::NotInstalled(problem) => assert_eq!(
                    problem.description("\"p\""),
                    "cached Copilot language server=\"p\" does not point to an existing file"
                ),
                CacheError::NoCacheDirectory => panic!("there is a cache directory"),
            }
        }
        Ok(_) => panic!("expected an error"),
    }
}

#[test]
fn cache_needs_a_directory() {
    let dir: Result<JoinedPath<u8>, CacheError<u8, ()>> = cache_install_dir(None);
    assert_eq!(dir.unwrap_err().description(), "could not determine OS cache directory");
    let path = cached_language_server_path(None, |_: &JoinedPath<u8>| -> FileState<()> {
        unreachable!()
    });
    assert!(matches!(path, Err(CacheError::NoCacheDirectory)));
}

#[test]
fn uninstalled_script_is_no_error_when_only_looked_for() {
    let look = |root: Option<u8>, state: fn(&JoinedPath<u8>) -> FileState<()>| {
        cached_language_server_path_if_exists(root, state)
    };
    assert!(matches!(look(Some(1), |_| FileState::Readable), Ok(Some(path)) if path.base == 1));
    assert!(matches!(look(Some(1), |_| FileState::Missing), Ok(None)));
    assert!(matches!(look(Some(1), |_| FileState::Unreadable(())), Ok(None)));
    assert!(matches!(
        look(None, |_| FileState::Readable),
        Err(CacheError::NoCacheDirectory)
    ));
}

#[test]
fn first_candidate_that_is_a_file_is_found() {
    let even = |n: &u8| *n % 2 == 0;
    assert_eq!(which(vec![1, 2, 3, 4], even, |n| n), Some(2));
    assert_eq!(which(vec![1, 3], even, |n| n), None);
    assert_eq!(which(Vec::<u8>::new(), |_: &u8| true, |n| n), None);
}

#[test]
fn found_program_is_made_absolute() {
    let find = |dir: &str| {
        which(
            vec![PathBuf::from("/nonexistent/node"), PathBuf::from(dir).join("node")],
            |path: &PathBuf| matches!(probe(path), FileState::Readable),
            |path: PathBuf| PathBuf::from("/work").join(path),
        )
    };
    assert_eq!(find("bin"), Some(PathBuf::from("/work/bin/node")));
    assert_eq!(find(""), Some(PathBuf::from("/work/node")));
    assert_eq!(find("/usr/bin"), Some(PathBuf::from("/usr/bin/node")));
    assert!(find("bin").unwrap().is_absolute());
}

#[test]
fn npm_must_be_found() {
    assert_eq!(npm_path(Some(1)), Ok(1));
    assert_eq!(
        npm_path::<u8>(None).unwrap_err().description(),
        "npm not found in $PATH — install Node.js/npm ≥22"
    );
}

#[test]
fn global_script_is_below_the_npm_root() {
    let path = global_language_server_path(PathBuf::from("/usr/lib/node_modules"));
    assert_eq!(
        to_path(&path),
        PathBuf::from("/usr/lib/node_modules/@github/copilot-language-server/dist/language-server.js")
    );
}
