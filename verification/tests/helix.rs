use std::path::PathBuf;

use copilot_helix::helix::{
    analyze_document, analyze_languages_toml, command_points_to_copilot_helix,
    find_copilot_server_name, language_uses_server, languages_toml_path, points_to_copilot_helix,
    HelixConfigStatus, TomlEntry, TomlValue,
};

fn analyze(contents: &str) -> HelixConfigStatus<()> {
    match analyze_languages_toml(Some(contents), ()) {
        Ok(status) => status,
        Err(_) => panic!("status"),
    }
}

#[test]
fn detects_missing_config_file_as_unconfigured() {
    let status = analyze_languages_toml(None, PathBuf::new()).ok().expect("status");

    assert!(!status.is_configured);
}

#[test]
fn requires_matching_server_block_and_language_reference() {
    let status = analyze_languages_toml(
        Some(
            r#"
[language-server.copilot]
command = "copilot-helix"
args = ["--stdio"]
"#,
        ),
        PathBuf::new(),
    )
    .ok()
    .expect("status");

    assert!(!status.is_configured);
}

#[test]
fn accepts_absolute_copilot_helix_command_with_language_usage() {
    let status = analyze_languages_toml(
        Some(
            r#"
[language-server.ai]
command = "/tmp/copilot-helix"
args = ["--stdio"]

[[language]]
name = "rust"
language-servers = ["rust-analyzer", "ai"]
"#,
        ),
        PathBuf::new(),
    )
    .ok()
    .expect("status");

    assert!(status.is_configured);
    assert_eq!(status.server_name.as_deref(), Some("ai"));
}

#[test]
fn missing_file_has_no_server_and_keeps_the_path() {
    let status = analyze_languages_toml(None, "p").ok().expect("status");
    assert_eq!(
        status,
        HelixConfigStatus { is_configured: false, server_name: None, path: "p" }
    );
}

#[test]
fn broken_documents_are_errors() {
    match analyze_languages_toml(Some("[language-server"), ()) {
        Ok(_) => panic!("expected an error"),
        Err(error) => assert_eq!(error.description(), "parsing Helix languages.toml"),
    }
    assert!(analyze_languages_toml(Some("a = 1\na = 2"), ()).is_err());
}

#[test]
fn unused_server_is_named() {
    let status = analyze("[language-server.copilot]\ncommand = \"copilot-helix\"");
    assert_eq!(status.server_name.as_deref(), Some("copilot"));
    let status = analyze("");
    assert_eq!(status.server_name, None);
}

#[test]
fn tables_are_listed_by_their_keys() {
    let status = analyze(
        r#"
[language-server.zed]
command = "copilot-helix"

[language-server.abc]
command = "copilot-helix.exe"

[language-server.aaa]
command = "other"

[[language]]
name = "rust"
language-servers = ["zed"]
"#,
    );
    assert_eq!(status.server_name.as_deref(), Some("abc"));
    assert!(!status.is_configured);
}

#[test]
fn values_of_all_types_are_read() {
    let status = analyze(
        r#"
number = 1
float = 1.5
flag = true
date = 1979-05-27
language-server = { a = 1, b = { command = 2 }, c = { command = "bin/copilot-helix" } }
language = [1, { name = "x" }, { language-servers = "c" }, { language-servers = [1, "b", "c"] }]
"#,
    );
    assert_eq!(status.server_name.as_deref(), Some("c"));
    assert!(status.is_configured);
}

#[test]
fn commands_are_known_by_their_file_name() {
    for command in [
        "copilot-helix",
        "copilot-helix.exe",
        "/usr/bin/copilot-helix",
        "./copilot-helix",
        "bin//copilot-helix/",
        "/a/copilot-helix/./",
        "/opt/a:b/copilot-helix",
        "bin:/copilot-helix",
        "C:/tools/copilot-helix.exe",
    ] {
        assert!(command_points_to_copilot_helix(command), "{command}");
    }
    for command in [
        "",
        "/",
        ".",
        "..",
        "copilot-helix/..",
        "copilot-helix/x",
        "my-copilot-helix",
        "copilot-helix --stdio",
        "Copilot-Helix",
        "C:\\tools\\other.exe",
        "C:/tools/other.exe",
        "\\\\server\\share\\other.exe",
        "x:copilot-helix.cmd",
        "/opt/copilot-helix:x",
    ] {
        assert!(!command_points_to_copilot_helix(command), "{command}");
    }
}

#[test]
fn commands_with_colons_are_analyzed() {
    let status = analyze(
        r#"
[language-server.a]
command = "/opt/copilot-helix/x:y"

[language-server.b]
command = "/opt/a:b/copilot-helix"

[[language]]
name = "rust"
language-servers = ["b"]
"#,
    );
    assert_eq!(status.server_name.as_deref(), Some("b"));
    assert!(status.is_configured);
}

#[test]
fn command_without_file_name_counts_itself() {
    assert!(points_to_copilot_helix("anything", Some("copilot-helix")));
    assert!(!points_to_copilot_helix("copilot-helix", Some("anything")));
    assert!(points_to_copilot_helix("copilot-helix.exe", None));
    assert!(!points_to_copilot_helix("", None));
}

fn text(text: &str) -> TomlValue {
    TomlValue::Text(text.to_owned())
}

fn entry(key: &str, value: TomlValue) -> TomlEntry {
    TomlEntry { key: key.to_owned(), value }
}

#[test]
fn documents_are_analyzed_in_order() {
    let server = |command: &str| TomlValue::Table(vec![entry("command", text(command))]);
    let language = TomlValue::Table(vec![entry(
        "language-servers",
        TomlValue::Array(vec![TomlValue::Other, text("second")]),
    )]);
    let doc = TomlValue::Table(vec![
        entry(
            "language-server",
            TomlValue::Table(vec![
                entry("first", server("other")),
                entry("second", server("copilot-helix")),
                entry("third", server("copilot-helix")),
            ]),
        ),
        entry("language", TomlValue::Array(vec![TomlValue::Other, language])),
    ]);
    assert_eq!(find_copilot_server_name(&doc).as_deref(), Some("second"));
    assert!(language_uses_server(&doc, "second"));
    assert!(!language_uses_server(&doc, "third"));
    let status = analyze_document(&doc, 1);
    assert!(status.is_configured);
    assert_eq!(status.path, 1);
    assert!(doc.get("language").is_some());
    assert!(doc.get("missing").is_none());
    assert!(text("x").get("x").is_none());
}

#[test]
fn languages_toml_is_below_the_config_directory() {
    let path = languages_toml_path(Some("/c")).expect("path");
    assert_eq!(path.base, "/c");
    assert_eq!(path.parts, ["helix", "languages.toml"]);
    assert_eq!(
        languages_toml_path::<()>(None).unwrap_err().description(),
        "could not determine home/config directory"
    );
}
