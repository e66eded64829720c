//! Finds out whether Helix is configured to use this program.

use vstd::prelude::*;

use crate::config;
use crate::config::JoinedPath;
use crate::json;
use crate::text::same_text;

verus! {

// ── TOML documents ──────────────────────────────────────────────────────────

/// A TOML value as a mathematical value, as far as this module looks into one.
pub enum Toml {
    Text(Seq<char>),
    Array(Seq<Toml>),
    /// The keys and values of a table, in the order in which they are listed.
    Table(Seq<(Seq<char>, Toml)>),
    /// A number, a boolean or a date.
    Other,
}

/// The value of the first entry with a key.
pub open spec fn lookup(entries: Seq<(Seq<char>, Toml)>, key: Seq<char>) -> Option<Toml>
    decreases entries.len(),
{
    if entries.len() == 0 {
        None
    } else if entries[0].0 == key {
        Some(entries[0].1)
    } else {
        lookup(entries.skip(1), key)
    }
}

impl Toml {
    /// The member of a table.
    pub open spec fn get(self, key: Seq<char>) -> Option<Toml> {
        match self {
            Toml::Table(entries) => lookup(entries, key),
            _ => None,
        }
    }
}

/// A TOML value.
#[derive(Debug)]
pub enum TomlValue {
    Text(String),
    Array(Vec<TomlValue>),
    Table(Vec<TomlEntry>),
    Other,
}

/// A key of a TOML table, with its value.
#[derive(Debug)]
pub struct TomlEntry {
    pub key: String,
    pub value: TomlValue,
}

pub open spec fn items_view(items: Seq<TomlValue>) -> Seq<Toml>
    decreases items,
{
    Seq::new(
        items.len(),
        |i: int|
            if 0 <= i < items.len() {
                items[i]@
            } else {
                Toml::Other
            },
    )
}

pub open spec fn entries_view(entries: Seq<TomlEntry>) -> Seq<(Seq<char>, Toml)>
    decreases entries,
{
    Seq::new(
        entries.len(),
        |i: int|
            if 0 <= i < entries.len() {
                (entries[i].key@, entries[i].value@)
            } else {
                (Seq::empty(), Toml::Other)
            },
    )
}

impl TomlValue {
    pub open spec fn view(&self) -> Toml
        decreases self,
    {
        match self {
            TomlValue::Text(text) => Toml::Text(text@),
            TomlValue::Array(items) => Toml::Array(items_view(items@)),
            TomlValue::Table(entries) => Toml::Table(entries_view(entries@)),
            TomlValue::Other => Toml::Other,
        }
    }

    /// The member of a table.
    pub fn get(&self, key: &str) -> (r: Option<&TomlValue>)
        ensures
            match r {
                Some(value) => self@.get(key@) == Some(value@),
                None => self@.get(key@) is None,
            },
    {
        let entries = match self {
            TomlValue::Table(entries) => entries,
            _ => return None,
        };
        let ghost all = entries_view(entries@);
        let mut i: usize = 0;
        assert(all.skip(0) =~= all);
        while i < entries.len()
            invariant
                i <= entries.len(),
                all == entries_view(entries@),
                self@ == Toml::Table(all),
                lookup(all, key@) == lookup(all.skip(i as int), key@),
            decreases entries.len() - i,
        {
            assert(all.skip(i as int)[0] == all[i as int]);
            assert(all.skip(i as int).skip(1) =~= all.skip(i + 1));
            if same_text(entries[i].key.as_str(), key) {
                return Some(&entries[i].value);
            }
            i = i + 1;
        }
        None
    }
}

#[verifier::external_type_specification]
#[verifier::external_body]
pub struct ExTomlValue(toml::Value);

#[verifier::external_type_specification]
#[verifier::external_body]
pub struct ExTomlError(toml::de::Error);

/// What a value of the `toml` crate holds.
pub uninterp spec fn toml_tree(value: toml::Value) -> Toml;

/// The document that the `toml` crate reads from a text, if the text is one.
pub uninterp spec fn toml_document(text: Seq<char>) -> Option<Toml>;

/// The outermost layer of a value of the `toml` crate.
pub enum TomlLayer<'a> {
    Text(&'a str),
    Array(Vec<&'a toml::Value>),
    Table(Vec<(&'a str, &'a toml::Value)>),
    Other,
}

impl<'a> TomlLayer<'a> {
    pub open spec fn view(&self) -> Toml {
        match self {
            TomlLayer::Text(text) => Toml::Text(text@),
            TomlLayer::Array(items) => Toml::Array(
                items@.map_values(|item: &toml::Value| toml_tree(*item)),
            ),
            TomlLayer::Table(entries) => Toml::Table(
                entries@.map_values(
                    |entry: (&str, &toml::Value)| (entry.0@, toml_tree(*entry.1)),
                ),
            ),
            TomlLayer::Other => Toml::Other,
        }
    }
}

/// Reads a text with `toml`'s `FromStr` for `Value`, which takes a whole document.
/// Nothing is said of what a document holds but that the text alone decides it.
#[verifier::external_body]
fn parse_toml(contents: &str) -> (r: Result<toml::Value, toml::de::Error>)
    ensures
        match r {
            Ok(value) => toml_document(contents@) == Some(toml_tree(value)),
            Err(_) => toml_document(contents@) is None,
        },
{
    contents.parse()
}

/// Takes the outermost layer off a `toml::Value`: its text, its items, or its entries
/// as `toml::Table` lists them.  Numbers, booleans and dates are not told apart.
#[verifier::external_body]
fn open_toml<'a>(value: &'a toml::Value) -> (r: TomlLayer<'a>)
    ensures
        r@ == toml_tree(*value),
{
    match value {
        toml::Value::String(text) => TomlLayer::Text(text.as_str()),
        toml::Value::Array(items) => TomlLayer::Array(items.iter().collect()),
        toml::Value::Table(table) => {
            TomlLayer::Table(table.iter().map(|(key, item)| (key.as_str(), item)).collect())
        },
        toml::Value::Integer(_) => TomlLayer::Other,
        toml::Value::Float(_) => TomlLayer::Other,
        toml::Value::Boolean(_) => TomlLayer::Other,
        toml::Value::Datetime(_) => TomlLayer::Other,
    }
}

/// Copies a value of the `toml` crate.
fn read_toml(value: &toml::Value) -> (r: TomlValue)
    ensures
        r@ == toml_tree(*value),
    decreases toml_tree(*value),
{
    let layer = open_toml(value);
    match &layer {
        TomlLayer::Text(text) => TomlValue::Text((*text).to_owned()),
        TomlLayer::Array(items) => {
            let mut copies: Vec<TomlValue> = Vec::new();
            let mut i: usize = 0;
            while i < items.len()
                invariant
                    layer@ == toml_tree(*value),
                    layer@ == Toml::Array(
                        items@.map_values(|item: &toml::Value| toml_tree(*item)),
                    ),
                    i <= items.len(),
                    copies.len() == i,
                    forall|k: int|
                        0 <= k < i ==> (#[trigger] copies@[k])@ == toml_tree(*items@[k]),
                decreases items.len() - i,
            {
                proof {
                    let trees = items@.map_values(|item: &toml::Value| toml_tree(*item));
                    assert(trees[i as int] == toml_tree(*items@[i as int]));
                    let tree = toml_tree(*value);
                    assert(tree->Array_0 == trees);
                    assert(decreases_to!(tree => tree->Array_0));
                    assert(decreases_to!(trees => trees[i as int]));
                }
                copies.push(read_toml(items[i]));
                i = i + 1;
            }
            let r = TomlValue::Array(copies);
            assert(items_view(copies@) =~= items@.map_values(
                |item: &toml::Value| toml_tree(*item),
            ));
            r
        },
        TomlLayer::Table(entries) => {
            let mut copies: Vec<TomlEntry> = Vec::new();
            let mut i: usize = 0;
            while i < entries.len()
                invariant
                    layer@ == toml_tree(*value),
                    layer@ == Toml::Table(
                        entries@.map_values(
                            |entry: (&str, &toml::Value)| (entry.0@, toml_tree(*entry.1)),
                        ),
                    ),
                    i <= entries.len(),
                    copies.len() == i,
                    forall|k: int|
                        0 <= k < i ==> (#[trigger] copies@[k]).key@ == entries@[k].0@
                            && copies@[k].value@ == toml_tree(*entries@[k].1),
                decreases entries.len() - i,
            {
                proof {
                    let trees = entries@.map_values(
                        |entry: (&str, &toml::Value)| (entry.0@, toml_tree(*entry.1)),
                    );
                    assert(trees[i as int].1 == toml_tree(*entries@[i as int].1));
                    let tree = toml_tree(*value);
                    assert(tree->Table_0 == trees);
                    assert(decreases_to!(tree => tree->Table_0));
                    assert(decreases_to!(trees => trees[i as int]));
                }
                let (key, item) = entries[i];
                copies.push(TomlEntry { key: key.to_owned(), value: read_toml(item) });
                i = i + 1;
            }
            assert(entries_view(copies@) =~= entries@.map_values(
                |entry: (&str, &toml::Value)| (entry.0@, toml_tree(*entry.1)),
            ));
            TomlValue::Table(copies)
        },
        TomlLayer::Other => TomlValue::Other,
    }
}

// ── Commands ────────────────────────────────────────────────────────────────

/// What separates the components of a path.
pub enum Separators {
    Slash,
    Backslash,
    Both,
}

impl Separators {
    pub open spec fn contains(self, c: char) -> bool {
        match self {
            Separators::Slash => c == '/',
            Separators::Backslash => c == '\\',
            Separators::Both => c == '/' || c == '\\',
        }
    }
}

/// The place of the last separator in a path; -1 when there is none.
pub open spec fn last_separator(path: Seq<char>, separators: Separators) -> int
    decreases path.len(),
{
    if path.len() == 0 {
        -1
    } else if separators.contains(path.last()) {
        path.len() - 1
    } else {
        last_separator(path.drop_last(), separators)
    }
}

/// The last component of a path, if it is a name.  Empty components and `.` do not count,
/// and `..` is no name.
pub open spec fn last_component(path: Seq<char>, separators: Separators) -> Option<Seq<char>>
    decreases path.len(),
{
    let cut = last_separator(path, separators);
    let part = path.skip(cut + 1);
    if part == ".."@ {
        None
    } else if part.len() > 0 && part != "."@ {
        Some(part)
    } else if 0 <= cut < path.len() {
        last_component(path.take(cut), separators)
    } else {
        None
    }
}

/// Whether a path starts as one with a drive does, such as `C:`.
pub open spec fn has_drive(path: Seq<char>) -> bool {
    path.len() >= 2 && path[1] == ':'
}

/// Whether a path starts as one to a share or a device does, such as `\\server\share`.
pub open spec fn has_share(path: Seq<char>) -> bool {
    path.len() >= 2 && Separators::Both.contains(path[0]) && Separators::Both.contains(path[1])
}

/// Whether `name` is the file name of a path on some system.
///
/// On Unix the components are separated by slashes.  On Windows they are separated by
/// slashes and backslashes; a drive, a share or a device in front is no component, and
/// behind `\\?\` only backslashes separate.
pub open spec fn may_be_file_name(path: Seq<char>, name: Option<Seq<char>>) -> bool {
    ||| name == last_component(path, Separators::Slash)
    ||| name == last_component(path, Separators::Both)
    ||| has_drive(path) && name == last_component(path.skip(2), Separators::Both)
    ||| has_share(path) && (name is None || name == last_component(path, Separators::Backslash))
}

/// The file name of a path, from `std::path::Path::file_name`: the final component, as one
/// of the systems reads it.  Which system's reading it is depends on where the program
/// runs; most paths have the same file name on all of them.
#[verifier::external_body]
fn file_name(path: &str) -> (r: Option<&str>)
    ensures
        may_be_file_name(path@, json::str_view(r)),
{
    match std::path::Path::new(path).file_name() {
        Some(name) => name.to_str(),
        None => None,
    }
}

/// Whether a file name is that of this program.
pub open spec fn is_this_program(name: Seq<char>) -> bool {
    name == "copilot-helix"@ || name == "copilot-helix.exe"@
}

/// Whether a command runs this program, when `name` is the file name of the command: a
/// command without a file name counts as a name itself.
pub open spec fn runs_this_program(command: Seq<char>, name: Option<Seq<char>>) -> bool {
    match name {
        Some(name) => is_this_program(name),
        None => is_this_program(command),
    }
}

/// Decides whether a command runs this program, by its file name.
pub fn points_to_copilot_helix(command: &str, name: Option<&str>) -> (r: bool)
    ensures
        r == runs_this_program(command@, json::str_view(name)),
{
    let name = match name {
        Some(name) => name,
        None => command,
    };
    same_text(name, "copilot-helix") || same_text(name, "copilot-helix.exe")
}

/// Whether a command runs this program on every system.
pub open spec fn surely_runs(command: Seq<char>) -> bool {
    forall|name: Option<Seq<char>>| #[trigger]
        may_be_file_name(command, name) ==> runs_this_program(command, name)
}

/// Whether a command does not run this program on any system.
pub open spec fn surely_runs_not(command: Seq<char>) -> bool {
    forall|name: Option<Seq<char>>| #[trigger]
        may_be_file_name(command, name) ==> !runs_this_program(command, name)
}

/// Whether a command runs this program on some system, or does not.
pub open spec fn may_be_decided(command: Seq<char>, runs: bool) -> bool {
    exists|name: Option<Seq<char>>| #[trigger]
        may_be_file_name(command, name) && runs == runs_this_program(command, name)
}

/// Decides whether a command runs this program on this system.
pub fn command_points_to_copilot_helix(command: &str) -> (r: bool)
    ensures
        may_be_decided(command@, r),
        surely_runs(command@) ==> r,
        surely_runs_not(command@) ==> !r,
{
    let name = file_name(command);
    assert(may_be_file_name(command@, json::str_view(name)));
    points_to_copilot_helix(command, name)
}

// ── Analysis ────────────────────────────────────────────────────────────────

/// The text of a value.
pub open spec fn text_of(value: Option<Toml>) -> Option<Seq<char>> {
    match value {
        Some(Toml::Text(text)) => Some(text),
        _ => None,
    }
}

/// The language servers of a configuration, in the order in which they are listed.
pub open spec fn servers(doc: Toml) -> Seq<(Seq<char>, Toml)> {
    match doc.get("language-server"@) {
        Some(Toml::Table(entries)) => entries,
        _ => Seq::empty(),
    }
}

/// The command of a language server.
pub open spec fn command(server: Toml) -> Option<Seq<char>> {
    text_of(server.get("command"@))
}

/// Whether a language server is this program, when `name` is the file name of its command.
pub open spec fn is_this(server: Toml, name: Option<Seq<char>>) -> bool {
    command(server) matches Some(command) && runs_this_program(command, name)
}

/// Whether `names` may be the file names of the commands of language servers.
pub open spec fn may_be_file_names(
    servers: Seq<(Seq<char>, Toml)>,
    names: Seq<Option<Seq<char>>>,
) -> bool {
    &&& names.len() == servers.len()
    &&& forall|i: int|
        0 <= i < servers.len() ==> may_be_file_name_of((#[trigger] servers[i]).1, names[i])
}

/// Whether `name` may be the file name of the command of a language server.
pub open spec fn may_be_file_name_of(server: Toml, name: Option<Seq<char>>) -> bool {
    command(server) matches Some(command) ==> may_be_file_name(command, name)
}

/// The name of the first of the language servers that is this program, when `names` are
/// the file names of their commands.
pub open spec fn listed_name(
    servers: Seq<(Seq<char>, Toml)>,
    names: Seq<Option<Seq<char>>>,
) -> Option<Seq<char>>
    decreases servers.len(),
{
    if servers.len() == 0 {
        None
    } else if is_this(servers[0].1, names[0]) {
        Some(servers[0].0)
    } else {
        listed_name(servers.skip(1), names.skip(1))
    }
}

/// Whether `name` may be the name under which a configuration lists this program.
pub open spec fn may_be_listed_as(doc: Toml, name: Option<Seq<char>>) -> bool {
    exists|names: Seq<Option<Seq<char>>>| #[trigger]
        may_be_file_names(servers(doc), names) && name == listed_name(servers(doc), names)
}

/// Whether the server at `i` is the first that is this program.
pub open spec fn is_first(
    servers: Seq<(Seq<char>, Toml)>,
    names: Seq<Option<Seq<char>>>,
    i: int,
) -> bool {
    &&& 0 <= i < servers.len()
    &&& is_this(servers[i].1, names[i])
    &&& none_is_this(servers, names, i)
}

/// Whether none of the first `n` servers is this program.
pub open spec fn none_is_this(
    servers: Seq<(Seq<char>, Toml)>,
    names: Seq<Option<Seq<char>>>,
    n: int,
) -> bool {
    forall|j: int| 0 <= j < n ==> !is_this((#[trigger] servers[j]).1, names[j])
}

proof fn lemma_first_is_listed(
    servers: Seq<(Seq<char>, Toml)>,
    names: Seq<Option<Seq<char>>>,
    i: int,
)
    requires
        names.len() == servers.len(),
        is_first(servers, names, i) || (i == servers.len() && none_is_this(servers, names, i)),
    ensures
        listed_name(servers, names) == if i < servers.len() {
            Some(servers[i].0)
        } else {
            None
        },
    decreases servers.len(),
{
    if servers.len() > 0 && i > 0 {
        assert(!is_this(servers[0].1, names[0]));
        let rest = servers.skip(1);
        let later = names.skip(1);
        assert forall|j: int| 0 <= j < i - 1 implies !is_this((#[trigger] rest[j]).1, later[j]) by {
            assert(rest[j] == servers[j + 1] && later[j] == names[j + 1]);
        }
        if i < servers.len() {
            assert(rest[i - 1] == servers[i] && later[i - 1] == names[i]);
        }
        lemma_first_is_listed(rest, later, i - 1);
    }
}

/// Finds the name under which a configuration lists this program.
pub fn find_copilot_server_name(value: &TomlValue) -> (r: Option<String>)
    ensures
        may_be_listed_as(value@, json::string_view(r)),
{
    let ghost all = servers(value@);
    let ghost plain = plain_names(all);
    let entries = match value.get("language-server") {
        Some(TomlValue::Table(entries)) => entries,
        _ => {
            assert(may_be_file_names(all, plain));
            return None;
        },
    };
    assert(all == entries_view(entries@));
    // What each command was taken for; nothing is known yet of those that follow.
    let ghost names = plain;
    let mut i: usize = 0;
    while i < entries.len()
        invariant
            i <= entries.len(),
            all == servers(value@),
            all == entries_view(entries@),
            all.len() == entries.len(),
            may_be_file_names(all, names),
            none_is_this(all, names, i as int),
        decreases entries.len() - i,
    {
        assert(all[i as int] == (entries@[i as int].key@, entries@[i as int].value@));
        match entries[i].value.get("command") {
            Some(TomlValue::Text(command)) => {
                let runs = command_points_to_copilot_helix(command.as_str());
                proof {
                    let name = choose|name: Option<Seq<char>>| #[trigger]
                        may_be_file_name(command@, name) && runs == runs_this_program(
                            command@,
                            name,
                        );
                    names = names.update(i as int, name);
                    assert(is_this(all[i as int].1, name) == runs);
                }
                if runs {
                    proof {
                        assert(is_first(all, names, i as int));
                        lemma_first_is_listed(all, names, i as int);
                        assert(may_be_file_names(all, names));
                    }
                    return Some(entries[i].key.clone());
                }
            },
            _ => {},
        }
        i = i + 1;
    }
    proof {
        lemma_first_is_listed(all, names, i as int);
    }
    None
}

/// The file names of the commands of language servers, with the components separated by
/// slashes.
pub open spec fn plain_names(servers: Seq<(Seq<char>, Toml)>) -> Seq<Option<Seq<char>>> {
    servers.map_values(
        |server: (Seq<char>, Toml)|
            match command(server.1) {
                Some(command) => last_component(command, Separators::Slash),
                None => None,
            },
    )
}

/// Whether a language names a server among its own.
pub open spec fn language_names(language: Toml, name: Seq<char>) -> bool {
    language.get("language-servers"@) matches Some(Toml::Array(names)) && names.contains(
        Toml::Text(name),
    )
}

/// Whether a configuration has a language that names a server.
pub open spec fn some_language_names(doc: Toml, name: Seq<char>) -> bool {
    doc.get("language"@) matches Some(Toml::Array(languages)) && one_names(languages, name)
}

/// Whether one of the languages names a server.
pub open spec fn one_names(languages: Seq<Toml>, name: Seq<char>) -> bool {
    exists|i: int| 0 <= i < languages.len() && language_names(#[trigger] languages[i], name)
}

/// Finds out whether some language uses a server.
pub fn language_uses_server(value: &TomlValue, server_name: &str) -> (r: bool)
    ensures
        r == some_language_names(value@, server_name@),
{
    let languages = match value.get("language") {
        Some(TomlValue::Array(languages)) => languages,
        _ => return false,
    };
    let ghost all = items_view(languages@);
    let mut i: usize = 0;
    while i < languages.len()
        invariant
            i <= languages.len(),
            all == items_view(languages@),
            value@.get("language"@) == Some(Toml::Array(all)),
            forall|k: int| 0 <= k < i ==> !language_names(#[trigger] all[k], server_name@),
        decreases languages.len() - i,
    {
        assert(all[i as int] == languages@[i as int]@);
        if names_server(&languages[i], server_name) {
            assert(one_names(all, server_name@));
            return true;
        }
        i = i + 1;
    }
    false
}

fn names_server(language: &TomlValue, server_name: &str) -> (r: bool)
    ensures
        r == language_names(language@, server_name@),
{
    let names = match language.get("language-servers") {
        Some(TomlValue::Array(names)) => names,
        _ => return false,
    };
    let ghost all = items_view(names@);
    let mut i: usize = 0;
    while i < names.len()
        invariant
            i <= names.len(),
            all == items_view(names@),
            language@.get("language-servers"@) == Some(Toml::Array(all)),
            forall|k: int| 0 <= k < i ==> (#[trigger] all[k]) != Toml::Text(server_name@),
        decreases names.len() - i,
    {
        assert(all[i as int] == names@[i as int]@);
        match &names[i] {
            TomlValue::Text(name) => if same_text(name.as_str(), server_name) {
                return true;
            },
            _ => {},
        }
        i = i + 1;
    }
    false
}

/// How far Helix is configured to use this program.
#[derive(Debug, Clone, PartialEq, Eq)]
pub struct HelixConfigStatus<P> {
    /// Whether a language uses this program.
    pub is_configured: bool,
    /// The name under which this program is listed.
    pub server_name: Option<String>,
    /// Where the configuration is.
    pub path: P,
}

/// Whether a status may be that of a configuration.
pub open spec fn may_be_status<P>(doc: Toml, status: HelixConfigStatus<P>) -> bool {
    let name = json::string_view(status.server_name);
    &&& may_be_listed_as(doc, name)
    &&& status.is_configured == (name matches Some(name) && some_language_names(doc, name))
}

/// Finds out how far a configuration uses this program.
pub fn analyze_document<P>(value: &TomlValue, path: P) -> (r: HelixConfigStatus<P>)
    ensures
        may_be_status(value@, r),
        r.path == path,
{
    let server_name = find_copilot_server_name(value);
    let is_configured = match &server_name {
        Some(name) => language_uses_server(value, name.as_str()),
        None => false,
    };
    HelixConfigStatus { is_configured, server_name, path }
}

/// Why a configuration cannot be analyzed.
pub enum HelixError {
    /// It is no TOML document.
    Parse(toml::de::Error),
}

impl HelixError {
    /// Says in words what failed.
    pub fn description(&self) -> (r: &'static str)
        ensures
            r@ == "parsing Helix languages.toml"@,
    {
        "parsing Helix languages.toml"
    }
}

/// Finds out how far Helix is configured to use this program, from the contents of its
/// `languages.toml`, if there is one.
pub fn analyze_languages_toml<P>(contents: Option<&str>, path: P) -> (r: Result<
    HelixConfigStatus<P>,
    HelixError,
>)
    ensures
        match (contents, r) {
            (None, Ok(status)) => !status.is_configured && status.server_name is None && status.path
                == path,
            (Some(contents), Ok(status)) => toml_document(contents@) matches Some(doc)
                && may_be_status(doc, status) && status.path == path,
            (Some(contents), Err(_)) => toml_document(contents@) is None,
            (None, Err(_)) => false,
        },
{
    let contents = match contents {
        Some(contents) => contents,
        None => {
            return Ok(HelixConfigStatus { is_configured: false, server_name: None, path });
        },
    };
    match parse_toml(contents) {
        Ok(value) => Ok(analyze_document(&read_toml(&value), path)),
        Err(error) => Err(HelixError::Parse(error)),
    }
}

/// The system has no configuration directory.
#[derive(Debug, Clone, Copy, PartialEq, Eq, Structural)]
pub struct NoConfigDirectory;

impl NoConfigDirectory {
    /// Says in words what is missing.
    pub fn description(&self) -> (r: &'static str)
        ensures
            r@ == "could not determine home/config directory"@,
    {
        "could not determine home/config directory"
    }
}

/// Where the `languages.toml` of Helix is, for the configuration directory of the system.
pub fn languages_toml_path<P>(config_dir: Option<P>) -> (r: Result<
    JoinedPath<P>,
    NoConfigDirectory,
>)
    ensures
        match (config_dir, r) {
            (Some(dir), Ok(path)) => path@.base == dir && path@.parts == seq![
                "helix"@,
                "languages.toml"@,
            ],
            (None, Err(_)) => true,
            _ => false,
        },
{
    match config_dir {
        Some(base) => {
            let mut parts: Vec<String> = Vec::new();
            parts.push("helix".to_owned());
            parts.push("languages.toml".to_owned());
            assert(config::texts_view(parts@) =~= seq!["helix"@, "languages.toml"@]);
            Ok(JoinedPath { base, parts })
        },
        None => Err(NoConfigDirectory),
    }
}

// ── Laws ────────────────────────────────────────────────────────────────────

/// A configuration lists this program exactly when the command of some server is this
/// program; the name is then that of the first such server.
pub proof fn law_listed_means_some_command_matches(
    servers: Seq<(Seq<char>, Toml)>,
    names: Seq<Option<Seq<char>>>,
)
    requires
        names.len() == servers.len(),
    ensures
        listed_name(servers, names) is Some <==> exists|i: int|
            0 <= i < servers.len() && is_this((#[trigger] servers[i]).1, names[i]),
        listed_name(servers, names) matches Some(name) ==> exists|i: int| #[trigger]
            is_first(servers, names, i) && servers[i].0 == name,
    decreases servers.len(),
{
    if servers.len() > 0 {
        let rest = servers.skip(1);
        let later = names.skip(1);
        law_listed_means_some_command_matches(rest, later);
        if is_this(servers[0].1, names[0]) {
            assert(is_first(servers, names, 0));
        } else {
            assert forall|i: int| 0 <= i < servers.len() && is_this(
                (#[trigger] servers[i]).1,
                names[i],
            ) implies listed_name(servers, names) is Some by {
                assert(rest[i - 1] == servers[i] && later[i - 1] == names[i]);
            }
            if listed_name(rest, later) is Some {
                let name = listed_name(rest, later)->0;
                let k = choose|k: int| #[trigger] is_first(rest, later, k) && rest[k].0 == name;
                assert(rest[k] == servers[k + 1] && later[k] == names[k + 1]);
                assert forall|j: int| 0 <= j < k + 1 implies !is_this(
                    (#[trigger] servers[j]).1,
                    names[j],
                ) by {
                    if j > 0 {
                        assert(rest[j - 1] == servers[j] && later[j - 1] == names[j]);
                    }
                }
                assert(is_first(servers, names, k + 1));
            }
        }
    }
}

/// Helix counts as configured exactly when this program is listed and some language uses
/// the server of that name.
pub proof fn law_configured_means_listed_and_used<P>(doc: Toml, status: HelixConfigStatus<P>)
    requires
        may_be_status(doc, status),
    ensures
        status.is_configured <==> status.server_name is Some && some_language_names(
            doc,
            status.server_name->0@,
        ),
        status.server_name is Some ==> exists|i: int|
            0 <= i < servers(doc).len() && (#[trigger] servers(doc)[i]).0 == status.server_name->0@
                && !surely_other(servers(doc)[i].1),
{
    let all = servers(doc);
    let names = choose|names: Seq<Option<Seq<char>>>| #[trigger]
        may_be_file_names(all, names) && json::string_view(status.server_name) == listed_name(
            all,
            names,
        );
    law_listed_means_some_command_matches(all, names);
    if status.server_name is Some {
        let i = choose|i: int| #[trigger]
            is_first(all, names, i) && all[i].0 == status.server_name->0@;
        assert(may_be_file_name_of(all[i].1, names[i]));
        assert(all[i].0 == status.server_name->0@);
    }
}

/// Whether a language server is not this program on any system.
pub open spec fn surely_other(server: Toml) -> bool {
    command(server) matches Some(command) ==> surely_runs_not(command)
}

/// Whether all systems agree on whether a language server is this program.
pub open spec fn is_settled(server: Toml) -> bool {
    command(server) matches Some(command) ==> surely_runs(command) || surely_runs_not(command)
}

/// Where all systems agree on every command, the name under which this program is listed is
/// settled: it is that of the first server whose command ends in the name of this program
/// behind the last slash.
pub proof fn law_agreement_settles_the_name(doc: Toml, name: Option<Seq<char>>)
    requires
        may_be_listed_as(doc, name),
        forall|i: int| 0 <= i < servers(doc).len() ==> is_settled((#[trigger] servers(doc)[i]).1),
    ensures
        name == listed_name(servers(doc), plain_names(servers(doc))),
{
    let all = servers(doc);
    let names = choose|names: Seq<Option<Seq<char>>>| #[trigger]
        may_be_file_names(all, names) && name == listed_name(all, names);
    lemma_settled(all, names);
}

proof fn lemma_settled(servers: Seq<(Seq<char>, Toml)>, names: Seq<Option<Seq<char>>>)
    requires
        may_be_file_names(servers, names),
        forall|i: int| 0 <= i < servers.len() ==> is_settled((#[trigger] servers[i]).1),
    ensures
        listed_name(servers, names) == listed_name(servers, plain_names(servers)),
    decreases servers.len(),
{
    if servers.len() > 0 {
        let rest = servers.skip(1);
        let later = names.skip(1);
        assert forall|i: int| 0 <= i < rest.len() implies is_settled((#[trigger] rest[i]).1)
            && may_be_file_name_of(rest[i].1, later[i]) by {
            assert(rest[i] == servers[i + 1] && later[i] == names[i + 1]);
        }
        lemma_settled(rest, later);
        assert(plain_names(servers).skip(1) =~= plain_names(rest));
        assert(is_settled(servers[0].1) && may_be_file_name_of(servers[0].1, names[0]));
        assert(may_be_file_name_of(servers[0].1, plain_names(servers)[0]));
    }
}

/// All systems agree on a command without a backslash that starts with neither a drive nor
/// two slashes: its file name is what stands behind the last slash.
pub proof fn law_plain_commands_are_settled(command: Seq<char>, name: Option<Seq<char>>)
    requires
        !command.contains('\\'),
        !has_drive(command),
        !has_share(command),
        may_be_file_name(command, name),
    ensures
        name == last_component(command, Separators::Slash),
        surely_runs(command) <==> runs_this_program(
            command,
            last_component(command, Separators::Slash),
        ),
        surely_runs_not(command) <==> !surely_runs(command),
{
    lemma_without_backslash(command);
    assert(may_be_file_name(command, last_component(command, Separators::Slash)));
}

proof fn lemma_without_backslash(path: Seq<char>)
    requires
        !path.contains('\\'),
    ensures
        last_component(path, Separators::Both) == last_component(path, Separators::Slash),
    decreases path.len(),
{
    lemma_last_separator(path);
    let cut = last_separator(path, Separators::Slash);
    if 0 <= cut < path.len() {
        let front = path.take(cut);
        assert forall|i: int| 0 <= i < front.len() implies front[i] != '\\' by {
            assert(front[i] == path[i]);
        }
        lemma_without_backslash(front);
    }
}

proof fn lemma_last_separator(path: Seq<char>)
    requires
        !path.contains('\\'),
    ensures
        last_separator(path, Separators::Both) == last_separator(path, Separators::Slash),
    decreases path.len(),
{
    if path.len() > 0 {
        let front = path.drop_last();
        assert forall|i: int| 0 <= i < front.len() implies front[i] != '\\' by {
            assert(front[i] == path[i]);
        }
        assert(path.last() == path[path.len() - 1]);
        lemma_last_separator(front);
    }
}

/// A configuration in which no server is this program on any system does not count as
/// configured.
pub proof fn law_unlisted_means_unconfigured<P>(doc: Toml, status: HelixConfigStatus<P>)
    requires
        may_be_status(doc, status),
        forall|i: int|
            0 <= i < servers(doc).len() ==> surely_other((#[trigger] servers(doc)[i]).1),
    ensures
        status.server_name is None,
        !status.is_configured,
{
    law_configured_means_listed_and_used(doc, status);
}

/// The member of a table is that of the first entry with its key; a table without such an
/// entry, and anything but a table, has none.
pub proof fn law_members_of_tables(
    before: Seq<(Seq<char>, Toml)>,
    key: Seq<char>,
    value: Toml,
    after: Seq<(Seq<char>, Toml)>,
)
    requires
        forall|i: int| 0 <= i < before.len() ==> (#[trigger] before[i]).0 != key,
    ensures
        Toml::Table(before + seq![(key, value)] + after).get(key) == Some(value),
        Toml::Table(before).get(key) is None,
        Toml::Text(key).get(key) is None,
        Toml::Other.get(key) is None,
        Toml::Array(seq![value]).get(key) is None,
    decreases before.len(),
{
    let all = before + seq![(key, value)] + after;
    if before.len() > 0 {
        let rest = before.skip(1);
        assert forall|i: int| 0 <= i < rest.len() implies (#[trigger] rest[i]).0 != key by {
            assert(rest[i] == before[i + 1]);
        }
        law_members_of_tables(rest, key, value, after);
        assert(all[0] == before[0]);
        assert(all.skip(1) =~= rest + seq![(key, value)] + after);
    } else {
        assert(all[0] == (key, value));
    }
}

/// TOML values stand for themselves: texts, lists item by item, and tables entry by entry.
pub proof fn law_toml_values_stand_for_themselves(
    text: String,
    items: Vec<TomlValue>,
    entries: Vec<TomlEntry>,
)
    ensures
        TomlValue::Text(text)@ == Toml::Text(text@),
        TomlValue::Other@ == Toml::Other,
        TomlValue::Array(items)@ matches Toml::Array(values) && values.len() == items@.len()
            && forall|i: int| 0 <= i < items@.len() ==> #[trigger] values[i] == items@[i]@,
        TomlValue::Table(entries)@ matches Toml::Table(values) && values.len() == entries@.len()
            && forall|i: int|
            0 <= i < entries@.len() ==> (#[trigger] values[i]).0 == entries@[i].key@ && values[i].1
                == entries@[i].value@,
{
}

/// The last component of a path is the name behind its last separator, whatever is in front.
pub proof fn law_name_behind_separator(
    front: Seq<char>,
    separator: char,
    name: Seq<char>,
    separators: Separators,
)
    requires
        separators.contains(separator),
        name.len() > 0,
        name != "."@,
        name != ".."@,
        forall|i: int| 0 <= i < name.len() ==> !separators.contains(#[trigger] name[i]),
    ensures
        last_component(name, separators) == Some(name),
        last_component(front.push(separator) + name, separators) == Some(name),
{
    lemma_no_separator(name, separators);
    assert(name.skip(0) =~= name);
    let path = front.push(separator) + name;
    lemma_separator_at(front, separator, name, separators);
    assert(path.skip((front.len() + 1) as int) =~= name);
}

/// Separators and dots at the end of a path do not count, and a path that ends in two dots
/// has no name.
pub proof fn law_ends_without_name(path: Seq<char>, separator: char, separators: Separators)
    requires
        separators.contains(separator),
    ensures
        last_component(path.push(separator), separators) == last_component(path, separators),
        last_component(path.push(separator) + "."@, separators) == last_component(path, separators),
        last_component(path.push(separator) + ".."@, separators) is None,
        last_component(Seq::empty(), separators) is None,
{
    reveal_strlit(".");
    reveal_strlit("..");
    assert("."@.len() == 1 && ".."@.len() == 2);
    let none = Seq::<char>::empty();
    lemma_separator_at(path, separator, none, separators);
    assert(path.push(separator) + none =~= path.push(separator));
    assert(path.push(separator).take(path.len() as int) =~= path);
    assert(path.push(separator).skip((path.len() + 1) as int) =~= none);
    lemma_separator_at(path, separator, "."@, separators);
    assert((path.push(separator) + "."@).skip((path.len() + 1) as int) =~= "."@);
    assert((path.push(separator) + "."@).take(path.len() as int) =~= path);
    lemma_separator_at(path, separator, ".."@, separators);
    assert((path.push(separator) + ".."@).skip((path.len() + 1) as int) =~= ".."@);
    assert(none.skip(0) =~= none);
    assert(last_separator(none, separators) == -1);
}

proof fn lemma_no_separator(name: Seq<char>, separators: Separators)
    requires
        forall|i: int| 0 <= i < name.len() ==> !separators.contains(#[trigger] name[i]),
    ensures
        last_separator(name, separators) == -1,
    decreases name.len(),
{
    if name.len() > 0 {
        let front = name.drop_last();
        assert forall|i: int| 0 <= i < front.len() implies !separators.contains(
            #[trigger] front[i],
        ) by {
            assert(front[i] == name[i]);
        }
        assert(name.last() == name[name.len() - 1]);
        lemma_no_separator(front, separators);
    }
}

proof fn lemma_separator_at(
    front: Seq<char>,
    separator: char,
    name: Seq<char>,
    separators: Separators,
)
    requires
        separators.contains(separator),
        forall|i: int| 0 <= i < name.len() ==> !separators.contains(#[trigger] name[i]),
    ensures
        last_separator(front.push(separator) + name, separators) == front.len(),
    decreases name.len(),
{
    let path = front.push(separator) + name;
    if name.len() > 0 {
        let shorter = name.drop_last();
        assert forall|i: int| 0 <= i < shorter.len() implies !separators.contains(
            #[trigger] shorter[i],
        ) by {
            assert(shorter[i] == name[i]);
        }
        assert(path.last() == name[name.len() - 1]);
        assert(path.drop_last() =~= front.push(separator) + shorter);
        lemma_separator_at(front, separator, shorter, separators);
    } else {
        assert(path.last() == separator);
    }
}

/// A separator is a slash, a backslash, or either of them.
pub proof fn law_separators(c: char)
    ensures
        Separators::Slash.contains(c) <==> c == '/',
        Separators::Backslash.contains(c) <==> c == '\\',
        Separators::Both.contains(c) <==> c == '/' || c == '\\',
{
}

/// A command is this program when its file name is one of two names; only a command without
/// a file name goes by itself.
pub proof fn law_names_of_this_program(command: Seq<char>, name: Seq<char>)
    ensures
        runs_this_program(command, Some(name)) <==> name == "copilot-helix"@ || name
            == "copilot-helix.exe"@,
        runs_this_program(command, None) <==> command == "copilot-helix"@ || command
            == "copilot-helix.exe"@,
{
}

/// A command without a backslash that starts with neither a drive nor two slashes is decided
/// by the name behind its last slash.
pub proof fn law_plain_command_is_decided(front: Seq<char>, name: Seq<char>, runs: bool)
    requires
        front.len() > 0 ==> front[front.len() - 1] == '/',
        name.len() > 0,
        name != "."@,
        name != ".."@,
        !name.contains('/'),
        !(front + name).contains('\\'),
        (front + name).len() >= 2 ==> (front + name)[1] != ':' && !((front + name)[0] == '/' && (
        front + name)[1] == '/'),
        may_be_decided(front + name, runs),
    ensures
        runs <==> name == "copilot-helix"@ || name == "copilot-helix.exe"@,
{
    let command = front + name;
    let file_name = choose|file_name: Option<Seq<char>>| #[trigger]
        may_be_file_name(command, file_name) && runs == runs_this_program(command, file_name);
    if has_share(command) {
        assert(command.contains(command[0]) && command.contains(command[1]));
    }
    law_plain_commands_are_settled(command, file_name);
    assert forall|i: int| 0 <= i < name.len() implies !Separators::Slash.contains(
        #[trigger] name[i],
    ) by {
        assert(name.contains(name[i]));
    }
    if front.len() > 0 {
        assert(front =~= front.drop_last().push('/'));
        law_name_behind_separator(front.drop_last(), '/', name, Separators::Slash);
    } else {
        assert(command =~= name);
        law_name_behind_separator(front, '/', name, Separators::Slash);
    }
}

/// A file name on some system is the last component as that system reads the path.
pub proof fn law_readings_of_a_path(path: Seq<char>, name: Option<Seq<char>>)
    requires
        may_be_file_name(path, name),
    ensures
        ({
            ||| name == last_component(path, Separators::Slash)
            ||| name == last_component(path, Separators::Both)
            ||| path.len() >= 2 && path[1] == ':' && name == last_component(
                path.skip(2),
                Separators::Both,
            )
            ||| path.len() >= 2 && Separators::Both.contains(path[0]) && Separators::Both.contains(
                path[1],
            ) && (name is None || name == last_component(path, Separators::Backslash))
        }),
{
}

/// The language servers are the entries of their table, and the command of one is its text.
pub proof fn law_servers_and_commands(
    doc: Toml,
    entries: Seq<(Seq<char>, Toml)>,
    server: Toml,
    text: Seq<char>,
)
    ensures
        doc.get("language-server"@) == Some(Toml::Table(entries)) ==> servers(doc) == entries,
        !(doc.get("language-server"@) matches Some(Toml::Table(_))) ==> servers(doc).len() == 0,
        server.get("command"@) == Some(Toml::Text(text)) <==> command(server) == Some(text),
{
}

/// A server is this program when its command is; a server without a command is not.
pub proof fn law_server_goes_by_its_command(
    server: Toml,
    text: Seq<char>,
    name: Option<Seq<char>>,
)
    ensures
        server.get("command"@) == Some(Toml::Text(text)) ==> is_this(server, name)
            == runs_this_program(text, name),
        !(server.get("command"@) matches Some(Toml::Text(_))) ==> !is_this(server, name),
        may_be_file_name_of(server, name) && server.get("command"@) == Some(Toml::Text(text))
            ==> may_be_file_name(text, name),
{
}

/// A server is used exactly when some language of the configuration lists its name among
/// its language servers.
pub proof fn law_used_means_listed_by_a_language(
    doc: Toml,
    languages: Seq<Toml>,
    name: Seq<char>,
)
    ensures
        doc.get("language"@) == Some(Toml::Array(languages)) ==> (some_language_names(doc, name)
            <==> exists|i: int, j: int| #[trigger] lists_at(languages, i, j, name)),
        !(doc.get("language"@) matches Some(Toml::Array(_))) ==> !some_language_names(doc, name),
{
    if one_names(languages, name) {
        let i = choose|i: int|
            0 <= i < languages.len() && language_names(#[trigger] languages[i], name);
        let names = languages[i].get("language-servers"@)->0->Array_0;
        let j = choose|j: int| 0 <= j < names.len() && names[j] == Toml::Text(name);
        assert(lists_at(languages, i, j, name));
    }
    if exists|i: int, j: int| #[trigger] lists_at(languages, i, j, name) {
        let (i, j) = choose|i: int, j: int| #[trigger] lists_at(languages, i, j, name);
        let names = languages[i].get("language-servers"@)->0->Array_0;
        assert(names.contains(names[j]));
        assert(language_names(languages[i], name));
    }
}

/// Whether the language at `i` has a name at the place `j` of its language servers.
pub open spec fn lists_at(languages: Seq<Toml>, i: int, j: int, name: Seq<char>) -> bool {
    &&& 0 <= i < languages.len()
    &&& languages[i].get("language-servers"@) matches Some(Toml::Array(names)) && 0 <= j
        < names.len() && names[j] == Toml::Text(name)
}

/// The plain file names of servers are the last components of their commands behind slashes.
pub proof fn law_plain_names(servers: Seq<(Seq<char>, Toml)>, i: int, text: Seq<char>)
    requires
        0 <= i < servers.len(),
        servers[i].1.get("command"@) == Some(Toml::Text(text)),
    ensures
        plain_names(servers).len() == servers.len(),
        plain_names(servers)[i] == last_component(text, Separators::Slash),
{
}

/// The outermost layer of a value of the `toml` crate stands for its text, or for what each
/// of its items or entries holds, one by one.
pub proof fn law_layers_in_order<'a>(
    text: &'a str,
    items: Vec<&'a toml::Value>,
    entries: Vec<(&'a str, &'a toml::Value)>,
)
    ensures
        TomlLayer::Text(text)@ == Toml::Text(text@),
        TomlLayer::Other@ == Toml::Other,
        TomlLayer::Array(items)@ matches Toml::Array(trees) && trees.len() == items@.len()
            && forall|i: int| 0 <= i < items@.len() ==> #[trigger] trees[i] == toml_tree(*items@[i]),
        TomlLayer::Table(entries)@ matches Toml::Table(trees) && trees.len() == entries@.len()
            && forall|i: int|
            0 <= i < entries@.len() ==> (#[trigger] trees[i]).0 == entries@[i].0@ && trees[i].1
                == toml_tree(*entries@[i].1),
{
}

} // verus!
