//! The persisted settings record and the errors the settings loader can
//! report.

use vstd::prelude::*;
use vstd::string::*;

verus! {

/// The one persisted configuration value: the game installation directory.
#[derive(Debug)]
pub struct M4Settings {
    pub game_dir: String,
}

impl M4Settings {
    /// A fresh record with an empty game directory.
    pub fn new() -> (r: Self)
        ensures
            r.game_dir@ == Seq::<char>::empty(),
    {
        M4Settings { game_dir: String::new() }
    }
}

impl Default for M4Settings {
    fn default() -> (r: Self)
        ensures
            r.game_dir@ == Seq::<char>::empty(),
    {
        M4Settings { game_dir: String::new() }
    }
}

/// Why loading the settings file failed: the file was absent, or it existed
/// but could not be opened for reading.
#[derive(Debug, Clone, Copy, PartialEq, Eq, Structural)]
pub enum LoadErrorType {
    FileNotFound,
    CantOpenFile,
}

/// The user-facing description of each load failure.
pub open spec fn load_error_type_text(t: LoadErrorType) -> Seq<char> {
    match t {
        LoadErrorType::FileNotFound => "File not found"@,
        LoadErrorType::CantOpenFile => "Cannot open file"@,
    }
}

impl LoadErrorType {
    /// The user-facing description of this failure.
    pub fn message(&self) -> (r: String)
        ensures
            r@ == load_error_type_text(*self),
    {
        match self {
            LoadErrorType::FileNotFound => "File not found".to_owned(),
            LoadErrorType::CantOpenFile => "Cannot open file".to_owned(),
        }
    }
}

/// A settings-load failure, tagged with its cause.
#[derive(Debug, Clone, Copy, PartialEq, Eq, Structural)]
pub struct LoadError(pub LoadErrorType);

impl LoadError {
    /// The user-facing description of this failure.
    pub fn message(&self) -> (r: String)
        ensures
            r@ == "Failed to load settings: "@ + load_error_type_text(self.0),
    {
        let mut s = "Failed to load settings: ".to_owned();
        s.append(self.0.message().as_str());
        s
    }
}

/// The game directory that parsing `text` as a TOML settings document yields,
/// or nothing where `text` is not such a document.
pub uninterp spec fn game_dir_of_doc(text: Seq<char>) -> Option<Seq<char>>;

/// The TOML settings document that serializing a record with this game
/// directory produces.
pub uninterp spec fn doc_of_game_dir(game_dir: Seq<char>) -> Seq<char>;

/// Relies on toml::from_str to parse the document into a table, and on
/// toml::map::Map::get plus matching the toml::Value variant to read its
/// `game_dir` string; parsing is a pure function of the document text.
#[verifier::external_body]
fn toml_parse_game_dir(text: &String) -> (r: Option<String>)
    ensures
        r is Some <==> game_dir_of_doc(text@) is Some,
        r matches Some(gd) ==> game_dir_of_doc(text@) == Some(gd@),
{
    let table: toml::Table = match toml::from_str(text) {
        Ok(t) => t,
        Err(_) => return None,
    };
    match table.get("game_dir") {
        Some(toml::Value::String(s)) => Some(s.clone()),
        _ => None,
    }
}

/// Relies on toml::to_string to serialize a one-key table holding the game
/// directory as a string: the output is a pure function of that string, the
/// call fails only for non-string keys or unsupported datatypes (neither is
/// possible here) so a document always comes back, and toml::from_str reads
/// the same string back out of it, string escaping being lossless.
#[verifier::external_body]
fn toml_encode_game_dir(game_dir: &String) -> (r: Option<String>)
    ensures
        r is Some,
        r matches Some(d) ==> d@ == doc_of_game_dir(game_dir@),
        r matches Some(d) ==> game_dir_of_doc(d@) == Some(game_dir@),
{
    let mut table = toml::Table::new();
    table.insert("game_dir".to_owned(), toml::Value::String(game_dir.clone()));
    toml::to_string(&table).ok()
}

impl M4Settings {
    /// The serialized settings document for this record, to be written to
    /// the settings file as it stands; parsing it yields the record back.
    pub fn to_toml_doc(&self) -> (r: Option<String>)
        ensures
            r is Some,
            r matches Some(d) ==> d@ == doc_of_game_dir(self.game_dir@),
            r matches Some(d) ==> game_dir_of_doc(d@) == Some(self.game_dir@),
    {
        toml_encode_game_dir(&self.game_dir)
    }
}

/// Parse a settings document into a record; nothing where the text is not a
/// settings document.
pub fn parse_settings_doc(text: &String) -> (r: Option<M4Settings>)
    ensures
        r is Some <==> game_dir_of_doc(text@) is Some,
        r matches Some(s) ==> game_dir_of_doc(text@) == Some(s.game_dir@),
{
    match toml_parse_game_dir(text) {
        Some(gd) => Some(M4Settings { game_dir: gd }),
        None => None,
    }
}

/// What reading the settings file produced, as the caller that did the I/O
/// reports it: the file was absent, it existed but could not be opened or
/// read, or its full text.
pub enum FileReadOutcome {
    Missing,
    Unreadable,
    Contents(String),
}

/// The settings-load outcome for a file read: a record parsed from the text,
/// `FileNotFound` for an absent file, `CantOpenFile` for an unopenable one.
/// Yields nothing only where the file was read but its text is not a
/// settings document, which the settings store treats as fatal.
pub fn load_settings(outcome: &FileReadOutcome) -> (r: Option<Result<M4Settings, LoadError>>)
    ensures
        outcome is Missing ==> {
            &&& r matches Some(res)
            &&& res matches Err(e)
            &&& e == LoadError(LoadErrorType::FileNotFound)
        },
        outcome is Unreadable ==> {
            &&& r matches Some(res)
            &&& res matches Err(e)
            &&& e == LoadError(LoadErrorType::CantOpenFile)
        },
        outcome matches FileReadOutcome::Contents(text) ==> {
            &&& r is Some <==> game_dir_of_doc(text@) is Some
            &&& r matches Some(res) ==> res matches Ok(s) && game_dir_of_doc(text@) == Some(
                s.game_dir@,
            )
        },
{
    match outcome {
        FileReadOutcome::Missing => Some(Err(LoadError(LoadErrorType::FileNotFound))),
        FileReadOutcome::Unreadable => Some(Err(LoadError(LoadErrorType::CantOpenFile))),
        FileReadOutcome::Contents(text) => match parse_settings_doc(text) {
            Some(s) => Some(Ok(s)),
            None => None,
        },
    }
}

} // verus!
