//! The persisted settings document and the flags read from it.
//!
//! The document is JSON text. Only three top-level boolean members are
//! read; each has a default that stands in where the document is missing,
//! is not JSON, or does not hold the member as a boolean.

use vstd::prelude::*;
use vstd::string::*;

verus! {

/// A parsed JSON document. Its inside is not visible here.
#[verifier::external_type_specification]
#[verifier::external_body]
pub struct ExJsonValue(serde_json::Value);

/// Why a text is not JSON. Its inside is not visible here.
#[verifier::external_type_specification]
#[verifier::external_body]
pub struct ExJsonError(serde_json::Error);

/// The top-level members of a parsed document that are booleans, by member
/// name. A document that is not an object has none.
pub uninterp spec fn flags_in(doc: serde_json::Value) -> Map<Seq<char>, bool>;

/// The boolean top-level members of the document that `text` is, or `None`
/// where `text` is not one well-formed JSON document.
pub uninterp spec fn document_flags(text: Seq<char>) -> Option<Map<Seq<char>, bool>>;

/// The flag under `key`, where there is one.
pub open spec fn flag_at(flags: Map<Seq<char>, bool>, key: Seq<char>) -> Option<bool> {
    if flags.contains_key(key) {
        Some(flags[key])
    } else {
        None
    }
}

/// Calls `serde_json::from_str` for a `serde_json::Value`.
///
/// Trusted: parsing depends on the text alone, so the boolean members of
/// the document that comes back are those that `document_flags` names for
/// the text, and an error comes back exactly where it names none.
#[verifier::external_body]
fn parse_document(text: &str) -> (r: Result<serde_json::Value, serde_json::Error>)
    ensures
        match r {
            Ok(doc) => document_flags(text@) == Some(flags_in(doc)),
            Err(_) => document_flags(text@) is None,
        },
{
    serde_json::from_str::<serde_json::Value>(text)
}

/// Calls `serde_json::Value::get` with a member name.
///
/// Trusted: `get` finds a member only in an object and only under its exact
/// name; the result here is that member's value where it is a boolean, and
/// `None` otherwise. That is what `flags_in` holds under the name.
#[verifier::external_body]
fn bool_member(doc: &serde_json::Value, key: &str) -> (r: Option<bool>)
    ensures
        r == flag_at(flags_in(*doc), key@),
{
    match doc.get(key) {
        Some(serde_json::Value::Bool(b)) => Some(*b),
        _ => None,
    }
}

/// The flags that the application reads from its settings.
#[derive(Clone, Copy, Debug, PartialEq, Eq, Structural)]
pub struct AppSettings {
    /// Whether the application restarts itself when its window is closed.
    pub relaunch_on_close: bool,
    /// Whether the window may be minimised.
    pub allow_minimize: bool,
    /// Whether the window stays above other windows.
    pub always_on_top: bool,
}

/// A flag as given, or its default where none is given.
pub open spec fn flag_or(given: Option<bool>, default: bool) -> bool {
    match given {
        Some(b) => b,
        None => default,
    }
}

/// The settings that hold where nothing is persisted.
pub open spec fn default_settings() -> AppSettings {
    AppSettings { relaunch_on_close: true, allow_minimize: false, always_on_top: true }
}

/// The settings for the three flags as far as they are given.
pub open spec fn settings_from_flags(
    relaunch_on_close: Option<bool>,
    allow_minimize: Option<bool>,
    always_on_top: Option<bool>,
) -> AppSettings {
    AppSettings {
        relaunch_on_close: flag_or(relaunch_on_close, default_settings().relaunch_on_close),
        allow_minimize: flag_or(allow_minimize, default_settings().allow_minimize),
        always_on_top: flag_or(always_on_top, default_settings().always_on_top),
    }
}

/// The settings that a document's boolean members give.
pub open spec fn settings_in(flags: Map<Seq<char>, bool>) -> AppSettings {
    settings_from_flags(
        flag_at(flags, "relaunchOnClose"@),
        flag_at(flags, "allowMinimize"@),
        flag_at(flags, "alwaysOnTop"@),
    )
}

/// The settings that hold for the persisted text, `None` standing for a
/// file that is missing or cannot be read.
pub open spec fn settings_of(text: Option<Seq<char>>) -> AppSettings {
    match text {
        None => default_settings(),
        Some(t) => match document_flags(t) {
            None => default_settings(),
            Some(flags) => settings_in(flags),
        },
    }
}

impl Default for AppSettings {
    fn default() -> (r: Self)
        ensures
            r == default_settings(),
    {
        AppSettings { relaunch_on_close: true, allow_minimize: false, always_on_top: true }
    }
}

impl AppSettings {
    /// The settings for the three flags as far as they are given; a flag
    /// that is not given has its default.
    pub fn from_flags(
        relaunch_on_close: Option<bool>,
        allow_minimize: Option<bool>,
        always_on_top: Option<bool>,
    ) -> (r: Self)
        ensures
            r == settings_from_flags(relaunch_on_close, allow_minimize, always_on_top),
    {
        let defaults = AppSettings::default();
        AppSettings {
            relaunch_on_close: match relaunch_on_close {
                Some(b) => b,
                None => defaults.relaunch_on_close,
            },
            allow_minimize: match allow_minimize {
                Some(b) => b,
                None => defaults.allow_minimize,
            },
            always_on_top: match always_on_top {
                Some(b) => b,
                None => defaults.always_on_top,
            },
        }
    }

    /// The settings that the persisted text gives. `None` stands for a file
    /// that is missing or cannot be read. Text that is not JSON gives the
    /// defaults, and so does each member that is absent or not a boolean.
    pub fn from_text(text: Option<&str>) -> (r: Self)
        ensures
            r == settings_of(
                match text {
                    Some(t) => Some(t@),
                    None => None,
                },
            ),
    {
        match text {
            None => AppSettings::default(),
            Some(t) => match parse_document(t) {
                Err(_) => AppSettings::default(),
                Ok(doc) => AppSettings::from_flags(
                    bool_member(&doc, "relaunchOnClose"),
                    bool_member(&doc, "allowMinimize"),
                    bool_member(&doc, "alwaysOnTop"),
                ),
            },
        }
    }
}

/// What the settings answer to a read: the persisted text, or empty text
/// where nothing is persisted yet.
pub fn settings_text_or_empty(persisted: Option<String>) -> (r: String)
    ensures
        r@ == match persisted {
            Some(t) => t@,
            None => Seq::<char>::empty(),
        },
{
    match persisted {
        Some(t) => t,
        None => String::new(),
    }
}

/// The name of the settings file inside the application's data directory.
pub const SETTINGS_FILE_NAME: &'static str = "settings.json";

/// Why the settings could not be read or saved, with the text of the
/// underlying error.
#[derive(Clone, Debug, PartialEq, Eq)]
pub enum SettingsFailure {
    /// The application's data directory is not known.
    NoAppDirectory,
    /// The settings file is there and could not be read.
    Read(String),
    /// The data directory could not be created.
    CreateDirectory(String),
    /// The settings file could not be written.
    Write(String),
}

impl SettingsFailure {
    /// What the failure says to a reader.
    pub open spec fn message_spec(self) -> Seq<char> {
        match self {
            SettingsFailure::NoAppDirectory => "Failed to get app directory"@,
            SettingsFailure::Read(why) => "Failed to read settings: "@ + why@,
            SettingsFailure::CreateDirectory(why) => "Failed to create app directory: "@ + why@,
            SettingsFailure::Write(why) => "Failed to save settings: "@ + why@,
        }
    }

    /// What the failure says to a reader.
    pub fn message(&self) -> (r: String)
        ensures
            r@ == self.message_spec(),
    {
        match self {
            SettingsFailure::NoAppDirectory => String::from_str("Failed to get app directory"),
            SettingsFailure::Read(why) => String::from_str("Failed to read settings: ").concat(
                why.as_str(),
            ),
            SettingsFailure::CreateDirectory(why) => String::from_str(
                "Failed to create app directory: ",
            ).concat(why.as_str()),
            SettingsFailure::Write(why) => String::from_str("Failed to save settings: ").concat(
                why.as_str(),
            ),
        }
    }
}

/// Missing settings are the defaults.
pub proof fn lemma_missing_settings_are_defaults()
    ensures
        settings_of(None) == default_settings(),
        settings_of(None).relaunch_on_close,
{
}

/// Text that is not JSON gives the defaults.
pub proof fn lemma_unparsable_settings_are_defaults(text: Seq<char>)
    requires
        document_flags(text) is None,
    ensures
        settings_of(Some(text)) == default_settings(),
{
}

/// A document gives for each flag the boolean it holds under the flag's
/// name, and the default where it holds none.
pub proof fn lemma_settings_follow_document(text: Seq<char>, flags: Map<Seq<char>, bool>)
    requires
        document_flags(text) == Some(flags),
    ensures
        settings_of(Some(text)).relaunch_on_close == flag_or(flag_at(flags, "relaunchOnClose"@), true),
        settings_of(Some(text)).allow_minimize == flag_or(flag_at(flags, "allowMinimize"@), false),
        settings_of(Some(text)).always_on_top == flag_or(flag_at(flags, "alwaysOnTop"@), true),
{
}

} // verus!
