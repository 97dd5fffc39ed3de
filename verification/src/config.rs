//! The credential in the configuration text, read through `rust-ini`.

use ini::Ini;
use vstd::prelude::*;

verus! {

/// Where the configuration is kept, below the user's home directory.
pub const CONFIG_PATH: &'static str = ".config/bakeit.cfg";

/// The section of the configuration that holds the credential.
pub const SECTION: &'static str = "pastery";

/// The entry of that section that is the credential.
pub const KEY: &'static str = "api_key";

/// What is reported where there is no configuration to read.
pub const NOT_FOUND: &'static str =
    "Config file not found. Make sure you have a config file at ~/.config/bakeit.cfg with a [pastery] section containing your Pastery API key, which you can get from your https://www.pastery.net account page.";

/// What is reported where the configuration has no `[pastery]` section.
pub const SECTION_MISSING: &'static str =
    "[pastery] section not found. Please add a [pastery] section to the ~/.config/bakeit.cfg file and try again.";

/// What is reported where the section has no `api_key` entry.
pub const KEY_MISSING: &'static str =
    "No api_key entry found. Please add an api_key entry to the [pastery] section with your API key in it. You can find the latter on your account page on https://www.pastery.net.";

/// Declares `ini::Ini`, a parsed configuration, as a type whose inside the
/// verifier does not see.
#[verifier::external_type_specification]
#[verifier::external_body]
pub struct ExIni(Ini);

/// The named sections of a configuration: each section name with the
/// entries of the first section of that name, and each entry's key with the
/// first value that the section gives it.
pub uninterp spec fn ini_sections(conf: Ini) -> Map<Seq<char>, Map<Seq<char>, Seq<char>>>;

/// What `Ini::load_from_str` makes of a text: nothing where it reports a
/// parse error, else the named sections of the configuration.
pub uninterp spec fn ini_document(text: Seq<char>) -> Option<
    Map<Seq<char>, Map<Seq<char>, Seq<char>>>,
>;

/// Calls `Ini::load_from_str`. Trusted: the configuration that comes back
/// is the one that `ini_document` speaks of for this text, and an error
/// means that there is none.
#[verifier::external_body]
fn load_ini(text: &str) -> (out: Option<Ini>)
    ensures
        match out {
            Some(conf) => ini_document(text@) == Some(ini_sections(conf)),
            None => ini_document(text@) is None,
        },
{
    match Ini::load_from_str(text) {
        Ok(conf) => Some(conf),
        Err(_) => None,
    }
}

/// Calls `Ini::section` with a section name, and says whether it found one.
#[verifier::external_body]
fn has_section(conf: &Ini, name: &str) -> (out: bool)
    ensures
        out == ini_sections(*conf).contains_key(name@),
{
    conf.section(Some(name)).is_some()
}

/// Calls `Ini::get_from` with a section name. Trusted: it looks the key up
/// in the first section of that name and hands out the first value of the
/// key, and nothing where the section or the key is missing.
#[verifier::external_body]
fn section_value(conf: &Ini, section: &str, key: &str) -> (out: Option<String>)
    ensures
        match out {
            Some(value) => {
                &&& ini_sections(*conf).contains_key(section@)
                &&& ini_sections(*conf)[section@].contains_key(key@)
                &&& ini_sections(*conf)[section@][key@] == value@
            },
            None => !(ini_sections(*conf).contains_key(section@) && ini_sections(
                *conf,
            )[section@].contains_key(key@)),
        },
{
    conf.get_from(Some(section), key).map(String::from)
}

/// Calls `str::strip_prefix` with the byte-order mark. Trusted: it hands
/// out what follows the mark in a text that begins with it, and nothing for
/// any other text.
#[verifier::external_body]
fn strip_mark(text: &str) -> (out: Option<&str>)
    ensures
        match out {
            Some(rest) => text@.len() > 0 && text@[0] == '\u{feff}' && rest@ == text@.skip(1),
            None => text@.len() == 0 || text@[0] != '\u{feff}',
        },
{
    text.strip_prefix('\u{feff}')
}

/// The configuration: the credential of the account.
#[derive(Clone, Debug, PartialEq, Eq)]
pub struct Config {
    pub api_key: String,
}

/// Why there is no configuration.
#[derive(PartialEq, Eq, Structural, Clone, Copy, Debug)]
pub enum ConfigError {
    /// There is no file to read, or it is no INI text.
    NotFound,
    /// The text has no `[pastery]` section.
    SectionMissing,
    /// The section has no `api_key` entry.
    KeyMissing,
}

impl ConfigError {
    /// The guidance that is reported for the error.
    pub open spec fn message_text(self) -> Seq<char> {
        match self {
            ConfigError::NotFound => NOT_FOUND@,
            ConfigError::SectionMissing => SECTION_MISSING@,
            ConfigError::KeyMissing => KEY_MISSING@,
        }
    }

    /// The guidance that is reported for the error.
    pub fn message(&self) -> (out: &'static str)
        ensures
            out@ == self.message_text(),
    {
        match self {
            ConfigError::NotFound => NOT_FOUND,
            ConfigError::SectionMissing => SECTION_MISSING,
            ConfigError::KeyMissing => KEY_MISSING,
        }
    }
}

/// What a configuration text was found to hold of the credential.
#[derive(Clone, Debug, PartialEq, Eq)]
pub enum Found {
    /// The text is no INI text.
    Unreadable,
    /// There is no `[pastery]` section.
    NoSection,
    /// The section has no `api_key` entry.
    NoKey,
    /// The value of the entry.
    Key(String),
}

/// What a configuration text holds of the credential: the value of the
/// entry, or the first thing that is missing on the way to it.
pub open spec fn credential_of(text: Seq<char>) -> Result<Seq<char>, ConfigError> {
    match ini_document(text) {
        None => Err(ConfigError::NotFound),
        Some(sections) => if !sections.contains_key(SECTION@) {
            Err(ConfigError::SectionMissing)
        } else if !sections[SECTION@].contains_key(KEY@) {
            Err(ConfigError::KeyMissing)
        } else {
            Ok(sections[SECTION@][KEY@])
        },
    }
}

/// A text without the byte-order mark that it may begin with.
pub open spec fn unmarked(text: Seq<char>) -> Seq<char> {
    if text.len() > 0 && text[0] == '\u{feff}' {
        text.skip(1)
    } else {
        text
    }
}

/// The same for what was found in a text.
pub open spec fn credential_found(found: Found) -> Result<Seq<char>, ConfigError> {
    match found {
        Found::Unreadable => Err(ConfigError::NotFound),
        Found::NoSection => Err(ConfigError::SectionMissing),
        Found::NoKey => Err(ConfigError::KeyMissing),
        Found::Key(value) => Ok(value@),
    }
}

/// The view of a configuration or the error in its place.
pub open spec fn config_view(config: Result<Config, ConfigError>) -> Result<
    Seq<char>,
    ConfigError,
> {
    match config {
        Ok(c) => Ok(c.api_key@),
        Err(e) => Err(e),
    }
}

/// Looks for the `api_key` entry of the `[pastery]` section in a
/// configuration text.
pub fn find_credential(text: &str) -> (out: Found)
    ensures
        credential_found(out) == credential_of(text@),
{
    match load_ini(text) {
        None => Found::Unreadable,
        Some(conf) => {
            if !has_section(&conf, SECTION) {
                Found::NoSection
            } else {
                match section_value(&conf, SECTION, KEY) {
                    Some(value) => Found::Key(value),
                    None => Found::NoKey,
                }
            }
        },
    }
}

/// The configuration for what was found: the credential as it stands, with
/// no check of its form, or the error for what is missing.
pub fn config_from(found: Found) -> (out: Result<Config, ConfigError>)
    ensures
        config_view(out) == credential_found(found),
{
    match found {
        Found::Unreadable => Err(ConfigError::NotFound),
        Found::NoSection => Err(ConfigError::SectionMissing),
        Found::NoKey => Err(ConfigError::KeyMissing),
        Found::Key(api_key) => Ok(Config { api_key }),
    }
}

/// A text without the byte-order mark that it may begin with.
pub fn without_mark(text: &str) -> (out: &str)
    ensures
        out@ == unmarked(text@),
{
    match strip_mark(text) {
        Some(rest) => rest,
        None => text,
    }
}

/// Reads the configuration from the text of the configuration file. A
/// byte-order mark at the start of the file is passed over.
pub fn read_config(text: &str) -> (out: Result<Config, ConfigError>)
    ensures
        config_view(out) == credential_of(unmarked(text@)),
{
    config_from(find_credential(without_mark(text)))
}

} // verus!
