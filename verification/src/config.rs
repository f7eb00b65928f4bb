//! The configuration: where its file lies, and how an update changes it.

use crate::text::{trim, trimmed};
use std::path::PathBuf;
use vstd::prelude::*;
use vstd::string::*;

verus! {

/// A path as the operating system gives it. Nothing is known of what it
/// holds until it is turned into text.
#[verifier::external_type_specification]
#[verifier::external_body]
pub struct ExPathBuf(PathBuf);

/// What the client is configured with: the base address of the service.
#[derive(Clone, Debug, PartialEq, Eq)]
pub struct Config {
    pub url: String,
}

/// Why the place of the configuration file cannot be told.
#[derive(Clone, Copy, Debug, PartialEq, Eq, Structural)]
pub enum ConfigError {
    /// The user's home directory is not known.
    NoHomeDir,
    /// The home directory's path is not valid Unicode.
    HomeNotUnicode,
}

/// The name of the configuration file, below the home directory.
pub open spec fn config_file_suffix() -> Seq<char> {
    "/.jlzrc"@
}

/// Trusted: calls `home::home_dir`, which asks the environment and the
/// operating system for the current user's home directory. What comes back
/// depends on the machine, so the contract promises nothing.
#[verifier::external_body]
fn home_dir() -> (dir: Option<PathBuf>) {
    home::home_dir()
}

/// Trusted: calls `Path::to_str` and copies the text, which is there only
/// for a path of valid Unicode. The path is opaque, so the contract promises
/// nothing.
#[verifier::external_body]
fn path_text(path: &PathBuf) -> (text: Option<String>) {
    path.to_str().map(|text| text.to_string())
}

/// The user's home directory as text. Which directory that is, and whether
/// there is one, is the machine's to say.
pub fn get_home_dir() -> (home: Result<String, ConfigError>) {
    let found = match home_dir() {
        None => None,
        Some(path) => {
            Some(path_text(&path))
        },
    };
    home_from(found)
}

/// The configuration file of a user whose home directory is `home`.
pub fn config_file_in(home: &str) -> (file: String)
    ensures
        file@ == home@ + config_file_suffix(),
{
    let mut file = String::from_str(home);
    file.append("/.jlzrc");
    file
}

/// The configuration file, given what is known of the home directory: the
/// file below it, or the reason why the directory is not known.
pub fn config_file_for(home: Result<String, ConfigError>) -> (file: Result<String, ConfigError>)
    ensures
        match home {
            Ok(dir) => file is Ok && file->Ok_0@ == dir@ + config_file_suffix(),
            Err(error) => file == Err::<String, ConfigError>(error),
        },
{
    match home {
        Ok(dir) => Ok(config_file_in(dir.as_str())),
        Err(error) => Err(error),
    }
}

/// The configuration file of the current user: `.jlzrc` in the home
/// directory, where that is known.
pub fn get_config_file() -> (file: Result<String, ConfigError>)
    ensures
        file is Ok ==> exists|home: Seq<char>| file->Ok_0@ == home + config_file_suffix(),
{
    config_file_for(get_home_dir())
}

/// What is known of the home directory, given what the machine answered:
/// no directory at all, a directory whose path is not valid Unicode, or a
/// directory with the text of its path.
pub fn home_from(found: Option<Option<String>>) -> (home: Result<String, ConfigError>)
    ensures
        home == match found {
            None => Err::<String, ConfigError>(ConfigError::NoHomeDir),
            Some(None) => Err::<String, ConfigError>(ConfigError::HomeNotUnicode),
            Some(Some(text)) => Ok::<String, ConfigError>(text),
        },
{
    match found {
        None => Err(ConfigError::NoHomeDir),
        Some(None) => Err(ConfigError::HomeNotUnicode),
        Some(Some(text)) => Ok(text),
    }
}

/// The address to keep: the one entered, or the current one where nothing
/// was entered.
pub open spec fn entered_or_current(current: Seq<char>, entered: Seq<char>) -> Seq<char> {
    if entered.len() == 0 {
        current
    } else {
        entered
    }
}

/// The address after an update: the line that was entered, trimmed, or the
/// current address where the line is blank.
pub open spec fn url_after(current: Seq<char>, line: Seq<char>) -> Seq<char> {
    entered_or_current(current, trimmed(line))
}

/// Chooses between the address entered, already trimmed, and the current
/// one: an empty entry leaves the current address.
pub fn choose_url(current: String, entered: String) -> (url: String)
    ensures
        url@ == entered_or_current(current@, entered@),
{
    if entered.as_str().is_empty() {
        current
    } else {
        entered
    }
}

/// Tells whether an entered line leaves the address as it is.
pub fn is_blank(line: &str) -> (blank: bool)
    ensures
        blank == (trimmed(line@).len() == 0),
{
    trim(line).as_str().is_empty()
}

/// The configuration after the user has entered `line` as the new address.
pub fn update_config(config: Config, line: &str) -> (updated: Config)
    ensures
        updated.url@ == url_after(config.url@, line@),
{
    Config { url: choose_url(config.url, trim(line)) }
}

} // verus!
