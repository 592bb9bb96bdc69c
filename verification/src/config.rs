//! Persisted settings and the layout of the application's data directory.
//!
//! Paths are plain strings with `/` as the separator.

use vstd::prelude::*;
use crate::text::{join_path, joined, text_of};

verus! {

/// The user's persisted settings.
#[derive(Debug, Clone)]
pub struct AppConfig {
    pub setup_complete: bool,
    pub agents: Vec<String>,
    /// Port override. `None` picks a free port on each launch.
    pub port: Option<u16>,
    pub start_minimized: bool,
}

impl Default for AppConfig {
    /// The settings of a fresh installation.
    fn default() -> (r: Self)
        ensures
            !r.setup_complete,
            r.agents@.len() == 0,
            r.port is None,
            !r.start_minimized,
    {
        AppConfig { setup_complete: false, agents: Vec::new(), port: None, start_minimized: false }
    }
}

/// The data directory below a given home directory.
pub open spec fn data_dir_of(home: Seq<char>) -> Seq<char> {
    joined(home, ".yep-anywhere-desktop"@)
}

/// The settings file inside a data directory.
pub open spec fn config_path_of(data_dir: Seq<char>) -> Seq<char> {
    joined(data_dir, "config.json"@)
}

/// The directory for downloaded binaries inside a data directory.
pub open spec fn bin_dir_of(data_dir: Seq<char>) -> Seq<char> {
    joined(data_dir, "bin"@)
}

/// The current user's home directory as reported by `dirs::home_dir()`,
/// rendered as text (lossily where it is not valid UTF-8). The answer
/// depends on the environment, so nothing is claimed of it.
#[verifier::external_body]
pub(crate) fn home_dir() -> (home: Option<String>) {
    dirs::home_dir().map(|p| p.to_string_lossy().into_owned())
}

/// The data directory below `home`.
pub fn data_dir_in(home: &str) -> (r: String)
    ensures
        r@ == data_dir_of(home@),
{
    join_path(home, ".yep-anywhere-desktop")
}

/// The settings file inside `data_dir`.
pub fn config_path_in(data_dir: &str) -> (r: String)
    ensures
        r@ == config_path_of(data_dir@),
{
    join_path(data_dir, "config.json")
}

/// The binaries directory inside `data_dir`.
pub fn bin_dir_in(data_dir: &str) -> (r: String)
    ensures
        r@ == bin_dir_of(data_dir@),
{
    join_path(data_dir, "bin")
}

/// The data directory of the current user, or `None` when the home
/// directory cannot be determined: what `data_dir_from` makes of the
/// answer of `dirs::home_dir()`, whatever that is.
pub fn data_dir() -> (r: Option<String>)
    ensures
        exists|home: Option<Seq<char>>| text_of(r) == #[trigger] data_dir_for(home),
{
    let home = home_dir();
    let ghost found = text_of(home);
    let r = data_dir_from(home);
    assert(text_of(r) == data_dir_for(found));
    r
}

/// The settings file of the current user, or `None` when the home directory
/// cannot be determined: what `config_path_from` makes of the answer of
/// `dirs::home_dir()`, whatever that is.
pub fn config_path() -> (r: Option<String>)
    ensures
        exists|home: Option<Seq<char>>| text_of(r) == #[trigger] config_path_for(home),
{
    let home = home_dir();
    let ghost found = text_of(home);
    let r = config_path_from(home);
    assert(text_of(r) == config_path_for(found));
    r
}

/// The binaries directory of the current user, or `None` when the home
/// directory cannot be determined: what `bin_dir_from` makes of the answer
/// of `dirs::home_dir()`, whatever that is.
pub fn bin_dir() -> (r: Option<String>)
    ensures
        exists|home: Option<Seq<char>>| text_of(r) == #[trigger] bin_dir_for(home),
{
    let home = home_dir();
    let ghost found = text_of(home);
    let r = bin_dir_from(home);
    assert(text_of(r) == bin_dir_for(found));
    r
}

/// The data directory for what was found out about the home directory:
/// below it where it is known, none where it is not.
pub open spec fn data_dir_for(home: Option<Seq<char>>) -> Option<Seq<char>> {
    match home {
        Some(h) => Some(data_dir_of(h)),
        None => None,
    }
}

/// The settings file for what was found out about the home directory.
pub open spec fn config_path_for(home: Option<Seq<char>>) -> Option<Seq<char>> {
    match home {
        Some(h) => Some(config_path_of(data_dir_of(h))),
        None => None,
    }
}

/// The binaries directory for what was found out about the home directory.
pub open spec fn bin_dir_for(home: Option<Seq<char>>) -> Option<Seq<char>> {
    match home {
        Some(h) => Some(bin_dir_of(data_dir_of(h))),
        None => None,
    }
}

/// The data directory, given the home directory if there is one.
pub fn data_dir_from(home: Option<String>) -> (r: Option<String>)
    ensures
        text_of(r) == data_dir_for(text_of(home)),
{
    match home {
        Some(h) => Some(data_dir_in(h.as_str())),
        None => None,
    }
}

/// The settings file, given the home directory if there is one.
pub fn config_path_from(home: Option<String>) -> (r: Option<String>)
    ensures
        text_of(r) == config_path_for(text_of(home)),
{
    match data_dir_from(home) {
        Some(d) => Some(config_path_in(d.as_str())),
        None => None,
    }
}

/// The binaries directory, given the home directory if there is one.
pub fn bin_dir_from(home: Option<String>) -> (r: Option<String>)
    ensures
        text_of(r) == bin_dir_for(text_of(home)),
{
    match data_dir_from(home) {
        Some(d) => Some(bin_dir_in(d.as_str())),
        None => None,
    }
}

} // verus!
