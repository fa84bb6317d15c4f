//! The configuration store: the persisted record, the result of a load,
//! and the assembly of that result from what the file system reported.
//! Reading and writing the file happens outside the library, which only
//! resolves the file's location (through an outside crate) and states what
//! every outcome means. Every failure degrades to a usable record plus a
//! human-readable advisory; none is fatal.

use vstd::prelude::*;
use vstd::string::StringExecFns;

use crate::codec::{parse_config, parse_error_message_spec, parse_spec, ParseError};
use crate::theme::Theme;

verus! {

/// The persisted user-preference record. An absent theme means "use the
/// default theme".
#[derive(Debug, Clone, Copy, PartialEq, Eq)]
pub struct Config {
    pub theme: Option<Theme>,
}

impl Config {
    /// The theme the record selects once the default is applied.
    pub open spec fn effective_theme_spec(self) -> Theme {
        match self.theme {
            Some(t) => t,
            None => Theme::Mango,
        }
    }

    /// The recorded theme, or the default where none is recorded.
    pub fn effective_theme(&self) -> (r: Theme)
        ensures
            r == self.effective_theme_spec(),
    {
        match self.theme {
            Some(t) => t,
            None => Theme::default(),
        }
    }
}

impl Default for Config {
    /// The record before anything was configured: no theme chosen.
    fn default() -> (r: Config)
        ensures
            r == (Config { theme: None }),
    {
        Config { theme: None }
    }
}

/// What reading the configuration file yielded, as the caller saw it:
/// the file's text, its absence, or the reason it could not be read.
#[derive(Debug, PartialEq, Eq)]
pub enum ReadOutcome {
    Content(String),
    Missing,
    Unreadable(String),
}

/// The view of a read outcome.
pub enum ReadView {
    Content(Seq<char>),
    Missing,
    Unreadable(Seq<char>),
}

impl View for ReadOutcome {
    type V = ReadView;

    open spec fn view(&self) -> ReadView {
        match self {
            ReadOutcome::Content(s) => ReadView::Content(s@),
            ReadOutcome::Missing => ReadView::Missing,
            ReadOutcome::Unreadable(m) => ReadView::Unreadable(m@),
        }
    }
}

/// What a load produced: a usable record always; the location the store
/// uses, when one was resolvable; and an advisory whenever the load
/// deviated from "location resolved, file present, parseable".
#[derive(Debug, PartialEq, Eq)]
pub struct LoadedConfig {
    pub config: Config,
    pub path: Option<String>,
    pub error: Option<String>,
}

/// The view of a load result.
pub struct LoadView {
    pub config: Config,
    pub path: Option<Seq<char>>,
    pub error: Option<Seq<char>>,
}

impl View for LoadedConfig {
    type V = LoadView;

    open spec fn view(&self) -> LoadView {
        LoadView {
            config: self.config,
            path: match self.path {
                Some(p) => Some(p@),
                None => None,
            },
            error: match self.error {
                Some(e) => Some(e@),
                None => None,
            },
        }
    }
}

/// The advisory of a load with no resolvable location.
pub open spec fn no_dir_advisory() -> Seq<char> {
    "No config directory available; using defaults."@
}

/// The advisory of a load that found no file.
pub open spec fn missing_advisory() -> Seq<char> {
    "Config not found; using defaults."@
}

/// The advisory of a load whose file did not parse.
pub open spec fn parse_advisory(e: ParseError) -> Seq<char> {
    "Unable to parse config: "@ + parse_error_message_spec(e)
}

/// The advisory of a load whose file could not be read.
pub open spec fn read_advisory(m: Seq<char>) -> Seq<char> {
    "Unable to read config: "@ + m
}

/// The view of an optional location.
pub open spec fn opt_path_view(p: Option<String>) -> Option<Seq<char>> {
    match p {
        Some(s) => Some(s@),
        None => None,
    }
}

/// What a load yields, for every resolved location (or none) and every
/// read outcome: no location or no file or an unparseable file all fall
/// back to the default record with an advisory; only a parsed file yields
/// its record, with no advisory.
pub open spec fn load_spec(path: Option<Seq<char>>, read: ReadView) -> LoadView {
    match path {
        None => LoadView {
            config: Config { theme: None },
            path: None,
            error: Some(no_dir_advisory()),
        },
        Some(p) => match read {
            ReadView::Content(s) => match parse_spec(s) {
                Ok(cfg) => LoadView { config: cfg, path: Some(p), error: None },
                Err(e) => LoadView {
                    config: Config { theme: None },
                    path: Some(p),
                    error: Some(parse_advisory(e)),
                },
            },
            ReadView::Missing => LoadView {
                config: Config { theme: None },
                path: Some(p),
                error: Some(missing_advisory()),
            },
            ReadView::Unreadable(m) => LoadView {
                config: Config { theme: None },
                path: Some(p),
                error: Some(read_advisory(m)),
            },
        },
    }
}

/// Assembles the result of a load from the resolved location and what
/// reading the file at it yielded, exactly as `load_spec` states it.
pub fn build_load_result(path: Option<String>, read: ReadOutcome) -> (r: LoadedConfig)
    ensures
        r@ == load_spec(opt_path_view(path), read@),
{
    match path {
        None => LoadedConfig {
            config: Config { theme: None },
            path: None,
            error: Some(String::from_str("No config directory available; using defaults.")),
        },
        Some(p) => match read {
            ReadOutcome::Content(s) => match parse_config(s.as_str()) {
                Ok(cfg) => LoadedConfig { config: cfg, path: Some(p), error: None },
                Err(e) => LoadedConfig {
                    config: Config { theme: None },
                    path: Some(p),
                    error: Some(String::from_str("Unable to parse config: ").concat(e.message())),
                },
            },
            ReadOutcome::Missing => LoadedConfig {
                config: Config { theme: None },
                path: Some(p),
                error: Some(String::from_str("Config not found; using defaults.")),
            },
            ReadOutcome::Unreadable(m) => LoadedConfig {
                config: Config { theme: None },
                path: Some(p),
                error: Some(String::from_str("Unable to read config: ").concat(m.as_str())),
            },
        },
    }
}

/// Load-then-use law: whatever the location and the read outcome, the
/// record of a load is usable — silence only accompanies a parsed file,
/// every deviation keeps the default record, and every advisory is a
/// non-empty text.
pub proof fn lemma_load_always_usable(path: Option<Seq<char>>, read: ReadView)
    ensures
        load_spec(path, read).error is None ==> (path is Some && read is Content),
        load_spec(path, read).error matches Some(m) ==> m.len() > 0,
        load_spec(path, read).error is Some ==> load_spec(path, read).config == (Config {
            theme: None,
        }),
{
    reveal_strlit("No config directory available; using defaults.");
    reveal_strlit("Config not found; using defaults.");
    reveal_strlit("Unable to parse config: ");
    reveal_strlit("Unable to read config: ");
}

/// Relies on dirs::config_dir: the platform's configuration directory,
/// if the host environment defines one. The result depends on the
/// environment alone, so nothing is promised of it; a directory whose
/// path is not valid Unicode counts as no directory.
#[verifier::external_body]
fn user_config_dir() -> (r: Option<String>) {
    dirs::config_dir().and_then(|d| d.into_os_string().into_string().ok())
}

/// The location of the configuration file: a fixed subpath under the
/// user's configuration directory, or `None` when the environment
/// defines none.
pub fn default_config_path() -> (r: Option<String>)
    ensures
        r matches Some(p) ==> p@.len() >= 19 && p@.skip(p@.len() - 19) == "/mangsh/config.toml"@,
{
    match user_config_dir() {
        None => None,
        Some(d) => {
            let p = d.concat("/mangsh/config.toml");
            proof {
                reveal_strlit("/mangsh/config.toml");
                assert(p@.skip(p@.len() - 19) =~= "/mangsh/config.toml"@);
            }
            Some(p)
        },
    }
}

} // verus!
