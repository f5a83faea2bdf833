//! Configuration: a virtual monorepo's own config and the user-level
//! global config, and the decisions around loading them.

pub mod analytics;
pub mod schema;
pub mod frequency;
pub mod updates;
pub mod vmr;

use crate::config::schema::Core;
use crate::config::updates::Updates;
use crate::text::{chars_of, extend, lit, string_of};
use vstd::prelude::*;

verus! {

/// A virtual monorepo's configuration.
#[derive(Clone, Copy, Debug, PartialEq, Eq, Structural)]
pub struct Config {
    /// Core configuration
    pub core: Core,
}

impl Default for Config {
    /// Schema version 0.
    fn default() -> (r: Config)
        ensures
            r.core.version == 0,
    {
        Config { core: Core::default() }
    }
}

/// The user-level configuration.
#[derive(Clone, Copy, Debug, PartialEq, Eq, Structural)]
pub struct GlobalConfig {
    /// Core configuration
    pub core: Core,
    /// Software updates
    pub updates: Updates,
}

impl Default for GlobalConfig {
    /// Schema version 0, and a daily update check.
    fn default() -> (r: GlobalConfig)
        ensures
            r.core.version == 0,
            r.updates.check_frequency == crate::config::frequency::days(1),
    {
        GlobalConfig { core: Core::default(), updates: Updates::default() }
    }
}

/// What reading a config file gave.
pub enum FileRead {
    Contents(String),
    NotFound,
    Failed(String),
}

/// What loading the global config takes next: parsing the contents read,
/// or nothing more.
pub enum ConfigLoad {
    Parse(String),
    Loaded(GlobalConfig),
    Failed(String),
}

impl GlobalConfig {
    /// Loading the global config at `path` from what reading it gave: its
    /// contents are parsed; a missing file means the defaults; a failed
    /// read fails with `failed to read <path>`.
    pub fn load(path: &str, read: FileRead) -> (r: ConfigLoad)
        ensures
            match read {
                FileRead::Contents(c) => r matches ConfigLoad::Parse(x) && x@ == c@,
                FileRead::NotFound => r matches ConfigLoad::Loaded(g) && g.core.version == 0
                    && g.updates.check_frequency == crate::config::frequency::days(1),
                FileRead::Failed(e) => r matches ConfigLoad::Failed(m) && m@ == "failed to read "@
                    + path@ + ": "@ + e@,
            },
    {
        match read {
            FileRead::Contents(c) => ConfigLoad::Parse(c),
            FileRead::NotFound => ConfigLoad::Loaded(GlobalConfig::default()),
            FileRead::Failed(e) => {
                let mut m = lit("failed to read ");
                extend(&mut m, &chars_of(path));
                extend(&mut m, &lit(": "));
                extend(&mut m, &chars_of(e.as_str()));
                ConfigLoad::Failed(string_of(&m))
            },
        }
    }

    /// The loaded config from what parsing the contents gave: a parse
    /// failure fails with `failed to parse <path>`.
    pub fn parsed(path: &str, parse: Result<GlobalConfig, String>) -> (r: Result<GlobalConfig, String>)
        ensures
            match parse {
                Ok(g) => r == Ok::<GlobalConfig, String>(g),
                Err(e) => r matches Err(m) && m@ == "failed to parse "@ + path@ + ": "@ + e@,
            },
    {
        match parse {
            Ok(g) => Ok(g),
            Err(e) => {
                let mut m = lit("failed to parse ");
                extend(&mut m, &chars_of(path));
                extend(&mut m, &lit(": "));
                extend(&mut m, &chars_of(e.as_str()));
                Err(string_of(&m))
            },
        }
    }

    /// The directory the global config lives under: the one given, else the
    /// one the environment names, else the platform's config directory.
    pub fn resolve_root(config_dir: Option<String>, env_dir: Option<String>) -> (r: Result<String, String>)
        ensures
            config_dir is Some ==> r == Ok::<String, String>(config_dir->0),
            config_dir is None && env_dir is Some ==> r == Ok::<String, String>(env_dir->0),
            r matches Err(e) ==> e@ == "failed to resolve user config directory"@,
    {
        match config_dir {
            Some(d) => Ok(d),
            None => match env_dir {
                Some(d) => Ok(d),
                None => match platform_config_dir() {
                    Some(d) => Ok(d),
                    None => Err(string_of(&lit("failed to resolve user config directory"))),
                },
            },
        }
    }
}

/// `dirs::config_dir()`, displayed: the user's configuration directory of
/// the platform, which the environment decides, so nothing is claimed of
/// it.
#[verifier::external_body]
fn platform_config_dir() -> Option<String> {
    match dirs::config_dir() {
        Some(p) => Some(p.display().to_string()),
        None => None,
    }
}

} // verus!
