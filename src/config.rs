//! Where the configuration lives, and what is shown about it.
//!
//! Reading and writing the configuration file is done outside; this module
//! names the paths and composes the report.

use crate::command_cache::{join_path, path_join};
use crate::text::concat3;
use vstd::prelude::*;

verus! {

/// Why the configuration could not be located or read.
#[derive(Debug)]
pub enum ConfigError {
    /// The home directory could not be determined.
    NoHomeDirectory,
    /// Reading, parsing or writing the configuration failed.
    Io { message: String },
}

/// Provides the directory that holds the configuration file.
pub trait ConfigPathProvider {
    fn get_base_dir(&self) -> Result<String, ConfigError>;
}

/// The configuration directory under the user's home directory.
#[derive(Debug, Clone, Copy, Default)]
pub struct HomePathProvider;

/// The name of the configuration directory under the home directory.
pub open spec fn config_dir_name() -> Seq<char> {
    ".abiogenesis"@
}

/// Relies on `dirs::home_dir`: the user's home directory, if one can be
/// found. It depends on the environment, so nothing is promised of it.
#[verifier::external_body]
fn home_dir() -> Option<String> {
    dirs::home_dir().map(|p| p.to_string_lossy().into_owned())
}

impl ConfigPathProvider for HomePathProvider {
    /// The `.abiogenesis` directory under the home directory.
    fn get_base_dir(&self) -> (r: Result<String, ConfigError>)
        ensures
            r matches Ok(d) ==> exists|h: Seq<char>| d@ == path_join(h, config_dir_name()),
            r matches Err(e) ==> e is NoHomeDirectory,
    {
        match home_dir() {
            Some(home) => {
                let dir = join_path(home.as_str(), ".abiogenesis");
                proof {
                    assert(dir@ == path_join(home@, config_dir_name()));
                }
                Ok(dir)
            },
            None => Err(ConfigError::NoHomeDirectory),
        }
    }
}

/// The user's configuration.
#[derive(Debug, Clone, Default, PartialEq)]
pub struct Config {
    /// The credential for the generation service.
    pub anthropic_api_key: Option<String>,
}

impl Config {
    /// The configured credential, if any.
    pub fn get_api_key(&self) -> (r: Option<&String>)
        ensures
            r matches Some(k) ==> (self.anthropic_api_key matches Some(a) && k@ == a@),
            r is None <==> self.anthropic_api_key is None,
    {
        match &self.anthropic_api_key {
            Some(k) => Some(k),
            None => None,
        }
    }

    /// Sets the credential. Saving the configuration is up to the caller.
    pub fn set_api_key(&mut self, api_key: String) -> (r: ())
        ensures
            final(self).anthropic_api_key == Some(api_key),
    {
        self.anthropic_api_key = Some(api_key);
    }

    /// The configuration directory under the home directory.
    pub fn get_config_dir() -> (r: Result<String, ConfigError>)
        ensures
            r matches Ok(d) ==> exists|h: Seq<char>| d@ == path_join(h, config_dir_name()),
    {
        HomePathProvider.get_base_dir()
    }
}

/// Locates the configuration through a path provider.
pub struct ConfigLoader<P: ConfigPathProvider> {
    path_provider: Box<P>,
}

impl ConfigLoader<HomePathProvider> {
    /// A loader for the configuration under the home directory.
    pub fn new() -> Self {
        ConfigLoader::with_provider(Box::new(HomePathProvider))
    }
}

impl Default for ConfigLoader<HomePathProvider> {
    fn default() -> Self {
        ConfigLoader::new()
    }
}

/// The configuration file inside the configuration directory `dir`.
pub open spec fn config_file_in(dir: Seq<char>) -> Seq<char> {
    path_join(dir, "config.toml"@)
}

/// The log file inside the configuration directory `dir`.
pub open spec fn log_file_in(dir: Seq<char>) -> Seq<char> {
    path_join(dir, "ergo.log"@)
}

impl<P: ConfigPathProvider> ConfigLoader<P> {
    /// The provider that locates the configuration directory.
    pub closed spec fn provider(&self) -> P {
        *self.path_provider
    }

    /// A loader whose directory comes from `path_provider`.
    pub fn with_provider(path_provider: Box<P>) -> (r: Self)
        ensures
            r.provider() == *path_provider,
    {
        ConfigLoader { path_provider }
    }

    /// The configuration directory.
    pub fn get_config_dir(&self) -> Result<String, ConfigError> {
        self.path_provider.get_base_dir()
    }

    /// The configuration file: `config.toml` in the configuration directory.
    pub fn get_config_path(&self) -> Result<String, ConfigError> {
        config_path_from(self.path_provider.get_base_dir())
    }
}

/// The configuration file, once the configuration directory is located.
pub fn config_path_from(dir: Result<String, ConfigError>) -> (r: Result<String, ConfigError>)
    ensures
        dir matches Ok(d) ==> (r matches Ok(p) && p@ == config_file_in(d@)),
        dir matches Err(e) ==> (r matches Err(e2) && e2 == e),
{
    match dir {
        Ok(d) => Ok(config_path_in(d.as_str())),
        Err(e) => Err(e),
    }
}

/// The configuration file inside the configuration directory `dir`.
pub fn config_path_in(dir: &str) -> (r: String)
    ensures
        r@ == config_file_in(dir@),
{
    join_path(dir, "config.toml")
}

/// The log file inside the configuration directory `dir`.
pub fn log_path_in(dir: &str) -> (r: String)
    ensures
        r@ == log_file_in(dir@),
{
    join_path(dir, "ergo.log")
}

/// The status lines of the report: whether the file was found, and then
/// whether it sets a credential.
pub open spec fn status_lines(found: Option<bool>) -> Seq<char> {
    match found {
        Some(true) => "Status: Found\nAPI Key: Set\n"@,
        Some(false) => "Status: Found\nAPI Key: Not set\n"@,
        None => "Status: Not found (using defaults)\n"@,
    }
}

/// The text of the configuration report.
pub open spec fn config_report_of(config_path: Seq<char>, found: Option<bool>, log_path: Seq<char>) -> Seq<
    char,
> {
    "Configuration file: "@ + config_path + "\n"@ + status_lines(found) + "\nLog file: "@ + log_path
        + "\n"@ + REPORT_TAIL@
}

/// How to set the credential, closing the configuration report.
pub const REPORT_TAIL: &'static str = "\nTo set API key:\n  ergo --set-api-key <your-key>\n\nOr set environment variable:\n  export ANTHROPIC_API_KEY=<your-key>\n";

/// Composes the configuration report: the configuration file and whether it
/// exists (`found` is `None` when it does not), whether it sets a
/// credential, the log file, and how to set the credential.
pub fn config_report(config_path: &str, found: Option<&Config>, log_path: &str) -> (r: String)
    ensures
        r@ == config_report_of(
            config_path@,
            match found {
                Some(c) => Some(c.anthropic_api_key is Some),
                None => None,
            },
            log_path@,
        ),
{
    let mut r = concat3("Configuration file: ", config_path, "\n");
    match found {
        Some(c) => if c.anthropic_api_key.is_some() {
            r.append("Status: Found\nAPI Key: Set\n");
        } else {
            r.append("Status: Found\nAPI Key: Not set\n");
        },
        None => r.append("Status: Not found (using defaults)\n"),
    }
    r.append("\nLog file: ");
    r.append(log_path);
    r.append("\n");
    r.append(REPORT_TAIL);
    r
}

} // verus!
