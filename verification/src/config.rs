use vstd::prelude::*;

use crate::embed::cat3;

verus! {

/// Holds error information related to the process of loading the configurations.
/// This should be used to handle errors triggered before the logging system is up.
#[derive(Debug)]
pub struct BotConfigError {
    message: String,
}

impl View for BotConfigError {
    type V = Seq<char>;

    closed spec fn view(&self) -> Seq<char> {
        self.message@
    }
}

impl BotConfigError {
    /// An error that reads `message`.
    pub fn new(message: &str) -> (e: Self)
        ensures
            e@ == message@,
    {
        BotConfigError { message: String::from_str(message) }
    }

    /// The message of the error, as it is displayed.
    pub fn to_string(&self) -> (s: String)
        ensures
            s@ == self@,
    {
        self.message.clone()
    }
}

/// A set of configurations of this bot.
pub struct BotConfig {
    pub discord_token: String,
    pub log_path: String,
    pub status_message: String,
    pub database_url: Option<String>,
}

impl Clone for BotConfig {
    fn clone(&self) -> (r: Self)
        ensures
            r == *self,
    {
        BotConfig {
            discord_token: self.discord_token.clone(),
            log_path: self.log_path.clone(),
            status_message: self.status_message.clone(),
            database_url: match &self.database_url {
                Some(u) => Some(u.clone()),
                None => None,
            },
        }
    }
}

/// The message of the error raised when there is no configuration file.
pub open spec fn missing_config_text() -> Seq<char> {
    "No configuration file is provided. Create a new \"config.json\" in the directory where this bot is placed."@
}

/// The message of the error raised when the log file cannot be opened.
pub open spec fn log_file_error_text(path: Seq<char>) -> Seq<char> {
    "Cannot open or create the log file \""@ + path + "\"."@
}

/// The configuration that `get` hands out given what was kept and what was loaded: the kept
/// one if there is one, else the loaded one.
pub open spec fn resolved_config(cache: Option<BotConfig>, loaded: Result<BotConfig, BotConfigError>) -> BotConfig {
    match cache {
        Some(c) => c,
        None => loaded->Ok_0,
    }
}

impl BotConfig {
    /// Gets the configurations of this bot: the ones kept in `cache` if any, else the ones
    /// `loaded` from the file, which are then kept. The caller loads only when nothing is kept
    /// and stops when loading failed.
    pub fn get(cache: &mut Option<BotConfig>, loaded: Result<BotConfig, BotConfigError>) -> (c: BotConfig)
        requires
            *old(cache) is Some || loaded is Ok,
        ensures
            c == resolved_config(*old(cache), loaded),
            *final(cache) == Some(c),
    {
        match cache {
            Some(kept) => kept.clone(),
            None => {
                let c = loaded.unwrap();
                *cache = Some(c.clone());
                c
            },
        }
    }

    /// The result of loading the configuration: the configuration read from `config.json`
    /// when the file exists (`found`), else the error that asks for the file.
    pub fn load_from_file(found: Option<BotConfig>) -> (r: Result<BotConfig, BotConfigError>)
        ensures
            match found {
                Some(c) => r == Ok::<BotConfig, BotConfigError>(c),
                None => r matches Err(e) && e@ == missing_config_text(),
            },
    {
        match found {
            Some(c) => Ok(c),
            None => Err(
                BotConfigError::new(
                    "No configuration file is provided. Create a new \"config.json\" in the directory where this bot is placed.",
                ),
            ),
        }
    }
}

/// The error raised when the log file at `path` cannot be opened or created.
pub fn log_file_error(path: &str) -> (e: BotConfigError)
    ensures
        e@ == log_file_error_text(path@),
{
    let m = cat3("Cannot open or create the log file \"", path, "\".");
    BotConfigError { message: m }
}

/// The configuration is loaded once: after a first `get`, every later `get` hands out the same
/// configuration whatever a later load would give.
pub proof fn config_is_loaded_once(
    cache: Option<BotConfig>,
    first: Result<BotConfig, BotConfigError>,
    later: Result<BotConfig, BotConfigError>,
)
    requires
        cache is Some || first is Ok,
    ensures
        resolved_config(Some(resolved_config(cache, first)), later) == resolved_config(cache, first),
{
}

} // verus!
