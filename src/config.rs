//! Credentials, read once at start-up from the environment and handed to the
//! code that needs them. A missing one is a configuration error, found before
//! any request is made.
use vstd::prelude::*;

verus! {

/// The variable that holds the web search key.
pub const GOOGLE_API_KEY_VAR: &'static str = "GOOGLE_SEARCH_API_KEY";

/// The variable that holds the web search engine identifier.
pub const GOOGLE_ENGINE_ID_VAR: &'static str = "GOOGLE_SEARCH_ENGINE_ID";

/// The variable that holds the video search key.
pub const YOUTUBE_API_KEY_VAR: &'static str = "YOUTUBE_API_KEY";

/// The variable that holds the generative-language key.
pub const GEMINI_API_KEY_VAR: &'static str = "GOOGLE_GENERATIVE_API_KEY";

/// The variable that holds the folder of the search history.
pub const HISTORY_FOLDER_VAR: &'static str = "YOUTUBE_FOLDER";

/// A required setting is missing.
#[derive(Debug, Clone, Copy, PartialEq, Eq)]
pub enum ConfigError {
    /// The named environment variable is not set.
    Missing(&'static str),
}

impl ConfigError {
    /// A message naming what is missing.
    pub fn message(&self) -> (r: String)
        ensures
            r@ == match self {
                ConfigError::Missing(name) => name@ + " environment variable not set"@,
            },
    {
        match self {
            ConfigError::Missing(name) => (*name).to_owned().concat(" environment variable not set"),
        }
    }
}

/// A setting that must be present: its value, or the error naming the
/// variable it comes from.
pub fn required(value: Option<String>, name: &'static str) -> (r: Result<String, ConfigError>)
    ensures
        r == match value {
            Some(v) => Ok::<String, ConfigError>(v),
            None => Err(ConfigError::Missing(name)),
        },
{
    match value {
        Some(v) => Ok(v),
        None => Err(ConfigError::Missing(name)),
    }
}

/// The credentials of the web search endpoint.
#[derive(Debug, Clone)]
pub struct GoogleCredentials {
    pub api_key: String,
    pub engine_id: String,
}

impl GoogleCredentials {
    /// Credentials from the values of their two variables; the key is checked
    /// first.
    pub fn from_values(api_key: Option<String>, engine_id: Option<String>) -> (r: Result<
        GoogleCredentials,
        ConfigError,
    >)
        ensures
            match (api_key, engine_id) {
                (Some(k), Some(e)) => r matches Ok(c) && c.api_key == k && c.engine_id == e,
                (None, _) => r == Err::<GoogleCredentials, ConfigError>(ConfigError::Missing(GOOGLE_API_KEY_VAR)),
                (Some(_), None) => r == Err::<GoogleCredentials, ConfigError>(ConfigError::Missing(GOOGLE_ENGINE_ID_VAR)),
            },
    {
        let api_key = required(api_key, GOOGLE_API_KEY_VAR)?;
        let engine_id = required(engine_id, GOOGLE_ENGINE_ID_VAR)?;
        Ok(GoogleCredentials { api_key, engine_id })
    }
}

} // verus!
