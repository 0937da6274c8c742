use search_clients::config::{
    required, ConfigError, GoogleCredentials, GOOGLE_API_KEY_VAR, GOOGLE_ENGINE_ID_VAR,
    YOUTUBE_API_KEY_VAR,
};
use search_clients::history::append_history;

#[test]
fn missing_key_is_a_configuration_error() {
    let r = GoogleCredentials::from_values(None, Some("engine".to_string()));
    assert_eq!(r.err(), Some(ConfigError::Missing("GOOGLE_SEARCH_API_KEY")));
    let r = required(None, YOUTUBE_API_KEY_VAR);
    assert_eq!(r, Err(ConfigError::Missing("YOUTUBE_API_KEY")));
}

#[test]
fn missing_engine_is_a_configuration_error() {
    let r = GoogleCredentials::from_values(Some("k".to_string()), None);
    assert_eq!(r.err(), Some(ConfigError::Missing(GOOGLE_ENGINE_ID_VAR)));
    let r = GoogleCredentials::from_values(None, None);
    assert_eq!(r.err(), Some(ConfigError::Missing(GOOGLE_API_KEY_VAR)));
}

#[test]
fn present_credentials_are_kept() {
    let c = GoogleCredentials::from_values(Some("k".to_string()), Some("e".to_string())).unwrap();
    assert_eq!(c.api_key, "k");
    assert_eq!(c.engine_id, "e");
    assert_eq!(required(Some("v".to_string()), YOUTUBE_API_KEY_VAR), Ok("v".to_string()));
}

#[test]
fn configuration_error_message_names_variable() {
    assert_eq!(
        ConfigError::Missing(GOOGLE_API_KEY_VAR).message(),
        "GOOGLE_SEARCH_API_KEY environment variable not set"
    );
}

#[test]
fn history_starts_with_one_entry_then_grows() {
    let first = append_history(None, "first".to_string());
    assert_eq!(first, vec!["first".to_string()]);
    let second = append_history(Some(first), "second".to_string());
    assert_eq!(second, vec!["first".to_string(), "second".to_string()]);
}
