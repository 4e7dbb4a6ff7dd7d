use axiston::{
    BaseUrl, Builder, ConfigError, API_KEY_VAR, BASE_URL_VAR, DEFAULT_BASE_URL,
    DEFAULT_USER_AGENT, USER_AGENT_VAR,
};

fn text(value: &str) -> Option<String> {
    Some(value.to_string())
}

fn error_of(made: Result<Builder, ConfigError>) -> Option<ConfigError> {
    match made {
        Ok(_) => None,
        Err(error) => Some(error),
    }
}

#[test]
fn variable_names() {
    assert_eq!(API_KEY_VAR, "AXISTON_API_KEY");
    assert_eq!(BASE_URL_VAR, "AXISTON_BASE_URL");
    assert_eq!(USER_AGENT_VAR, "AXISTON_USER_AGENT");
}

#[test]
fn unset_key_is_rejected() {
    let made = Builder::from_env_values(None, None, None);
    assert_eq!(error_of(made), Some(ConfigError::MissingApiKey));
}

#[test]
fn unset_key_is_rejected_whatever_else_is_set() {
    let made = Builder::from_env_values(None, text("https://example.net/"), text("ua"));
    assert_eq!(error_of(made), Some(ConfigError::MissingApiKey));
}

#[test]
fn empty_key_is_rejected() {
    let made = Builder::from_env_values(text(""), None, None);
    assert_eq!(error_of(made), Some(ConfigError::MissingApiKey));
}

#[test]
fn invalid_base_url_is_rejected() {
    let made = Builder::from_env_values(text("key"), text("not a url"), None);
    assert_eq!(error_of(made), Some(ConfigError::InvalidBaseUrl));
    let made = Builder::from_env_values(text("key"), text(""), text("ua"));
    assert_eq!(error_of(made), Some(ConfigError::InvalidBaseUrl));
}

#[test]
fn missing_key_is_reported_before_an_invalid_base_url() {
    let made = Builder::from_env_values(None, text("not a url"), None);
    assert_eq!(error_of(made), Some(ConfigError::MissingApiKey));
    let made = Builder::from_env_values(text(""), text("not a url"), None);
    assert_eq!(error_of(made), Some(ConfigError::MissingApiKey));
}

#[test]
fn key_alone_gives_the_defaults() {
    let builder = Builder::from_env_values(text("key"), None, None).expect("a builder");
    let client = builder.build_with(reqwest::Client::new());
    assert_eq!(client.api_key(), "key");
    assert_eq!(client.base_url(), DEFAULT_BASE_URL);
    assert_eq!(client.user_agent(), DEFAULT_USER_AGENT);
}

#[test]
fn all_three_values_reach_the_client() {
    let builder =
        Builder::from_env_values(text("key"), text("https://example.net/v2"), text("agent/3"))
            .expect("a builder");
    let client = builder.build_with(reqwest::Client::new());
    assert_eq!(client.api_key(), "key");
    assert_eq!(client.base_url(), "https://example.net/v2");
    assert_eq!(client.user_agent(), "agent/3");
}

#[test]
fn base_url_from_the_environment_is_serialized() {
    let builder =
        Builder::from_env_values(text("key"), text("https://example.net"), None).expect("a builder");
    let client = builder.build_with(reqwest::Client::new());
    assert_eq!(client.base_url(), "https://example.net/");
}

#[test]
fn any_user_agent_is_taken() {
    let builder = Builder::from_env_values(text("key"), None, text("")).expect("a builder");
    let client = builder.build_with(reqwest::Client::new());
    assert_eq!(client.user_agent(), "");
}

#[test]
fn parsed_values_unset_base_url() {
    let builder = Builder::from_parsed_values(text("key"), None, text("ua")).expect("a builder");
    let client = builder.build_with(reqwest::Client::new());
    assert_eq!(client.base_url(), DEFAULT_BASE_URL);
    assert_eq!(client.user_agent(), "ua");
}

#[test]
fn parsed_values_valid_base_url() {
    let base_url = BaseUrl::parse("https://example.net/").expect("a valid URL");
    let builder =
        Builder::from_parsed_values(text("key"), Some(Some(base_url)), None).expect("a builder");
    let client = builder.build_with(reqwest::Client::new());
    assert_eq!(client.base_url(), "https://example.net/");
    assert_eq!(client.user_agent(), DEFAULT_USER_AGENT);
}

#[test]
fn parsed_values_invalid_base_url() {
    let made = Builder::from_parsed_values(text("key"), Some(None), None);
    assert_eq!(error_of(made), Some(ConfigError::InvalidBaseUrl));
}

#[test]
fn parsed_values_missing_key() {
    let base_url = BaseUrl::parse("https://example.net/").expect("a valid URL");
    let made = Builder::from_parsed_values(None, Some(Some(base_url)), None);
    assert_eq!(error_of(made), Some(ConfigError::MissingApiKey));
    let made = Builder::from_parsed_values(text(""), Some(None), None);
    assert_eq!(error_of(made), Some(ConfigError::MissingApiKey));
}
