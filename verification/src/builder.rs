//! The builder: optional overrides over a mandatory API key.

use vstd::prelude::*;

use crate::client::{Client, ClientView};
use crate::config::DEFAULT_USER_AGENT;
use crate::endpoint::{url_serialization, BaseUrl, DEFAULT_BASE_URL};
use crate::transport::new_transport;
use crate::{Error, Result};

verus! {

/// Environment variable that holds the API key. Required.
pub const API_KEY_VAR: &'static str = "AXISTON_API_KEY";

/// Environment variable that holds the base URL. Optional.
pub const BASE_URL_VAR: &'static str = "AXISTON_BASE_URL";

/// Environment variable that holds the `User-Agent` value. Optional.
pub const USER_AGENT_VAR: &'static str = "AXISTON_USER_AGENT";

/// Why the values found in the environment make no [`Builder`].
#[derive(Debug, Clone, Copy, PartialEq, Eq, Structural)]
pub enum ConfigError {
    /// The API key is absent or empty.
    MissingApiKey,
    /// The base URL is present and is not a valid URL.
    InvalidBaseUrl,
}

/// The text of an optional string.
pub open spec fn text_of(value: Option<String>) -> Option<Seq<char>> {
    match value {
        Some(text) => Some(text@),
        None => None,
    }
}

/// The text of an optional base URL that went through the parser: `None`
/// where the variable is unset, `Some(None)` where it is set to something
/// that is no URL.
pub open spec fn parsed_text_of(value: Option<Option<BaseUrl>>) -> Option<Option<Seq<char>>> {
    match value {
        Some(Some(base_url)) => Some(Some(base_url@)),
        Some(None) => Some(None),
        None => None,
    }
}

/// What the three environment values amount to, the base URL given as the
/// parser left it.
///
/// The API key is examined first: where it is absent or empty, the base URL
/// is not looked at.
pub open spec fn env_outcome(
    api_key: Option<Seq<char>>,
    base_url: Option<Option<Seq<char>>>,
    user_agent: Option<Seq<char>>,
) -> Result<BuilderView, ConfigError> {
    match api_key {
        None => Err(ConfigError::MissingApiKey),
        Some(api_key) => if api_key.len() == 0 {
            Err(ConfigError::MissingApiKey)
        } else {
            match base_url {
                Some(None) => Err(ConfigError::InvalidBaseUrl),
                Some(Some(base_url)) => Ok(
                    BuilderView { api_key, base_url: Some(base_url), user_agent },
                ),
                None => Ok(BuilderView { api_key, base_url: None, user_agent }),
            }
        },
    }
}

/// What a [`Builder`] holds, as mathematical values.
pub struct BuilderView {
    pub api_key: Seq<char>,
    pub base_url: Option<Seq<char>>,
    pub user_agent: Option<Seq<char>>,
}

impl BuilderView {
    /// A builder with the key and no override.
    pub open spec fn new(api_key: Seq<char>) -> BuilderView {
        BuilderView { api_key, base_url: None, user_agent: None }
    }

    /// The same builder with the base URL replaced.
    pub open spec fn with_base_url(self, base_url: Seq<char>) -> BuilderView {
        BuilderView { base_url: Some(base_url), ..self }
    }

    /// The same builder with the user agent replaced.
    pub open spec fn with_user_agent(self, user_agent: Seq<char>) -> BuilderView {
        BuilderView { user_agent: Some(user_agent), ..self }
    }

    /// The settings of the client this builder makes: each override where one
    /// was given, the default where none was.
    pub open spec fn resolve(self) -> ClientView {
        ClientView {
            api_key: self.api_key,
            base_url: match self.base_url {
                Some(base_url) => base_url,
                None => DEFAULT_BASE_URL@,
            },
            user_agent: match self.user_agent {
                Some(user_agent) => user_agent,
                None => DEFAULT_USER_AGENT@,
            },
        }
    }
}

/// Staging area for the settings of a [`Client`].
pub struct Builder {
    api_key: String,
    base_url: Option<BaseUrl>,
    user_agent: Option<String>,
}

impl View for Builder {
    type V = BuilderView;

    closed spec fn view(&self) -> BuilderView {
        BuilderView {
            api_key: self.api_key@,
            base_url: match self.base_url {
                Some(base_url) => Some(base_url@),
                None => None,
            },
            user_agent: match self.user_agent {
                Some(user_agent) => Some(user_agent@),
                None => None,
            },
        }
    }
}

impl Builder {
    /// Creates a builder that holds `api_key` and no override.
    ///
    /// The key is not examined here; [`Builder::build`] is where it must be
    /// non-empty.
    pub fn new(api_key: &str) -> (builder: Builder)
        ensures
            builder@ == BuilderView::new(api_key@),
    {
        Builder { api_key: api_key.to_owned(), base_url: None, user_agent: None }
    }

    /// Overrides the default base URL.
    pub fn with_base_url(self, base_url: BaseUrl) -> (builder: Builder)
        ensures
            builder@ == self@.with_base_url(base_url@),
    {
        Builder { api_key: self.api_key, base_url: Some(base_url), user_agent: self.user_agent }
    }

    /// Overrides the default `User-Agent` value.
    pub fn with_user_agent(self, user_agent: &str) -> (builder: Builder)
        ensures
            builder@ == self@.with_user_agent(user_agent@),
    {
        Builder {
            api_key: self.api_key,
            base_url: self.base_url,
            user_agent: Some(user_agent.to_owned()),
        }
    }

    /// Makes a builder from the values of the three environment variables,
    /// each `None` where the variable is unset.
    ///
    /// The base URL, where present, is parsed here; the rest is
    /// [`Builder::from_parsed_values`].
    pub fn from_env_values(
        api_key: Option<String>,
        base_url: Option<String>,
        user_agent: Option<String>,
    ) -> (made: Result<Builder, ConfigError>)
        ensures
            match env_outcome(
                text_of(api_key),
                match base_url {
                    Some(text) => Some(url_serialization(text@)),
                    None => None,
                },
                text_of(user_agent),
            ) {
                Ok(view) => made is Ok && made->Ok_0@ == view,
                Err(error) => made == Err::<Builder, ConfigError>(error),
            },
    {
        let parsed = match base_url {
            Some(text) => Some(BaseUrl::parse(text.as_str())),
            None => None,
        };
        Builder::from_parsed_values(api_key, parsed, user_agent)
    }

    /// Makes a builder from the values of the three environment variables,
    /// the base URL already parsed: `Some(None)` where it did not parse.
    ///
    /// Fails with [`ConfigError::MissingApiKey`] where the key is absent or
    /// empty, else with [`ConfigError::InvalidBaseUrl`] where the base URL is
    /// present and did not parse. Any user agent is taken as it is.
    pub fn from_parsed_values(
        api_key: Option<String>,
        base_url: Option<Option<BaseUrl>>,
        user_agent: Option<String>,
    ) -> (made: Result<Builder, ConfigError>)
        ensures
            match env_outcome(text_of(api_key), parsed_text_of(base_url), text_of(user_agent)) {
                Ok(view) => made is Ok && made->Ok_0@ == view,
                Err(error) => made == Err::<Builder, ConfigError>(error),
            },
    {
        let api_key = match api_key {
            Some(api_key) => api_key,
            None => {
                return Err(ConfigError::MissingApiKey);
            },
        };
        if api_key.as_str().is_empty() {
            return Err(ConfigError::MissingApiKey);
        }
        let base_url = match base_url {
            Some(Some(base_url)) => Some(base_url),
            Some(None) => {
                return Err(ConfigError::InvalidBaseUrl);
            },
            None => None,
        };
        Ok(Builder { api_key, base_url, user_agent })
    }

    /// Resolves the defaults and makes the client around `transport`.
    pub fn build_with(self, transport: reqwest::Client) -> (client: Client)
        requires
            self@.api_key.len() > 0,
        ensures
            client@ == self@.resolve(),
            client.transport() == transport,
    {
        let base_url = match self.base_url {
            Some(base_url) => base_url,
            None => BaseUrl::default(),
        };
        let user_agent = match self.user_agent {
            Some(user_agent) => user_agent,
            None => DEFAULT_USER_AGENT.to_owned(),
        };
        Client::from_parts(self.api_key, base_url, user_agent, transport)
    }

    /// Resolves the defaults, makes a transport and the client around it.
    ///
    /// Whether a transport can be made is not decided here: when it cannot,
    /// the transport's error comes back as [`Error::Http`].
    pub fn build(self) -> (built: Result<Client>)
        requires
            self@.api_key.len() > 0,
        ensures
            match built {
                Ok(client) => client@ == self@.resolve(),
                Err(error) => error is Http,
            },
    {
        match new_transport() {
            Ok(transport) => Ok(self.build_with(transport)),
            Err(error) => Err(Error::from(error)),
        }
    }
}

} // verus!
