//! Minimal client for the Axiston API: connection settings, the builder that
//! validates them, and the client that carries them.

use vstd::prelude::*;

mod builder;
mod client;
mod config;
mod endpoint;
pub mod laws;
mod transport;
pub mod types;

pub use builder::{
    env_outcome, parsed_text_of, text_of, Builder, BuilderView, ConfigError, API_KEY_VAR,
    BASE_URL_VAR, USER_AGENT_VAR,
};
pub use client::{debug_text_of, Client, ClientView};
pub use config::DEFAULT_USER_AGENT;
pub use endpoint::{is_base_url_text, url_serialization, BaseUrl, DEFAULT_BASE_URL};

verus! {

/// Error type for a [`Client`].
#[derive(Debug)]
pub enum Error {
    /// Errors that may occur when processing an HTTP request.
    Http(reqwest::Error),
    /// Errors that may occur when processing an API request.
    Api(types::ErrorResponse),
}

/// Specialized [`Result`] type for an [`Error`].
///
/// [`Result`]: std::result::Result
pub type Result<T, E = Error> = std::result::Result<T, E>;

impl From<reqwest::Error> for Error {
    /// A transport failure becomes [`Error::Http`].
    fn from(error: reqwest::Error) -> (converted: Error) {
        Error::Http(error)
    }
}

impl vstd::std_specs::convert::FromSpecImpl<reqwest::Error> for Error {
    open spec fn obeys_from_spec() -> bool {
        true
    }

    open spec fn from_spec(error: reqwest::Error) -> Error {
        Error::Http(error)
    }
}

impl From<types::ErrorResponse> for Error {
    /// A failure reported by the service becomes [`Error::Api`].
    fn from(response: types::ErrorResponse) -> (converted: Error) {
        Error::Api(response)
    }
}

impl vstd::std_specs::convert::FromSpecImpl<types::ErrorResponse> for Error {
    open spec fn obeys_from_spec() -> bool {
        true
    }

    open spec fn from_spec(response: types::ErrorResponse) -> Error {
        Error::Api(response)
    }
}

} // verus!
