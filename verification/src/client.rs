//! The client: a read-only facade over shared settings.

use std::sync::Arc;

use vstd::prelude::*;

use crate::builder::{Builder, BuilderView};
use crate::config::Config;
use crate::endpoint::{is_base_url_text, BaseUrl};
use crate::Result;

verus! {

/// The settings of a [`Client`], as mathematical values.
pub struct ClientView {
    pub api_key: Seq<char>,
    pub base_url: Seq<char>,
    pub user_agent: Seq<char>,
}

/// The diagnostic text of a client with these settings.
///
/// The API key is a secret and has no part in it.
pub open spec fn debug_text_of(view: ClientView) -> Seq<char> {
    "Client { api_key: [redacted], base_url: "@ + view.base_url + ", user_agent: "@
        + view.user_agent + " }"@
}

/// Minimal [`Axiston`] client.
///
/// [`Axiston`]: https://axiston.com
pub struct Client {
    pub(crate) config: Arc<Config>,
}

impl View for Client {
    type V = ClientView;

    closed spec fn view(&self) -> ClientView {
        ClientView {
            api_key: self.config.api_key@,
            base_url: self.config.base_url@,
            user_agent: self.config.user_agent@,
        }
    }
}

impl Client {
    /// The transport this client sends through.
    pub closed spec fn transport(&self) -> reqwest::Client {
        self.config.client
    }

    /// Wraps validated settings and a transport for shared ownership.
    pub(crate) fn from_parts(
        api_key: String,
        base_url: BaseUrl,
        user_agent: String,
        transport: reqwest::Client,
    ) -> (client: Client)
        requires
            api_key@.len() > 0,
        ensures
            client@ == (ClientView {
                api_key: api_key@,
                base_url: base_url@,
                user_agent: user_agent@,
            }),
            client.transport() == transport,
    {
        let config = Config { api_key, base_url, user_agent, client: transport };
        Client { config: Arc::new(config) }
    }

    /// Creates a new [`Axiston`] client with the default base URL and user
    /// agent.
    ///
    /// [`Axiston`]: https://axiston.com
    pub fn new(api_key: &str) -> (created: Result<Client>)
        requires
            api_key@.len() > 0,
        ensures
            match created {
                Ok(client) => client@ == BuilderView::new(api_key@).resolve(),
                Err(error) => error is Http,
            },
    {
        Builder::new(api_key).build()
    }

    /// Creates a new [`Axiston`] client builder.
    ///
    /// [`Axiston`]: https://axiston.com
    pub fn builder(api_key: &str) -> (builder: Builder)
        ensures
            builder@ == BuilderView::new(api_key@),
    {
        Builder::new(api_key)
    }

    /// Returns `Ok(())` if the service is healthy.
    ///
    /// No request is sent yet: the answer is always `Ok(())`.
    pub fn health(&self) -> (outcome: Result<()>)
        ensures
            outcome is Ok,
    {
        Ok(())
    }

    /// Returns the reference to the provided `API key`.
    #[inline]
    #[must_use]
    pub fn api_key(&self) -> (api_key: &str)
        ensures
            api_key@ == self@.api_key,
            api_key@.len() > 0,
    {
        proof {
            use_type_invariant(&*self.config);
        }
        self.config.api_key.as_str()
    }

    /// Returns the reference to the used `User-Agent` header value.
    #[inline]
    #[must_use]
    pub fn user_agent(&self) -> (user_agent: &str)
        ensures
            user_agent@ == self@.user_agent,
    {
        self.config.user_agent.as_str()
    }

    /// Returns the reference to the used `base URL`.
    #[inline]
    #[must_use]
    pub fn base_url(&self) -> (base_url: &str)
        ensures
            base_url@ == self@.base_url,
            is_base_url_text(base_url@),
    {
        self.config.base_url.as_str()
    }

    /// Returns a one-line description of the client for logs, with the API
    /// key left out.
    pub fn debug_text(&self) -> (text: String)
        ensures
            text@ == debug_text_of(self@),
    {
        let mut text = String::from_str("Client { api_key: [redacted], base_url: ");
        text.append(self.config.base_url.as_str());
        text.append(", user_agent: ");
        text.append(self.config.user_agent.as_str());
        text.append(" }");
        text
    }

    /// Returns the underlying [`reqwest::Client`].
    #[inline]
    #[must_use]
    pub fn client(&self) -> (transport: &reqwest::Client)
        ensures
            *transport == self.transport(),
    {
        &self.config.client
    }
}

} // verus!
