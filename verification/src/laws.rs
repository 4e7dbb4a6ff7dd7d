//! What holds of the builder, the client and the environment values, stated
//! over their views.

use vstd::prelude::*;

use crate::builder::{env_outcome, BuilderView, ConfigError};
use crate::client::{debug_text_of, ClientView};
use crate::config::DEFAULT_USER_AGENT;
use crate::endpoint::DEFAULT_BASE_URL;

verus! {

/// A client built from a non-empty API key carries that key, whatever
/// overrides the builder was given on the way.
pub proof fn lemma_built_client_keeps_api_key(
    api_key: Seq<char>,
    base_url: Seq<char>,
    user_agent: Seq<char>,
)
    requires
        api_key.len() > 0,
    ensures
        BuilderView::new(api_key).resolve().api_key == api_key,
        BuilderView::new(api_key).with_base_url(base_url).resolve().api_key == api_key,
        BuilderView::new(api_key).with_user_agent(user_agent).resolve().api_key == api_key,
        BuilderView::new(api_key).with_base_url(base_url).with_user_agent(
            user_agent,
        ).resolve().api_key == api_key,
{
}

/// After `with_base_url`, the client's base URL is the text of the URL that
/// was given, also where a user agent is set afterwards or an earlier base
/// URL is replaced.
pub proof fn lemma_base_url_override_reaches_client(
    builder: BuilderView,
    base_url: Seq<char>,
    earlier: Seq<char>,
    user_agent: Seq<char>,
)
    ensures
        builder.with_base_url(base_url).resolve().base_url == base_url,
        builder.with_base_url(base_url).with_user_agent(user_agent).resolve().base_url
            == base_url,
        builder.with_base_url(earlier).with_base_url(base_url).resolve().base_url == base_url,
{
}

/// After `with_user_agent`, the client's user agent is the value that was
/// given, also where a base URL is set afterwards.
pub proof fn lemma_user_agent_override_reaches_client(
    builder: BuilderView,
    user_agent: Seq<char>,
    base_url: Seq<char>,
)
    ensures
        builder.with_user_agent(user_agent).resolve().user_agent == user_agent,
        builder.with_user_agent(user_agent).with_base_url(base_url).resolve().user_agent
            == user_agent,
{
}

/// A setting that is not overridden takes its default: both defaults for a
/// fresh builder, and each default where only the other setting is given.
pub proof fn lemma_defaults_where_not_overridden(
    api_key: Seq<char>,
    base_url: Seq<char>,
    user_agent: Seq<char>,
)
    ensures
        BuilderView::new(api_key).resolve() == (ClientView {
            api_key,
            base_url: DEFAULT_BASE_URL@,
            user_agent: DEFAULT_USER_AGENT@,
        }),
        BuilderView::new(api_key).with_base_url(base_url).resolve().user_agent
            == DEFAULT_USER_AGENT@,
        BuilderView::new(api_key).with_user_agent(user_agent).resolve().base_url
            == DEFAULT_BASE_URL@,
{
}

/// Without an API key in the environment, or with an empty one, no builder is
/// made, whatever the other two values are.
pub proof fn lemma_missing_api_key_is_rejected(
    api_key: Option<Seq<char>>,
    base_url: Option<Option<Seq<char>>>,
    user_agent: Option<Seq<char>>,
)
    requires
        api_key matches Some(text) ==> text.len() == 0,
    ensures
        env_outcome(api_key, base_url, user_agent) == Err::<BuilderView, ConfigError>(
            ConfigError::MissingApiKey,
        ),
{
}

/// With a base URL in the environment that is no valid URL, no builder is
/// made: the error names the base URL where the API key is in order.
pub proof fn lemma_invalid_base_url_is_rejected(
    api_key: Option<Seq<char>>,
    user_agent: Option<Seq<char>>,
)
    ensures
        env_outcome(api_key, Some(None), user_agent) is Err,
        (api_key matches Some(text) && text.len() > 0) ==> env_outcome(
            api_key,
            Some(None),
            user_agent,
        ) == Err::<BuilderView, ConfigError>(ConfigError::InvalidBaseUrl),
{
}

/// A builder made from environment values holds a non-empty API key and
/// exactly the values that were given, so it can be built.
pub proof fn lemma_env_builder_is_buildable(
    api_key: Option<Seq<char>>,
    base_url: Option<Option<Seq<char>>>,
    user_agent: Option<Seq<char>>,
)
    ensures
        env_outcome(api_key, base_url, user_agent) matches Ok(view) ==> {
            &&& view.api_key.len() > 0
            &&& api_key == Some(view.api_key)
            &&& base_url is Some ==> base_url == Some(view.base_url)
            &&& base_url is None ==> view.base_url is None
            &&& view.user_agent == user_agent
        },
{
}

/// The diagnostic text of a client does not depend on its API key.
pub proof fn lemma_debug_text_hides_api_key(first: ClientView, second: ClientView)
    requires
        first.base_url == second.base_url,
        first.user_agent == second.user_agent,
    ensures
        debug_text_of(first) == debug_text_of(second),
{
}

} // verus!
