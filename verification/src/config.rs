//! Validated connection settings.

use vstd::prelude::*;

use crate::endpoint::BaseUrl;

verus! {

/// `User-Agent` value used when none is configured.
pub const DEFAULT_USER_AGENT: &'static str = "axiston/0.1.0";

/// Connection settings together with the transport they are used with.
///
/// Nothing changes a `Config` once it is made. The API key is never empty,
/// and the base URL is valid by the invariant of [`BaseUrl`].
pub(crate) struct Config {
    pub(crate) api_key: String,
    pub(crate) base_url: BaseUrl,
    pub(crate) user_agent: String,
    pub(crate) client: reqwest::Client,
}

impl Config {
    #[verifier::type_invariant]
    pub(crate) open spec fn well_formed(&self) -> bool {
        self.api_key@.len() > 0
    }
}

} // verus!
