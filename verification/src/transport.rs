//! The HTTP transport, an opaque handle made by `reqwest`.

use reqwest::Client as RwClient;
use reqwest::Error as RwError;
use vstd::prelude::*;

verus! {

/// [`reqwest::Client`], the transport. Opaque here: it is carried from where
/// it is made to whoever asks the client for it.
#[verifier::external_type_specification]
#[verifier::external_body]
pub struct ExTransport(RwClient);

/// [`reqwest::Error`], a failure of the transport. Opaque here: it is carried
/// inside [`crate::Error::Http`].
#[verifier::external_type_specification]
#[verifier::external_body]
pub struct ExTransportError(RwError);

/// Calls [`reqwest::Client::builder`] and [`reqwest::ClientBuilder::build`]
/// with no option set.
///
/// Trusted, and nothing is claimed of the outcome: whether a transport can be
/// made depends on the machine, so callers handle both cases.
#[verifier::external_body]
pub(crate) fn new_transport() -> Result<RwClient, RwError> {
    RwClient::builder().build()
}

} // verus!
