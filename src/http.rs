//! The part of reqwest that the client is built with.

use vstd::prelude::*;

verus! {

#[verifier::external_type_specification]
#[verifier::external_body]
pub struct ExHttpClient(reqwest::Client);

/// Relies on `reqwest::ClientBuilder::timeout` and `build`: a client whose
/// requests each time out after the given number of seconds, or `None` when
/// the builder fails (no TLS backend, or no resolver configuration).
#[verifier::external_body]
pub(crate) fn build_http_client(timeout_secs: u64) -> (r: Option<reqwest::Client>) {
    reqwest::Client::builder().timeout(std::time::Duration::from_secs(timeout_secs)).build().ok()
}

/// Relies on `reqwest::ClientBuilder::build` with reqwest's default
/// settings: a client, or `None` when the builder fails.
#[verifier::external_body]
pub(crate) fn default_http_client() -> (r: Option<reqwest::Client>) {
    reqwest::Client::builder().build().ok()
}

} // verus!
