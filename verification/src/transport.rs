use vstd::prelude::*;

verus! {

/// The HTTP client of the `reqwest` crate.
#[verifier::external_type_specification]
#[verifier::external_body]
pub struct ExClient(reqwest::Client);

/// Wraps `reqwest::Client::new`: a client with the default settings. (The
/// crate documents that it panics when its TLS backend or the system's
/// resolver configuration cannot be loaded; that depends on the machine, not
/// on anything passed here.)
#[verifier::external_body]
fn new_client() -> reqwest::Client {
    reqwest::Client::new()
}

/// An HTTP transport over a `reqwest` client; the driver sends requests and
/// reads event streams through it.
pub struct ReqwestTransport {
    pub client: reqwest::Client,
}

impl ReqwestTransport {
    pub fn new() -> ReqwestTransport {
        ReqwestTransport { client: new_client() }
    }

    /// A transport over a client that the caller set up.
    pub fn from(client: reqwest::Client) -> (t: ReqwestTransport)
        ensures
            t.client == client,
    {
        ReqwestTransport { client }
    }
}

impl Default for ReqwestTransport {
    fn default() -> ReqwestTransport {
        ReqwestTransport::new()
    }
}

} // verus!
