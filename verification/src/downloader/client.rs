//! The HTTP client that downloads pages, with the user agent it was built
//! with.

use vstd::prelude::*;
use crate::text::opt_view;

verus! {

/// The HTTP client type of `reqwest`, carried through opaquely.
#[verifier::external_type_specification]
#[verifier::external_body]
pub struct ExClient(reqwest::Client);

/// An HTTP client and the user agent its requests send (none where it is
/// `reqwest`'s default client, which sends none).
pub struct BrowserClient {
    client: reqwest::Client,
    user_agent: Option<String>,
}

impl BrowserClient {
    /// The user agent the client's requests send.
    pub closed spec fn agent(&self) -> Option<Seq<char>> {
        opt_view(self.user_agent)
    }

    /// The `reqwest` client inside.
    pub closed spec fn inner(&self) -> reqwest::Client {
        self.client
    }

    /// A client of `reqwest` that was built without a user agent.
    pub fn plain(client: reqwest::Client) -> (r: BrowserClient)
        ensures
            r.agent() is None,
            r.inner() == client,
    {
        BrowserClient { client, user_agent: None }
    }

    /// The `reqwest` client that sends the requests.
    pub fn http(&self) -> (r: &reqwest::Client)
        ensures
            *r == self.inner(),
    {
        &self.client
    }
}

/// An HTTP client that sends `user_agent` with its requests:
/// `reqwest::Client::builder().user_agent(..).build()` (the builder sets
/// it as the default `User-Agent` header of every request), `None` where
/// building fails (the TLS backend or the resolver cannot be set up).
/// Claimed: a built client carries that user agent. Nothing is claimed of
/// when building fails, which depends on the machine.
#[verifier::external_body]
pub(crate) fn browser_client(user_agent: &str) -> (r: Option<BrowserClient>)
    ensures
        r matches Some(c) ==> c.agent() == Some(user_agent@),
{
    let client = reqwest::Client::builder().user_agent(user_agent).build().ok()?;
    Some(BrowserClient { client, user_agent: Some(user_agent.to_string()) })
}

} // verus!
