//! The v1 release of the Up API: the client, its error taxonomy, and one
//! module per resource kind.

use vstd::prelude::*;

pub mod accounts;
pub mod categories;
pub mod error;
pub mod json;
pub mod http;
pub mod paginate;
pub mod query;
pub mod standard;
pub mod tags;
pub mod transactions;
pub mod utilities;
pub mod webhooks;

verus! {

/// The fixed base of every request URL.
pub open spec fn spec_base_url() -> Seq<char> {
    "https://api.up.com.au/api/v1"@
}

/// Returns the fixed base of every request URL.
pub fn base_url() -> (r: &'static str)
    ensures
        r@ == spec_base_url(),
{
    "https://api.up.com.au/api/v1"
}

/// A client for interacting with the Up API.
pub struct Client {
    access_token: String,
}

impl Client {
    /// The token this client was created with.
    pub closed spec fn token(&self) -> Seq<char> {
        self.access_token@
    }

    /// Creates an instance of the `Client` from the access token.
    pub fn new(access_token: String) -> (c: Self)
        ensures
            c.token() == access_token@,
    {
        Client { access_token }
    }

    /// The `Authorization` header value sent with every request.
    pub fn auth_header(&self) -> (r: String)
        ensures
            r@ == "Bearer "@ + self.token(),
    {
        let mut header = String::from_str("Bearer ");
        header.append(self.access_token.as_str());
        header
    }
}

} // verus!
