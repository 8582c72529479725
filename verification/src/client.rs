//! Per-session client configuration: the homeserver base URL and an
//! optional bearer token.
//!
//! The context is owned by the caller and passed by reference into every
//! operation. It is mutated only by a successful login (which stores the
//! token) or an explicit logout (which clears it).

use vstd::prelude::*;
use vstd::string::StringExecFns;

verus! {

/// The caller-owned client context: a base URL and, once logged in, the
/// `Authorization` header value derived from the access token.
pub struct MatrixClient {
    pub base_url: String,
    pub access_token: Option<String>,
}

impl MatrixClient {
    /// Create a new client context for the given homeserver, not yet
    /// holding any access token.
    pub fn new(base_url: &str) -> (client: MatrixClient)
        ensures
            client.base_url@ == base_url@,
            client.access_token is None,
    {
        MatrixClient { base_url: base_url.to_owned(), access_token: None }
    }

    pub fn get_base_url(&self) -> (url: &String)
        ensures
            url@ == self.base_url@,
    {
        &self.base_url
    }

    /// Store the access token returned by a successful login. The stored
    /// value is the full header value, `Bearer ` followed by the token.
    pub fn set_access_token(&mut self, access_token: String)
        ensures
            final(self).base_url == old(self).base_url,
            final(self).access_token matches Some(header) && header@ == "Bearer "@
                + access_token@,
    {
        let header = String::from_str("Bearer ").concat(access_token.as_str());
        self.access_token = Some(header);
    }

    pub fn get_access_token(&self) -> (token: &Option<String>)
        ensures
            *token == self.access_token,
    {
        &self.access_token
    }

    /// Forget the stored access token (logout).
    pub fn remove_access_token(&mut self)
        ensures
            final(self).base_url == old(self).base_url,
            final(self).access_token is None,
    {
        self.access_token = None;
    }
}

} // verus!
