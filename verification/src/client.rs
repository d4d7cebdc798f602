//! Client state and the authenticated request builder.
//!
//! One canonical shape: the state is the immutable base URL plus the one
//! mutable, optional bearer token. The asynchronous shell shares this state
//! behind a readers-writer lock — many request builders read the token, only
//! a successful authentication writes it.

use vstd::prelude::*;

use crate::dispatch::{BodyEncoding, Method, RequestDescriptor};
use crate::error::ApiError;
use crate::models::token::Token;
use crate::text::spec_opt_str_view;

verus! {

/// The client's shared state: the panel's base URL and the bearer token, if
/// one has been issued or seeded.
pub struct MarzbanAPIClient {
    pub base_url: String,
    pub token: Option<String>,
}

/// A request carries the client's token exactly when one is set: the bearer
/// field mirrors the token at the moment the request was built.
pub open spec fn spec_authorizes(client: MarzbanAPIClient, r: RequestDescriptor) -> bool {
    spec_opt_str_view(r.bearer) == spec_opt_str_view(client.token)
}

impl MarzbanAPIClient {
    /// The token as a character sequence, if set.
    pub open spec fn spec_token(&self) -> Option<Seq<char>> {
        spec_opt_str_view(self.token)
    }

    /// A fresh, unauthenticated client for the given base URL.
    pub fn new(base_url: &str) -> (c: Self)
        ensures
            c.base_url@ == base_url@,
            c.token is None,
    {
        MarzbanAPIClient { base_url: String::from_str(base_url), token: None }
    }

    /// A client pre-seeded with a token.
    pub fn new_with_token(base_url: &str, token: &str) -> (c: Self)
        ensures
            c.base_url@ == base_url@,
            c.spec_token() == Some(token@),
    {
        MarzbanAPIClient {
            base_url: String::from_str(base_url),
            token: Some(String::from_str(token)),
        }
    }

    /// A request for the given method and URL, primed with the bearer token
    /// exactly when one is currently set, with no query pairs and no body.
    /// Reads the shared state; changes nothing.
    pub fn prepare_authorized_request(&self, method: Method, url: String) -> (r: RequestDescriptor)
        ensures
            r.method == method,
            r.url@ == url@,
            spec_authorizes(*self, r),
            r.query@.len() == 0,
            r.body == BodyEncoding::Empty,
    {
        let bearer = match &self.token {
            Some(t) => Some(t.clone()),
            None => None,
        };
        RequestDescriptor { method, url, bearer, query: Vec::new(), body: BodyEncoding::Empty }
    }

    /// Finish an authentication attempt: a successfully issued token becomes
    /// the client's token; on failure the state — token included — is left
    /// exactly as it was, and the failure is passed through.
    pub fn store_issued_token(&mut self, outcome: Result<Token, ApiError>) -> (r: Result<
        (),
        ApiError,
    >)
        ensures
            final(self).base_url@ == old(self).base_url@,
            (match outcome {
                Ok(tok) => final(self).spec_token() == Some(tok.access_token@) && r is Ok,
                Err(e) => *final(self) == *old(self) && (r matches Err(e2) && e2 == e),
            }),
    {
        match outcome {
            Ok(tok) => {
                self.token = Some(tok.access_token);
                Ok(())
            },
            Err(e) => Err(e),
        }
    }
}

/// The causal ordering the token lifecycle gives: a request built while no
/// token was set carries no bearer credential, and a request built after a
/// token was issued and stored carries exactly that token.
pub proof fn lemma_bearer_follows_token(
    before: MarzbanAPIClient,
    after: MarzbanAPIClient,
    issued: Token,
    r_before: RequestDescriptor,
    r_after: RequestDescriptor,
)
    requires
        before.token is None,
        spec_authorizes(before, r_before),
        after.spec_token() == Some(issued.access_token@),
        spec_authorizes(after, r_after),
    ensures
        r_before.bearer is None,
        r_after.bearer matches Some(b) && b@ == issued.access_token@,
{
}

} // verus!
