//! The issued bearer token.

use vstd::prelude::*;

verus! {

/// What the token-issuance endpoint returns: an opaque bearer string and an
/// optional token-type tag (the panel sends "bearer").
#[derive(Clone, Debug)]
pub struct Token {
    pub access_token: String,
    pub token_type: Option<String>,
}

} // verus!
