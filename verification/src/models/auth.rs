//! The credential body for the token-issuance endpoint.

use vstd::prelude::*;

verus! {

/// Form-encoded credentials for `POST /api/admin/token`, named after the
/// panel's own schema `Body_admin_token_api_admin_token_post`.
#[derive(Clone, Debug)]
pub struct BodyAdminTokenApiAdminTokenPost {
    pub grant_type: Option<String>,
    pub username: String,
    pub password: String,
    pub scope: String,
    pub client_id: Option<String>,
    pub client_secret: Option<String>,
}

} // verus!
