//! Admin account models.

use vstd::prelude::*;

verus! {

/// An admin account as the panel reports it.
#[derive(Clone, Debug)]
pub struct Admin {
    pub username: String,
    pub is_sudo: bool,
    pub telegram_id: Option<u64>,
    pub discord_webhook: Option<String>,
}

/// The body for creating an admin.
#[derive(Clone, Debug)]
pub struct AdminCreate {
    pub username: String,
    pub is_sudo: bool,
    pub telegram_id: Option<u64>,
    pub discord_webhook: Option<String>,
    pub password: String,
}

/// The body for modifying an admin.
#[derive(Clone, Debug)]
pub struct AdminModify {
    pub password: Option<String>,
    pub is_sudo: bool,
    pub telegram_id: Option<u64>,
    pub discord_webhook: Option<String>,
}

} // verus!
