//! User models.

use vstd::prelude::*;

use crate::datetime::DateTimeUtc;
use crate::models::admin::Admin;

verus! {

/// The body for creating a user.
#[derive(Clone, Debug)]
pub struct UserCreate {
    pub proxies: Proxies,
    pub expire: Option<u64>,
    pub data_limit: u64,
    pub data_limit_reset_strategy: UserDataLimitResetStrategy,
    pub inbounds: Inbounds,
    pub note: Option<String>,
    pub sub_updated_at: Option<DateTimeUtc>,
    pub sub_last_user_agent: Option<String>,
    pub online_at: Option<DateTimeUtc>,
    pub on_hold_expire_duration: Option<u64>,
    pub on_hold_timeout: Option<DateTimeUtc>,
    pub auto_delete_in_days: Option<u64>,
    pub username: String,
    pub status: UserStatusCreate,
}

/// How and whether a user's data limit resets.
#[derive(Clone, Copy, PartialEq, Eq, Structural, Debug)]
pub enum UserDataLimitResetStrategy {
    NoReset,
    Day,
    Week,
    Month,
    Year,
}

/// The body for modifying a user; absent fields stay unchanged server-side.
#[derive(Clone, Debug)]
pub struct UserModify {
    pub proxies: Proxies,
    pub expire: Option<u64>,
    pub data_limit: u64,
    pub data_limit_reset_strategy: UserDataLimitResetStrategy,
    pub inbounds: Inbounds,
    pub note: Option<String>,
    pub sub_updated_at: Option<DateTimeUtc>,
    pub sub_last_user_agent: Option<String>,
    pub online_at: Option<DateTimeUtc>,
    pub on_hold_expire_duration: Option<u64>,
    pub on_hold_timeout: Option<DateTimeUtc>,
    pub auto_delete_in_days: Option<u64>,
    pub status: UserStatusModify,
}

/// Per-protocol proxy settings of one user.
#[derive(Clone, Debug)]
pub struct Proxies {
    pub trojan: Option<Trojan>,
    pub vless: Option<Vless>,
    pub vmess: Option<Vmess>,
    pub shadowsocks: Option<Shadowsocks>,
}

/// Trojan settings.
#[derive(Clone, Debug)]
pub struct Trojan {
    pub password: Option<String>,
    pub flow: Option<String>,
}

/// VLESS settings.
#[derive(Clone, Debug)]
pub struct Vless {
    pub id: Option<String>,
    pub flow: Option<String>,
}

/// VMess settings.
#[derive(Clone, Debug)]
pub struct Vmess {
    pub id: Option<String>,
    pub security: Option<String>,
}

/// Shadowsocks settings.
#[derive(Clone, Debug)]
pub struct Shadowsocks {
    pub password: Option<String>,
    pub method: Option<String>,
}

/// Inbound tags per protocol.
#[derive(Clone, Debug)]
pub struct Inbounds {
    pub trojan: Option<Vec<String>>,
    pub vless: Option<Vec<String>>,
    pub vmess: Option<Vec<String>>,
    pub shadowsocks: Option<Vec<String>>,
}

/// A user as the panel reports it.
#[derive(Clone, Debug)]
pub struct UserResponse {
    pub proxies: Proxies,
    pub expire: Option<u64>,
    pub data_limit: Option<u64>,
    pub data_limit_reset_strategy: UserDataLimitResetStrategy,
    pub inbounds: Inbounds,
    pub note: Option<String>,
    pub sub_updated_at: Option<DateTimeUtc>,
    pub sub_last_user_agent: Option<String>,
    pub online_at: Option<DateTimeUtc>,
    pub on_hold_expire_duration: Option<u64>,
    pub on_hold_timeout: Option<DateTimeUtc>,
    pub auto_delete_in_days: Option<u64>,
    pub username: String,
    pub status: UserStatus,
    pub used_traffic: u64,
    pub lifetime_used_traffic: u64,
    pub created_at: DateTimeUtc,
    pub links: Vec<String>,
    pub subscription_url: String,
    pub excluded_inbounds: Inbounds,
    pub admin: Admin,
}

/// A user's state.
#[derive(Clone, Copy, PartialEq, Eq, Structural, Debug)]
pub enum UserStatus {
    Active,
    Disabled,
    Limited,
    Expired,
    OnHold,
}

/// The wire name of a user state, as the panel spells it in query values.
pub open spec fn spec_user_status_name(s: UserStatus) -> Seq<char> {
    match s {
        UserStatus::Active => "active"@,
        UserStatus::Disabled => "disabled"@,
        UserStatus::Limited => "limited"@,
        UserStatus::Expired => "expired"@,
        UserStatus::OnHold => "on_hold"@,
    }
}

impl UserStatus {
    /// The wire name, for query parameters.
    pub fn query_value(&self) -> (v: String)
        ensures
            v@ == spec_user_status_name(*self),
    {
        match self {
            UserStatus::Active => String::from_str("active"),
            UserStatus::Disabled => String::from_str("disabled"),
            UserStatus::Limited => String::from_str("limited"),
            UserStatus::Expired => String::from_str("expired"),
            UserStatus::OnHold => String::from_str("on_hold"),
        }
    }
}

/// The states a new user may be created in.
#[derive(Clone, Copy, PartialEq, Eq, Structural, Debug)]
pub enum UserStatusCreate {
    Active,
    OnHold,
}

/// The states a user may be moved to.
#[derive(Clone, Copy, PartialEq, Eq, Structural, Debug)]
pub enum UserStatusModify {
    Active,
    Disabled,
    OnHold,
}

/// Usage of one user on one node.
#[derive(Clone, Debug)]
pub struct UserUsageResponse {
    pub node_id: Option<u64>,
    pub node_name: String,
    pub used_traffic: u64,
}

/// Usage of one user across nodes.
#[derive(Clone, Debug)]
pub struct UserUsagesResponse {
    pub username: String,
    pub usages: Vec<UserUsageResponse>,
}

/// A page of users and the total count.
#[derive(Clone, Debug)]
pub struct UsersResponse {
    pub users: Vec<UserResponse>,
    pub total: u64,
}

/// Usage of many users.
#[derive(Clone, Debug)]
pub struct UsersUsagesResponse {
    pub users: Vec<UserUsagesResponse>,
}

} // verus!
