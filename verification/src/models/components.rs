//! The earlier, self-contained schema set.
//!
//! An older layer of the bindings kept every component schema in one module,
//! with narrower integer types; it is retained alongside the per-resource
//! modules. Schemas carrying floating-point fields (node create/modify/
//! response, system stats) live with the asynchronous shell instead.

use std::collections::HashMap;

use vstd::prelude::*;

use crate::datetime::DateTimeUtc;

verus! {

/// Default node port.
pub fn default_port() -> (p: u32)
    ensures
        p == 62050u32,
{
    62050
}

/// Default node API port.
pub fn default_api_port() -> (p: u32)
    ensures
        p == 62051u32,
{
    62051
}

/// Default for boolean fields that the schema turns on.
pub fn default_true() -> (b: bool)
    ensures
        b,
{
    true
}

/// Default minimum node version.
pub fn default_min_node_version() -> (v: String)
    ensures
        v@ == "v0.2.0"@,
{
    String::from_str("v0.2.0")
}

/// Default proxy-host security.
pub fn default_proxy_host_security() -> (s: ProxyHostSecurity)
    ensures
        s == ProxyHostSecurity::InboundDefault,
{
    ProxyHostSecurity::InboundDefault
}

/// Default for numeric fields that start at zero.
pub fn default_with_0() -> (n: u32)
    ensures
        n == 0u32,
{
    0
}

/// Default data-limit reset strategy.
pub fn default_data_limit_reset_strategy() -> (s: UserDataLimitResetStrategy)
    ensures
        s == UserDataLimitResetStrategy::NoReset,
{
    UserDataLimitResetStrategy::NoReset
}

/// Default for string fields that start empty.
pub fn default_empty_string() -> (s: String)
    ensures
        s@ == Seq::<char>::empty(),
{
    String::new()
}

/// An admin account.
#[derive(Clone, Debug)]
pub struct Admin {
    pub username: String,
    pub is_sudo: bool,
    pub telegram_id: Option<u32>,
    pub discord_webhook: Option<String>,
}

/// The body for creating an admin.
#[derive(Clone, Debug)]
pub struct AdminCreate {
    pub username: String,
    pub is_sudo: bool,
    pub telegram_id: Option<u32>,
    pub discord_webhook: Option<String>,
    pub password: String,
}

/// The body for modifying an admin.
#[derive(Clone, Debug)]
pub struct AdminModify {
    pub password: Option<String>,
    pub is_sudo: bool,
    pub telegram_id: Option<u32>,
    pub discord_webhook: Option<String>,
}

/// Form-encoded credentials for the token-issuance endpoint.
#[derive(Clone, Debug)]
pub struct BodyAdminTokenApiAdminTokenPost {
    pub grant_type: Option<String>,
    pub username: String,
    pub password: String,
    pub scope: String,
    pub client_id: Option<String>,
    pub client_secret: Option<String>,
}

/// Statistics of the panel's core.
#[derive(Clone, Debug)]
pub struct CoreStats {
    pub version: String,
    pub started: bool,
    pub logs_websocket: String,
}

/// The validation-error envelope of this schema set: at most one error.
#[derive(Clone, Debug)]
pub struct HTTPValidationError {
    pub detail: Option<ValidationError>,
}

/// The panel's node settings.
#[derive(Clone, Debug)]
pub struct NodeSettings {
    pub min_node_version: String,
    pub certificate: String,
}

/// A node's connection state.
#[derive(Clone, Copy, PartialEq, Eq, Structural, Debug)]
pub enum NodeStatus {
    Connected,
    Connecting,
    Error,
    Disabled,
}

/// Usage figures for one node.
#[derive(Clone, Debug)]
pub struct NodeUsageResponse {
    pub node_id: Option<u32>,
    pub node_name: String,
    pub uplink: u32,
    pub downlink: u32,
}

/// Usage figures for all nodes.
#[derive(Clone, Debug)]
pub struct NodesUsageResponse {
    pub usages: Vec<NodeUsageResponse>,
}

/// A proxy host entry.
#[derive(Clone, Debug)]
pub struct ProxyHost {
    pub remark: String,
    pub address: String,
    pub port: Option<u32>,
    pub sni: Option<String>,
    pub host: Option<String>,
    pub path: Option<String>,
    pub security: ProxyHostSecurity,
    pub alpn: Option<ProxyHostALPN>,
    pub fingerprint: Option<ProxyHostFingerprint>,
    pub allow_insecure: Option<bool>,
    pub is_disabled: Option<bool>,
}

/// ALPN choices for a proxy host.
#[derive(Clone, Copy, PartialEq, Eq, Structural, Debug)]
pub enum ProxyHostALPN {
    H3,
    H2,
    Http11,
    H2andHttp11,
    H3andH2andHttp11,
    H3andH2,
}

/// TLS fingerprint choices for a proxy host.
#[derive(Clone, Copy, PartialEq, Eq, Structural, Debug)]
pub enum ProxyHostFingerprint {
    Chrome,
    Firefox,
    Safari,
    Ios,
    Android,
    Edge,
    Fingerprint360,
    Qq,
    Random,
    Randomized,
}

/// Security choices for a proxy host.
#[derive(Clone, Copy, PartialEq, Eq, Structural, Debug)]
pub enum ProxyHostSecurity {
    InboundDefault,
    NoSecurity,
    Tls,
}

/// One inbound as the panel reports it.
#[derive(Clone, Debug)]
pub struct ProxyInbound {
    pub tag: String,
    pub protocol: ProxyTypes,
    pub network: String,
    pub tls: String,
    pub port: ProxyInboundPort,
}

/// An inbound port: text or a number.
#[derive(Clone, Debug)]
pub enum ProxyInboundPort {
    Text(String),
    Number(u32),
}

/// Per-protocol proxy settings; this schema set kept them opaque.
#[derive(Clone, Debug)]
pub struct ProxySettings {}

/// The proxy protocols the panel knows.
#[derive(Clone, Copy, PartialEq, Eq, Hash, Structural, Debug)]
pub enum ProxyTypes {
    Vmess,
    Vless,
    Trojan,
    ShadowSocks,
}

/// The issued bearer token.
#[derive(Clone, Debug)]
pub struct Token {
    pub access_token: String,
    pub token_type: Option<String>,
}

/// The body for creating a user.
#[derive(Debug)]
pub struct UserCreate {
    pub proxies: HashMap<String, ProxySettings>,
    pub expire: Option<u32>,
    pub data_limit: u32,
    pub data_limit_reset_strategy: UserDataLimitResetStrategy,
    pub inbounds: HashMap<String, Vec<String>>,
    pub note: Option<String>,
    pub sub_updated_at: Option<DateTimeUtc>,
    pub sub_last_user_agent: Option<String>,
    pub online_at: Option<DateTimeUtc>,
    pub on_hold_expire_duration: Option<u32>,
    pub on_hold_timeout: Option<DateTimeUtc>,
    pub username: String,
    pub status: UserStatusCreate,
}

/// How and whether a user's data limit resets.
#[derive(Clone, Copy, PartialEq, Eq, Structural, Debug)]
pub enum UserDataLimitResetStrategy {
    NoReset,
    Day,
    Week,
    Month,
    Year,
}

/// The body for modifying a user.
#[derive(Debug)]
pub struct UserModify {
    pub proxies: HashMap<String, ProxySettings>,
    pub expire: Option<u32>,
    pub data_limit: u32,
    pub data_limit_reset_strategy: UserDataLimitResetStrategy,
    pub inbounds: HashMap<String, Vec<String>>,
    pub note: Option<String>,
    pub sub_updated_at: Option<DateTimeUtc>,
    pub sub_last_user_agent: Option<String>,
    pub online_at: Option<DateTimeUtc>,
    pub on_hold_expire_duration: Option<u32>,
    pub on_hold_timeout: Option<DateTimeUtc>,
    pub status: UserStatusModify,
}

/// A user as the panel reports it.
#[derive(Debug)]
pub struct UserResponse {
    pub proxies: HashMap<String, ProxySettings>,
    pub expire: Option<u32>,
    pub data_limit: u32,
    pub data_limit_reset_strategy: UserDataLimitResetStrategy,
    pub inbounds: HashMap<String, Vec<String>>,
    pub note: Option<String>,
    pub sub_updated_at: Option<DateTimeUtc>,
    pub sub_last_user_agent: Option<String>,
    pub online_at: Option<DateTimeUtc>,
    pub on_hold_expire_duration: Option<u32>,
    pub on_hold_timeout: Option<DateTimeUtc>,
    pub username: String,
    pub status: UserStatus,
    pub used_traffic: u32,
    pub lifetime_used_traffic: u32,
    pub created_at: DateTimeUtc,
    pub links: Vec<String>,
    pub subscription_url: String,
    pub excluded_inbounds: HashMap<String, Vec<String>>,
}

/// A user's state.
#[derive(Clone, Copy, PartialEq, Eq, Structural, Debug)]
pub enum UserStatus {
    Active,
    Disabled,
    Limited,
    Expired,
    OnHold,
}

/// The states a new user may be created in.
#[derive(Clone, Copy, PartialEq, Eq, Structural, Debug)]
pub enum UserStatusCreate {
    Active,
    OnHold,
}

/// The states a user may be moved to.
#[derive(Clone, Copy, PartialEq, Eq, Structural, Debug)]
pub enum UserStatusModify {
    Active,
    Disabled,
    OnHold,
}

/// The body for creating a user template.
#[derive(Debug)]
pub struct UserTemplateCreate {
    pub name: Option<String>,
    pub data_limit: u32,
    pub expire_duration: u32,
    pub username_prefix: String,
    pub username_suffix: String,
    pub inbounds: HashMap<String, Vec<String>>,
}

/// The body for modifying a user template.
#[derive(Debug)]
pub struct UserTemplateModify {
    pub name: Option<String>,
    pub data_limit: u32,
    pub expire_duration: u32,
    pub username_prefix: String,
    pub username_suffix: String,
    pub inbounds: HashMap<String, Vec<String>>,
}

/// A user template as the panel reports it.
#[derive(Debug)]
pub struct UserTemplateResponse {
    pub name: Option<String>,
    pub data_limit: u32,
    pub expire_duration: u32,
    pub username_prefix: String,
    pub username_suffix: String,
    pub inbounds: HashMap<String, Vec<String>>,
    pub id: u32,
}

/// Usage of one user on one node.
#[derive(Clone, Debug)]
pub struct UserUsageResponse {
    pub node_id: Option<u32>,
    pub node_name: String,
    pub used_traffic: u32,
}

/// Usage of one user across nodes.
#[derive(Clone, Debug)]
pub struct UserUsagesResponse {
    pub username: String,
    pub usages: Vec<UserUsageResponse>,
}

/// A page of users and the total count.
#[derive(Debug)]
pub struct UsersResponse {
    pub users: Vec<UserResponse>,
    pub total: u32,
}

/// One validation error of this schema set.
#[derive(Clone, Debug)]
pub struct ValidationError {
    pub loc: ValidationErrorLocation,
    pub msg: String,
    pub error_type: String,
}

/// An error location: text or a number.
#[derive(Clone, Debug)]
pub enum ValidationErrorLocation {
    Text(String),
    Number(u32),
}

} // verus!
