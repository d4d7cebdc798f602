//! Schema default values.
//!
//! The panel's schemas give several fields a default; the decoding shell
//! fills absent fields with exactly these values.

use vstd::prelude::*;

use crate::models::proxy::ProxyHostSecurity;
use crate::models::user::UserDataLimitResetStrategy;

verus! {

/// Default node port.
pub fn default_port() -> (p: u16)
    ensures
        p == 62050u16,
{
    62050
}

/// Default node API port.
pub fn default_api_port() -> (p: u16)
    ensures
        p == 62051u16,
{
    62051
}

/// Default for boolean fields that the schema turns on.
pub fn default_true() -> (b: bool)
    ensures
        b,
{
    true
}

/// Default minimum node version.
pub fn default_min_node_version() -> (v: String)
    ensures
        v@ == "v0.2.0"@,
{
    String::from_str("v0.2.0")
}

/// Default proxy-host security.
pub fn default_proxy_host_security() -> (s: ProxyHostSecurity)
    ensures
        s == ProxyHostSecurity::InboundDefault,
{
    ProxyHostSecurity::InboundDefault
}

/// Default for numeric fields that start at zero.
pub fn default_with_0() -> (n: u64)
    ensures
        n == 0u64,
{
    0
}

/// Default data-limit reset strategy.
pub fn default_data_limit_reset_strategy() -> (s: UserDataLimitResetStrategy)
    ensures
        s == UserDataLimitResetStrategy::NoReset,
{
    UserDataLimitResetStrategy::NoReset
}

/// Default for string fields that start empty.
pub fn default_empty_string() -> (s: String)
    ensures
        s@ == Seq::<char>::empty(),
{
    String::new()
}

} // verus!
