//! Proxy host and inbound models.

use vstd::prelude::*;

verus! {

/// A proxy host entry.
#[derive(Clone, Debug)]
pub struct ProxyHost {
    pub remark: String,
    pub address: String,
    pub port: Option<u16>,
    pub sni: Option<String>,
    pub host: Option<String>,
    pub path: Option<String>,
    pub security: ProxyHostSecurity,
    pub alpn: Option<ProxyHostALPN>,
    pub fingerprint: Option<ProxyHostFingerprint>,
    pub allow_insecure: Option<bool>,
    pub is_disabled: Option<bool>,
    pub mux_enable: Option<bool>,
    pub fragment_settings: Option<String>,
    pub noise_setting: Option<String>,
    pub random_user_agent: Option<bool>,
}

/// ALPN choices for a proxy host.
#[derive(Clone, Copy, PartialEq, Eq, Structural, Debug)]
pub enum ProxyHostALPN {
    H3,
    H2,
    Http11,
    H2andHttp11,
    H3andH2andHttp11,
    H3andH2,
}

/// TLS fingerprint choices for a proxy host.
#[derive(Clone, Copy, PartialEq, Eq, Structural, Debug)]
pub enum ProxyHostFingerprint {
    Chrome,
    Firefox,
    Safari,
    Ios,
    Android,
    Edge,
    Fingerprint360,
    Qq,
    Random,
    Randomized,
}

/// Security choices for a proxy host.
#[derive(Clone, Copy, PartialEq, Eq, Structural, Debug)]
pub enum ProxyHostSecurity {
    InboundDefault,
    NoSecurity,
    Tls,
}

/// One inbound as the panel reports it.
#[derive(Clone, Debug)]
pub struct ProxyInbound {
    pub tag: String,
    pub protocol: ProxyTypes,
    pub network: String,
    pub tls: String,
    pub port: ProxyInboundPort,
}

/// An inbound port: the panel sends either text or a number.
#[derive(Clone, Debug)]
pub enum ProxyInboundPort {
    Text(String),
    Number(u16),
}

/// Per-protocol proxy settings.
#[derive(Clone, Debug)]
pub struct ProxySettings {
    pub id: Option<String>,
    pub flow: Option<String>,
    pub password: Option<String>,
    pub method: Option<String>,
}

/// The proxy protocols the panel knows.
#[derive(Clone, Copy, PartialEq, Eq, Hash, Structural, Debug)]
pub enum ProxyTypes {
    Vmess,
    Vless,
    Trojan,
    ShadowSocks,
}

} // verus!
