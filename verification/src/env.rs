//! The environment variables both programs are configured by, and the ways
//! a configuration read from them can be refused.

use vstd::prelude::*;

use crate::text::u64_literal;

verus! {

/// An environment variable that configures the proxy or the operator.
#[derive(Debug, Clone, Copy, PartialEq, Eq, Structural)]
pub enum EnvVar {
    Network,
    ProxyAddr,
    ProxyNamespace,
    ProxyTiersPath,
    ProxyTiersPollInterval,
    PrometheusAddr,
    SslCrtPath,
    SslKeyPath,
    OgmiosPort,
    OgmiosDns,
    HealthPollInterval,
    CorsAllowOrigin,
    CorsAllowMethods,
    CorsAllowHeaders,
    CorsMaxAge,
    DnsZone,
    ExtensionName,
    ApiKeySalt,
    MetricsDelay,
    PrometheusUrl,
}

impl EnvVar {
    /// The variable's name in the environment.
    pub fn name(&self) -> (s: &'static str)
        ensures
            s@ == env_var_name(*self),
    {
        match self {
            EnvVar::Network => "NETWORK",
            EnvVar::ProxyAddr => "PROXY_ADDR",
            EnvVar::ProxyNamespace => "PROXY_NAMESPACE",
            EnvVar::ProxyTiersPath => "PROXY_TIERS_PATH",
            EnvVar::ProxyTiersPollInterval => "PROXY_TIERS_POLL_INTERVAL",
            EnvVar::PrometheusAddr => "PROMETHEUS_ADDR",
            EnvVar::SslCrtPath => "SSL_CRT_PATH",
            EnvVar::SslKeyPath => "SSL_KEY_PATH",
            EnvVar::OgmiosPort => "OGMIOS_PORT",
            EnvVar::OgmiosDns => "OGMIOS_DNS",
            EnvVar::HealthPollInterval => "HEALTH_POLL_INTERVAL",
            EnvVar::CorsAllowOrigin => "CORS_ALLOW_ORIGIN",
            EnvVar::CorsAllowMethods => "CORS_ALLOW_METHODS",
            EnvVar::CorsAllowHeaders => "CORS_ALLOW_HEADERS",
            EnvVar::CorsMaxAge => "CORS_MAX_AGE",
            EnvVar::DnsZone => "DNS_ZONE",
            EnvVar::ExtensionName => "EXTENSION_NAME",
            EnvVar::ApiKeySalt => "API_KEY_SALT",
            EnvVar::MetricsDelay => "METRICS_DELAY",
            EnvVar::PrometheusUrl => "PROMETHEUS_URL",
        }
    }
}

/// The name under which `v` is read from the environment.
pub open spec fn env_var_name(v: EnvVar) -> Seq<char> {
    match v {
        EnvVar::Network => "NETWORK"@,
        EnvVar::ProxyAddr => "PROXY_ADDR"@,
        EnvVar::ProxyNamespace => "PROXY_NAMESPACE"@,
        EnvVar::ProxyTiersPath => "PROXY_TIERS_PATH"@,
        EnvVar::ProxyTiersPollInterval => "PROXY_TIERS_POLL_INTERVAL"@,
        EnvVar::PrometheusAddr => "PROMETHEUS_ADDR"@,
        EnvVar::SslCrtPath => "SSL_CRT_PATH"@,
        EnvVar::SslKeyPath => "SSL_KEY_PATH"@,
        EnvVar::OgmiosPort => "OGMIOS_PORT"@,
        EnvVar::OgmiosDns => "OGMIOS_DNS"@,
        EnvVar::HealthPollInterval => "HEALTH_POLL_INTERVAL"@,
        EnvVar::CorsAllowOrigin => "CORS_ALLOW_ORIGIN"@,
        EnvVar::CorsAllowMethods => "CORS_ALLOW_METHODS"@,
        EnvVar::CorsAllowHeaders => "CORS_ALLOW_HEADERS"@,
        EnvVar::CorsMaxAge => "CORS_MAX_AGE"@,
        EnvVar::DnsZone => "DNS_ZONE"@,
        EnvVar::ExtensionName => "EXTENSION_NAME"@,
        EnvVar::ApiKeySalt => "API_KEY_SALT"@,
        EnvVar::MetricsDelay => "METRICS_DELAY"@,
        EnvVar::PrometheusUrl => "PROMETHEUS_URL"@,
    }
}

/// Why a configuration could not be read from the environment.
#[derive(Debug, Clone, Copy, PartialEq, Eq, Structural)]
pub enum ConfigError {
    /// A variable with no default is not set.
    Unset(EnvVar),
    /// A variable that must hold a number does not.
    NotANumber(EnvVar),
}

/// The text of a variable: its value when set, else `default`.
pub open spec fn text_or(value: Option<String>, default: Seq<char>) -> Seq<char> {
    match value {
        Some(s) => s@,
        None => default,
    }
}

/// A number of seconds read from a variable: `default` when unset, `None`
/// when set to something that is not a `u64`.
pub open spec fn secs_or(value: Option<String>, default: u64) -> Option<u64> {
    match value {
        Some(s) => u64_literal(s@),
        None => Some(default),
    }
}

/// Takes the text of a variable, or `default` when it is unset.
pub fn take_or(value: Option<String>, default: &str) -> (r: String)
    ensures
        r@ == text_or(value, default@),
{
    match value {
        Some(s) => s,
        None => default.to_owned(),
    }
}

} // verus!
