//! The proxy's configuration, read from its environment.

use vstd::prelude::*;

use crate::env::{secs_or, take_or, text_or, ConfigError, EnvVar};
use crate::text::{nat_decimal, parse_u16, parse_u64, push_u64, u16_literal};

verus! {

/// The environment variables the proxy reads, as found (`None` when unset or
/// not valid Unicode).
pub struct ProxyEnv {
    pub network: Option<String>,
    pub proxy_addr: Option<String>,
    pub proxy_namespace: Option<String>,
    pub proxy_tiers_path: Option<String>,
    pub proxy_tiers_poll_interval: Option<String>,
    pub prometheus_addr: Option<String>,
    pub ssl_crt_path: Option<String>,
    pub ssl_key_path: Option<String>,
    pub ogmios_port: Option<String>,
    pub ogmios_dns: Option<String>,
    pub health_poll_interval: Option<String>,
    pub cors_allow_origin: Option<String>,
    pub cors_allow_methods: Option<String>,
    pub cors_allow_headers: Option<String>,
    pub cors_max_age: Option<String>,
}

/// The proxy's configuration. Durations are whole seconds.
#[derive(Debug, Clone)]
pub struct Config {
    pub proxy_addr: String,
    pub proxy_namespace: String,
    pub proxy_tiers_path: String,
    pub proxy_tiers_poll_interval_secs: u64,
    pub prometheus_addr: String,
    pub ogmios_port: u16,
    pub ogmios_dns: String,
    pub ssl_crt_path: String,
    pub ssl_key_path: String,
    pub network: String,
    pub health_poll_interval_secs: u64,
    pub cors_allow_origin: String,
    pub cors_allow_methods: String,
    pub cors_allow_headers: String,
    pub cors_max_age: String,
}

/// The first problem met reading the proxy's configuration from `env`, in
/// the order the variables are read; `None` when there is none.
pub open spec fn proxy_env_error(env: ProxyEnv) -> Option<ConfigError> {
    if env.network is None {
        Some(ConfigError::Unset(EnvVar::Network))
    } else if env.proxy_addr is None {
        Some(ConfigError::Unset(EnvVar::ProxyAddr))
    } else if env.proxy_tiers_path is None {
        Some(ConfigError::Unset(EnvVar::ProxyTiersPath))
    } else if secs_or(env.proxy_tiers_poll_interval, 2) is None {
        Some(ConfigError::NotANumber(EnvVar::ProxyTiersPollInterval))
    } else if env.prometheus_addr is None {
        Some(ConfigError::Unset(EnvVar::PrometheusAddr))
    } else if env.ssl_crt_path is None {
        Some(ConfigError::Unset(EnvVar::SslCrtPath))
    } else if env.ssl_key_path is None {
        Some(ConfigError::Unset(EnvVar::SslKeyPath))
    } else if env.ogmios_port is None {
        Some(ConfigError::Unset(EnvVar::OgmiosPort))
    } else if u16_literal(env.ogmios_port->0@) is None {
        Some(ConfigError::NotANumber(EnvVar::OgmiosPort))
    } else if env.ogmios_dns is None {
        Some(ConfigError::Unset(EnvVar::OgmiosDns))
    } else if secs_or(env.health_poll_interval, 10) is None {
        Some(ConfigError::NotANumber(EnvVar::HealthPollInterval))
    } else {
        None
    }
}

/// Whether `c` is the configuration that a problem-free `env` describes.
pub open spec fn proxy_config_of(env: ProxyEnv, c: Config) -> bool {
    &&& c.network@ == env.network->0@
    &&& c.proxy_addr@ == env.proxy_addr->0@
    &&& c.proxy_namespace@ == text_or(env.proxy_namespace, "ftr-ogmios-v1"@)
    &&& c.proxy_tiers_path@ == env.proxy_tiers_path->0@
    &&& c.proxy_tiers_poll_interval_secs == secs_or(env.proxy_tiers_poll_interval, 2)->0
    &&& c.prometheus_addr@ == env.prometheus_addr->0@
    &&& c.ssl_crt_path@ == env.ssl_crt_path->0@
    &&& c.ssl_key_path@ == env.ssl_key_path->0@
    &&& c.ogmios_port == u16_literal(env.ogmios_port->0@)->0
    &&& c.ogmios_dns@ == env.ogmios_dns->0@
    &&& c.health_poll_interval_secs == secs_or(env.health_poll_interval, 10)->0
    &&& c.cors_allow_origin@ == text_or(env.cors_allow_origin, "*"@)
    &&& c.cors_allow_methods@ == text_or(
        env.cors_allow_methods,
        "GET, POST, PUT, DELETE, OPTIONS"@,
    )
    &&& c.cors_allow_headers@ == text_or(
        env.cors_allow_headers,
        "Content-Type, Authorization, X-Requested-With, dmtr-api-key"@,
    )
    &&& c.cors_max_age@ == text_or(env.cors_max_age, "86400"@)
}

/// Reads a number of seconds, `default` when unset.
fn secs_from(value: Option<String>, default: u64) -> (r: Option<u64>)
    ensures
        r == secs_or(value, default),
{
    match value {
        Some(s) => parse_u64(s.as_str()),
        None => Some(default),
    }
}

/// The address of the upstream Ogmios instance of `version`:
/// `ogmios-{network}-{version}.{ogmios_dns}:{ogmios_port}`.
pub open spec fn instance_spec(c: Config, version: Seq<char>) -> Seq<char> {
    "ogmios-"@ + c.network@ + "-"@ + version + "."@ + c.ogmios_dns@ + ":"@ + nat_decimal(
        c.ogmios_port as nat,
    )
}

impl Config {
    /// Reads the configuration from the proxy's environment. Variables with
    /// defaults: `PROXY_NAMESPACE`, `PROXY_TIERS_POLL_INTERVAL` (2 s),
    /// `HEALTH_POLL_INTERVAL` (10 s) and the `CORS_*` ones; every other one
    /// must be set.
    pub fn new(env: ProxyEnv) -> (r: Result<Config, ConfigError>)
        ensures
            match r {
                Ok(c) => proxy_env_error(env) is None && proxy_config_of(env, c),
                Err(e) => proxy_env_error(env) == Some(e),
            },
    {
        let ghost e0 = env;
        let ProxyEnv {
            network,
            proxy_addr,
            proxy_namespace,
            proxy_tiers_path,
            proxy_tiers_poll_interval,
            prometheus_addr,
            ssl_crt_path,
            ssl_key_path,
            ogmios_port,
            ogmios_dns,
            health_poll_interval,
            cors_allow_origin,
            cors_allow_methods,
            cors_allow_headers,
            cors_max_age,
        } = env;
        let network = match network {
            Some(v) => v,
            None => return Err(ConfigError::Unset(EnvVar::Network)),
        };
        let proxy_addr = match proxy_addr {
            Some(v) => v,
            None => return Err(ConfigError::Unset(EnvVar::ProxyAddr)),
        };
        let proxy_namespace = take_or(proxy_namespace, "ftr-ogmios-v1");
        let proxy_tiers_path = match proxy_tiers_path {
            Some(v) => v,
            None => return Err(ConfigError::Unset(EnvVar::ProxyTiersPath)),
        };
        let proxy_tiers_poll_interval_secs = match secs_from(proxy_tiers_poll_interval, 2) {
            Some(v) => v,
            None => return Err(ConfigError::NotANumber(EnvVar::ProxyTiersPollInterval)),
        };
        let prometheus_addr = match prometheus_addr {
            Some(v) => v,
            None => return Err(ConfigError::Unset(EnvVar::PrometheusAddr)),
        };
        let ssl_crt_path = match ssl_crt_path {
            Some(v) => v,
            None => return Err(ConfigError::Unset(EnvVar::SslCrtPath)),
        };
        let ssl_key_path = match ssl_key_path {
            Some(v) => v,
            None => return Err(ConfigError::Unset(EnvVar::SslKeyPath)),
        };
        let ogmios_port = match ogmios_port {
            Some(v) => match parse_u16(v.as_str()) {
                Some(p) => p,
                None => return Err(ConfigError::NotANumber(EnvVar::OgmiosPort)),
            },
            None => return Err(ConfigError::Unset(EnvVar::OgmiosPort)),
        };
        let ogmios_dns = match ogmios_dns {
            Some(v) => v,
            None => return Err(ConfigError::Unset(EnvVar::OgmiosDns)),
        };
        let health_poll_interval_secs = match secs_from(health_poll_interval, 10) {
            Some(v) => v,
            None => return Err(ConfigError::NotANumber(EnvVar::HealthPollInterval)),
        };
        Ok(Config {
            proxy_addr,
            proxy_namespace,
            proxy_tiers_path,
            proxy_tiers_poll_interval_secs,
            prometheus_addr,
            ogmios_port,
            ogmios_dns,
            ssl_crt_path,
            ssl_key_path,
            network,
            health_poll_interval_secs,
            cors_allow_origin: take_or(cors_allow_origin, "*"),
            cors_allow_methods: take_or(cors_allow_methods, "GET, POST, PUT, DELETE, OPTIONS"),
            cors_allow_headers: take_or(
                cors_allow_headers,
                "Content-Type, Authorization, X-Requested-With, dmtr-api-key",
            ),
            cors_max_age: take_or(cors_max_age, "86400"),
        })
    }

    /// The address of the upstream Ogmios instance of `version`.
    pub fn instance(&self, version: &str) -> (r: String)
        ensures
            r@ == instance_spec(*self, version@),
    {
        let mut s = "ogmios-".to_owned();
        s.append(self.network.as_str());
        s.append("-");
        s.append(version);
        s.append(".");
        s.append(self.ogmios_dns.as_str());
        s.append(":");
        push_u64(&mut s, self.ogmios_port as u64);
        s
    }
}

/// Each field of the proxy's configuration comes from the variable of the
/// same name: the listening addresses, paths, network and Ogmios DNS as
/// set, the port as the number it spells, and the defaults where a
/// variable with one is unset.
pub proof fn proxy_config_fields_follow_their_variables(env: ProxyEnv, c: Config)
    requires
        proxy_env_error(env) is None,
        proxy_config_of(env, c),
    ensures
        c.network@ == env.network->0@,
        c.proxy_addr@ == env.proxy_addr->0@,
        c.prometheus_addr@ == env.prometheus_addr->0@,
        c.proxy_tiers_path@ == env.proxy_tiers_path->0@,
        c.ssl_crt_path@ == env.ssl_crt_path->0@,
        c.ssl_key_path@ == env.ssl_key_path->0@,
        c.ogmios_dns@ == env.ogmios_dns->0@,
        u16_literal(env.ogmios_port->0@) == Some(c.ogmios_port),
        env.proxy_namespace matches Some(v) ==> c.proxy_namespace@ == v@,
        env.proxy_namespace is None ==> c.proxy_namespace@ == "ftr-ogmios-v1"@,
        env.proxy_tiers_poll_interval is None ==> c.proxy_tiers_poll_interval_secs == 2,
        env.proxy_tiers_poll_interval matches Some(v) ==> crate::text::u64_literal(v@) == Some(
            c.proxy_tiers_poll_interval_secs,
        ),
        env.health_poll_interval is None ==> c.health_poll_interval_secs == 10,
        env.health_poll_interval matches Some(v) ==> crate::text::u64_literal(v@) == Some(
            c.health_poll_interval_secs,
        ),
        env.cors_allow_origin matches Some(v) ==> c.cors_allow_origin@ == v@,
        env.cors_allow_origin is None ==> c.cors_allow_origin@ == "*"@,
        env.cors_allow_methods matches Some(v) ==> c.cors_allow_methods@ == v@,
        env.cors_allow_headers matches Some(v) ==> c.cors_allow_headers@ == v@,
        env.cors_max_age matches Some(v) ==> c.cors_max_age@ == v@,
        env.cors_max_age is None ==> c.cors_max_age@ == "86400"@,
{
}

} // verus!
