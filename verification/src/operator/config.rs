//! The operator's configuration, read from its environment.

use vstd::prelude::*;

use crate::env::{take_or, text_or, ConfigError, EnvVar};
use crate::text::{parse_u64, u64_literal};

verus! {

/// The environment variables the operator reads, as found (`None` when
/// unset or not valid Unicode).
pub struct OperatorEnv {
    pub dns_zone: Option<String>,
    pub extension_name: Option<String>,
    pub api_key_salt: Option<String>,
    pub metrics_delay: Option<String>,
    pub prometheus_url: Option<String>,
}

/// The operator's configuration. The metrics delay is in whole seconds.
#[derive(Debug, Clone)]
pub struct Config {
    pub dns_zone: String,
    pub extension_name: String,
    pub api_key_salt: String,
    pub metrics_delay_secs: u64,
    pub prometheus_url: String,
}

/// The first problem met reading the operator's configuration from `env`.
pub open spec fn operator_env_error(env: OperatorEnv) -> Option<ConfigError> {
    if env.metrics_delay is None {
        Some(ConfigError::Unset(EnvVar::MetricsDelay))
    } else if u64_literal(env.metrics_delay->0@) is None {
        Some(ConfigError::NotANumber(EnvVar::MetricsDelay))
    } else if env.prometheus_url is None {
        Some(ConfigError::Unset(EnvVar::PrometheusUrl))
    } else {
        None
    }
}

/// Whether `c` is the configuration that a problem-free `env` describes.
pub open spec fn operator_config_of(env: OperatorEnv, c: Config) -> bool {
    &&& c.dns_zone@ == text_or(env.dns_zone, "demeter.run"@)
    &&& c.extension_name@ == text_or(env.extension_name, "ogmios-m1"@)
    &&& c.api_key_salt@ == text_or(env.api_key_salt, "ogmios-salt"@)
    &&& c.metrics_delay_secs == u64_literal(env.metrics_delay->0@)->0
    &&& c.prometheus_url@ == env.prometheus_url->0@
}

impl Config {
    /// Reads the configuration from the operator's environment.
    /// `DNS_ZONE`, `EXTENSION_NAME` and `API_KEY_SALT` have defaults;
    /// `METRICS_DELAY` (seconds) and `PROMETHEUS_URL` must be set.
    pub fn from_env(env: OperatorEnv) -> (r: Result<Config, ConfigError>)
        ensures
            match r {
                Ok(c) => operator_env_error(env) is None && operator_config_of(env, c),
                Err(e) => operator_env_error(env) == Some(e),
            },
    {
        let OperatorEnv { dns_zone, extension_name, api_key_salt, metrics_delay, prometheus_url } =
            env;
        let dns_zone = take_or(dns_zone, "demeter.run");
        let extension_name = take_or(extension_name, "ogmios-m1");
        let api_key_salt = take_or(api_key_salt, "ogmios-salt");
        let metrics_delay_secs = match metrics_delay {
            Some(v) => match parse_u64(v.as_str()) {
                Some(secs) => secs,
                None => return Err(ConfigError::NotANumber(EnvVar::MetricsDelay)),
            },
            None => return Err(ConfigError::Unset(EnvVar::MetricsDelay)),
        };
        let prometheus_url = match prometheus_url {
            Some(v) => v,
            None => return Err(ConfigError::Unset(EnvVar::PrometheusUrl)),
        };
        Ok(Config { dns_zone, extension_name, api_key_salt, metrics_delay_secs, prometheus_url })
    }
}

/// Each field of the operator's configuration comes from the variable of
/// the same name, or from its default when a variable with one is unset.
pub proof fn operator_config_fields_follow_their_variables(env: OperatorEnv, c: Config)
    requires
        operator_env_error(env) is None,
        operator_config_of(env, c),
    ensures
        env.dns_zone matches Some(v) ==> c.dns_zone@ == v@,
        env.dns_zone is None ==> c.dns_zone@ == "demeter.run"@,
        env.extension_name matches Some(v) ==> c.extension_name@ == v@,
        env.extension_name is None ==> c.extension_name@ == "ogmios-m1"@,
        env.api_key_salt matches Some(v) ==> c.api_key_salt@ == v@,
        env.api_key_salt is None ==> c.api_key_salt@ == "ogmios-salt"@,
        u64_literal(env.metrics_delay->0@) == Some(c.metrics_delay_secs),
        c.prometheus_url@ == env.prometheus_url->0@,
{
}

} // verus!
