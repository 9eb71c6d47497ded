use ogmios_proxy::env::{ConfigError, EnvVar};
use ogmios_proxy::operator::config::{Config as OperatorConfig, OperatorEnv};
use ogmios_proxy::proxy::config::{Config, ProxyEnv};

fn s(v: &str) -> Option<String> {
    Some(v.to_string())
}

fn minimal_proxy_env() -> ProxyEnv {
    ProxyEnv {
        network: s("mainnet"),
        proxy_addr: s("0.0.0.0:80"),
        proxy_namespace: None,
        proxy_tiers_path: s("/etc/tiers.toml"),
        proxy_tiers_poll_interval: None,
        prometheus_addr: s("0.0.0.0:9187"),
        ssl_crt_path: s("/ssl/crt"),
        ssl_key_path: s("/ssl/key"),
        ogmios_port: s("1337"),
        ogmios_dns: s("ogmios.svc.cluster.local"),
        health_poll_interval: None,
        cors_allow_origin: None,
        cors_allow_methods: None,
        cors_allow_headers: None,
        cors_max_age: None,
    }
}

#[test]
fn proxy_config_fills_in_its_defaults() {
    let c = Config::new(minimal_proxy_env()).unwrap();
    assert_eq!(c.network, "mainnet");
    assert_eq!(c.proxy_namespace, "ftr-ogmios-v1");
    assert_eq!(c.proxy_tiers_poll_interval_secs, 2);
    assert_eq!(c.health_poll_interval_secs, 10);
    assert_eq!(c.ogmios_port, 1337);
    assert_eq!(c.cors_allow_origin, "*");
    assert_eq!(c.cors_allow_methods, "GET, POST, PUT, DELETE, OPTIONS");
    assert_eq!(
        c.cors_allow_headers,
        "Content-Type, Authorization, X-Requested-With, dmtr-api-key"
    );
    assert_eq!(c.cors_max_age, "86400");
}

#[test]
fn proxy_config_reads_what_is_set() {
    let mut env = minimal_proxy_env();
    env.proxy_namespace = s("prj");
    env.proxy_tiers_poll_interval = s("7");
    env.health_poll_interval = s("+30");
    env.cors_max_age = s("5");
    let c = Config::new(env).unwrap();
    assert_eq!(c.proxy_namespace, "prj");
    assert_eq!(c.proxy_tiers_poll_interval_secs, 7);
    assert_eq!(c.health_poll_interval_secs, 30);
    assert_eq!(c.cors_max_age, "5");
}

#[test]
fn proxy_config_reports_the_first_problem() {
    let mut env = minimal_proxy_env();
    env.proxy_addr = None;
    env.ogmios_dns = None;
    assert_eq!(
        Config::new(env).err(),
        Some(ConfigError::Unset(EnvVar::ProxyAddr))
    );

    let mut env = minimal_proxy_env();
    env.ogmios_port = s("70000");
    assert_eq!(
        Config::new(env).err(),
        Some(ConfigError::NotANumber(EnvVar::OgmiosPort))
    );

    let mut env = minimal_proxy_env();
    env.proxy_tiers_poll_interval = s("2s");
    assert_eq!(
        Config::new(env).err(),
        Some(ConfigError::NotANumber(EnvVar::ProxyTiersPollInterval))
    );

    let mut env = minimal_proxy_env();
    env.health_poll_interval = s("");
    assert_eq!(
        Config::new(env).err(),
        Some(ConfigError::NotANumber(EnvVar::HealthPollInterval))
    );
    assert_eq!(EnvVar::HealthPollInterval.name(), "HEALTH_POLL_INTERVAL");
}

#[test]
fn instance_names_the_versioned_upstream() {
    let c = Config::new(minimal_proxy_env()).unwrap();
    assert_eq!(
        c.instance("6"),
        "ogmios-mainnet-6.ogmios.svc.cluster.local:1337"
    );
}

#[test]
fn operator_config_defaults_and_requirements() {
    let c = OperatorConfig::from_env(OperatorEnv {
        dns_zone: None,
        extension_name: None,
        api_key_salt: None,
        metrics_delay: s("60"),
        prometheus_url: s("http://prometheus:9090/api/v1"),
    })
    .unwrap();
    assert_eq!(c.dns_zone, "demeter.run");
    assert_eq!(c.extension_name, "ogmios-m1");
    assert_eq!(c.api_key_salt, "ogmios-salt");
    assert_eq!(c.metrics_delay_secs, 60);
    assert_eq!(c.prometheus_url, "http://prometheus:9090/api/v1");

    let missing = OperatorConfig::from_env(OperatorEnv {
        dns_zone: s("x"),
        extension_name: None,
        api_key_salt: None,
        metrics_delay: None,
        prometheus_url: None,
    });
    assert_eq!(missing.err(), Some(ConfigError::Unset(EnvVar::MetricsDelay)));

    let bad = OperatorConfig::from_env(OperatorEnv {
        dns_zone: None,
        extension_name: None,
        api_key_salt: None,
        metrics_delay: s("-1"),
        prometheus_url: s("u"),
    });
    assert_eq!(bad.err(), Some(ConfigError::NotANumber(EnvVar::MetricsDelay)));

    let no_url = OperatorConfig::from_env(OperatorEnv {
        dns_zone: None,
        extension_name: None,
        api_key_salt: None,
        metrics_delay: s("18446744073709551615"),
        prometheus_url: None,
    });
    assert_eq!(no_url.err(), Some(ConfigError::Unset(EnvVar::PrometheusUrl)));
}
