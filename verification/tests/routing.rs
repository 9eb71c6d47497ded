use ogmios_proxy::proxy::health::{health_change, healthy_status, is_error_status, HealthChange};
use ogmios_proxy::proxy::metrics::serves_metrics;
use ogmios_proxy::proxy::plugins::{AuthDmtrPlugin, HostKeyHeaderPlugin};
use ogmios_proxy::proxy::routing::{protocol_from_upgrade, route_request, upgrade_answer, Protocol, Tools};
use ogmios_proxy::proxy::utils::handle_legacy_networks;

#[test]
fn a_keyed_host_routes_to_its_network_and_version() {
    let tools = Tools::try_new().unwrap();
    let route = route_request(
        &tools,
        1337,
        "dmtr_ogmios1abc.mainnet.ogmios-v6.demeter.run",
        Some("WebSocket"),
        Some("other-key"),
    )
    .unwrap();
    assert_eq!(route.host_key.as_deref(), Some("dmtr_ogmios1abc"));
    assert_eq!(route.token, "dmtr_ogmios1abc");
    assert_eq!(route.network, "mainnet");
    assert_eq!(route.version, "v6");
    assert_eq!(route.instance_host, "ogmios-mainnet-v6:1337");
    assert_eq!(route.protocol, Protocol::Websocket);
}

#[test]
fn a_host_without_key_uses_the_header_key() {
    let tools = Tools::try_new().unwrap();
    let route = route_request(&tools, 80, "preprod.ogmios-v6.demeter.run", None, Some("k1")).unwrap();
    assert_eq!(route.host_key, None);
    assert_eq!(route.token, "k1");
    assert_eq!(route.protocol, Protocol::Http);
    let route = route_request(&tools, 80, "preprod.ogmios-v6.demeter.run", Some("h2c"), None).unwrap();
    assert_eq!(route.token, "");
    assert_eq!(route.protocol, Protocol::Http);
}

#[test]
fn a_host_without_network_and_version_is_not_routed() {
    let tools = Tools::try_new().unwrap();
    assert!(route_request(&tools, 80, "localhost", None, None).is_none());
}

#[test]
fn protocol_detection_ignores_ascii_case() {
    assert_eq!(protocol_from_upgrade(Some("WEBSOCKET")), Protocol::Websocket);
    assert_eq!(protocol_from_upgrade(Some("websocket ")), Protocol::Http);
    assert_eq!(protocol_from_upgrade(None), Protocol::Http);
}

#[test]
fn only_the_known_api_key_is_authorized() {
    let auth = AuthDmtrPlugin::new();
    assert_eq!(
        auth.authorize("dmtr_kupo1d988zmt0g4skjdt6xdxkg5zp23f55ttpxfmsemy6fa").map(|s| s.as_str()),
        Some("prj-xxxxx-xxxxx")
    );
    assert!(auth.authorize("dmtr_kupo1d988zmt0g4skjdt6xdxkg5zp23f55ttpxfmsemy6f").is_none());
    assert!(auth.authorize("").is_none());
}

#[test]
fn the_host_key_plugin_finds_the_key_in_the_host() {
    let plugin = HostKeyHeaderPlugin::new().unwrap();
    assert_eq!(
        plugin
            .key_from_host("dmtr_kupo1d988zmt0g4skjdt6xdxkg5zp23f55ttpxfmsemy6fa.0.0.0.0.nip.io")
            .as_deref(),
        Some("dmtr_kupo1d988zmt0g4skjdt6xdxkg5zp23f55ttpxfmsemy6fa")
    );
    assert_eq!(plugin.key_from_host("0.0.0.0.nip.io"), None);
}

#[test]
fn legacy_network_names_gain_the_cardano_prefix() {
    assert_eq!(handle_legacy_networks("mainnet"), "cardano-mainnet");
    assert_eq!(handle_legacy_networks("preprod"), "cardano-preprod");
    assert_eq!(handle_legacy_networks("preview"), "cardano-preview");
    assert_eq!(handle_legacy_networks("cardano-mainnet"), "cardano-mainnet");
    assert_eq!(handle_legacy_networks("vector-testnet"), "vector-testnet");
}

#[test]
fn health_follows_the_status_code() {
    assert!(healthy_status(200));
    assert!(!healthy_status(204));
    assert!(!healthy_status(404));
    assert!(!healthy_status(503));
    assert!(is_error_status(400) && is_error_status(599) && !is_error_status(399));
    assert_eq!(health_change(false, true), HealthChange::Recovered);
    assert_eq!(health_change(true, false), HealthChange::Lost);
    assert_eq!(health_change(true, true), HealthChange::Unchanged);
}

#[test]
fn only_get_metrics_is_served() {
    assert!(serves_metrics("GET", "/metrics"));
    assert!(!serves_metrics("POST", "/metrics"));
    assert!(!serves_metrics("GET", "/"));
}

#[test]
fn the_upgrade_answer_carries_the_derived_accept_key() {
    // The example handshake of RFC 6455, section 1.3.
    let answer = upgrade_answer(Some(b"dGhlIHNhbXBsZSBub25jZQ==".as_slice())).unwrap();
    assert_eq!(answer.connection, "Upgrade");
    assert_eq!(answer.upgrade, "websocket");
    assert_eq!(answer.accept, "s3pPLMBiTxaQ9kYGzzhZRbK+xOo=");
    assert!(upgrade_answer(None).is_none());
}
