use ogmios_proxy::operator::metrics::{build_usage_query, query_failed, UsageClock, UtcTime};

#[test]
fn usage_query_is_the_counter_union() {
    assert_eq!(
        build_usage_query(60, 1721000000),
        "sum by (consumer, route, tier) (increase(ogmios_proxy_ws_total_frame[60s] @ 1721000000) or increase(ogmios_proxy_http_total_request{protocol=\"http\", status_code!~\"401|429|503\"}[60s] @ 1721000000))"
    );
}

/// A `+` between the two aggregated vectors would drop any series missing
/// on either side, billing a WebSocket-only consumer zero. The union must
/// be `or`, and it must sit inside the `sum`.
#[test]
fn usage_query_unions_with_or_never_plus() {
    let query = build_usage_query(300, 1721000000);

    assert!(query.contains(" or "));
    assert!(!query.contains(" + "));
    assert!(query.starts_with("sum by (consumer, route, tier) ("));
}

/// The gauge is a capacity signal and the tier's max-connections
/// constraint — never a billed quantity.
#[test]
fn usage_query_never_meters_the_connections_gauge() {
    let query = build_usage_query(300, 1721000000);

    assert!(!query.contains("ogmios_proxy_total_connections"));
    assert!(!query.contains("avg_over_time"));
}

#[test]
fn usage_query_renders_negative_and_extreme_numbers() {
    let query = build_usage_query(-5, i64::MIN);
    assert_eq!(
        query,
        format!(
            "sum by (consumer, route, tier) (increase(ogmios_proxy_ws_total_frame[-5s] @ {min}) or increase(ogmios_proxy_http_total_request{{protocol=\"http\", status_code!~\"401|429|503\"}}[-5s] @ {min}))",
            min = i64::MIN
        )
    );
    let query = build_usage_query(0, i64::MAX);
    assert!(query.contains("[0s] @ 9223372036854775807)"));
    assert!(!query.contains('+'));
}

#[test]
fn the_metering_window_runs_from_the_last_run_to_now() {
    let t = |secs: i64, nanos: u32| UtcTime { secs, nanos };
    let mut clock = UsageClock::new(t(1721000000, 900_000_000));
    let w = clock.next_window(t(1721000060, 899_999_999)).unwrap();
    assert_eq!((w.interval_secs, w.timestamp_secs), (59, 1721000060));
    let w = clock.next_window(t(1721000120, 0)).unwrap();
    assert_eq!((w.interval_secs, w.timestamp_secs), (59, 1721000120));
    // A clock that steps back gives a negative window, rounded toward zero.
    let w = clock.next_window(t(1721000118, 500_000_000)).unwrap();
    assert_eq!(w.interval_secs, -1);
    // Before the epoch the timestamp rounds toward zero, as millis / 1000 does.
    let w = clock.next_window(t(-2, 500_000_000)).unwrap();
    assert_eq!(w.timestamp_secs, -1);
    assert!(query_failed(None));
    assert!(query_failed(Some(503)) && query_failed(Some(404)));
    assert!(!query_failed(Some(200)));
}
