use ogmios_proxy::operator::metrics::{usage_labels, UsageMetric, UsagePatterns};
use ogmios_proxy::text::{eq_ignore_ascii_case, parse_u16, parse_u64, push_i64, push_u64, str_eq};

#[test]
fn unsigned_parsing_follows_the_std_grammar() {
    for s in ["0", "7", "+7", "0042", "18446744073709551615", "", "+", "-1", "1 ", "1e3", "18446744073709551616"] {
        assert_eq!(parse_u64(s), s.parse::<u64>().ok(), "{s:?}");
        assert_eq!(parse_u16(s), s.parse::<u16>().ok(), "{s:?}");
    }
    assert_eq!(parse_u16("65535"), Some(65535));
    assert_eq!(parse_u16("65536"), None);
}

#[test]
fn decimal_rendering_matches_display() {
    for n in [0u64, 9, 10, 1721000000, u64::MAX] {
        let mut s = String::from("x");
        push_u64(&mut s, n);
        assert_eq!(s, format!("x{n}"));
    }
    for n in [0i64, -1, -10, i64::MIN, i64::MAX] {
        let mut s = String::new();
        push_i64(&mut s, n);
        assert_eq!(s, n.to_string());
    }
}

#[test]
fn string_comparisons() {
    assert!(str_eq("abc", "abc"));
    assert!(!str_eq("abc", "abd"));
    assert!(!str_eq("ab", "abc"));
    assert!(eq_ignore_ascii_case("WebSocket", "websocket"));
    assert!(!eq_ignore_ascii_case("WébSocket", "websocket"));
}

fn metric(consumer: Option<&str>, route: Option<&str>, tier: Option<&str>) -> UsageMetric {
    UsageMetric {
        consumer: consumer.map(|s| s.to_string()),
        route: route.map(|s| s.to_string()),
        tier: tier.map(|s| s.to_string()),
    }
}

#[test]
fn usage_is_billed_to_the_project_and_resource_of_the_consumer() {
    let patterns = UsagePatterns::new().unwrap();
    let m = metric(Some("prj-mainnet-abc.ogmios-port-1"), Some("mainnet-v6"), Some("2"));
    let labels = usage_labels(&patterns, &m, false).unwrap();
    assert_eq!(labels.project, "mainnet-abc");
    assert_eq!(labels.resource_name, "ogmios-port-1");
    assert_eq!(labels.tier, "2");
    assert!(usage_labels(&patterns, &m, true).is_none());
}

#[test]
fn unbillable_series_are_skipped() {
    let patterns = UsagePatterns::new().unwrap();
    let cases = [
        metric(None, Some("mainnet-v6"), Some("2")),
        metric(Some("prj-a.b"), None, Some("2")),
        metric(Some("prj-a.b"), Some("mainnet-v6"), None),
        metric(Some("project-a.b"), Some("mainnet-v6"), Some("2")),
        metric(Some("prj-a.b"), Some("mainnet"), Some("2")),
    ];
    for m in cases.iter() {
        assert!(usage_labels(&patterns, m, false).is_none());
    }
}
