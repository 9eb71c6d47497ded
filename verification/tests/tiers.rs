use ogmios_proxy::proxy::tiers::{index_tiers, interval_from_parts, parse_interval, IntervalError, Tier, TierRate};

#[test]
fn every_documented_interval_unit_reads_to_seconds() {
    for (input, expected) in [
        ("30s", 30),
        ("1m", 60),
        ("1h", 60 * 60),
        ("1d", 24 * 60 * 60),
    ] {
        assert_eq!(parse_interval(input), Ok(expected), "unit {input}");
    }
}

#[test]
fn a_malformed_interval_is_an_error() {
    assert_eq!(parse_interval("nope"), Err(IntervalError::InvalidFormat));
    assert_eq!(parse_interval(""), Err(IntervalError::InvalidFormat));
}

#[test]
fn an_unknown_unit_is_an_invalid_symbol() {
    assert_eq!(parse_interval("5w"), Err(IntervalError::InvalidSymbol));
    assert_eq!(interval_from_parts("5", "y"), Err(IntervalError::InvalidSymbol));
}

#[test]
fn the_regex_takes_the_last_digit_as_unit_when_no_letter_follows() {
    // `[\w]` also matches a digit, so "1500" is "150" with unit "0".
    assert_eq!(parse_interval("1500"), Err(IntervalError::InvalidSymbol));
}

#[test]
fn oversized_intervals_are_out_of_range() {
    assert_eq!(
        parse_interval("99999999999999999999s"),
        Err(IntervalError::OutOfRange)
    );
    assert_eq!(
        interval_from_parts("307445734561825861", "m"),
        Err(IntervalError::OutOfRange)
    );
    assert_eq!(interval_from_parts("307445734561825860", "m"), Ok(18446744073709551600));
    assert_eq!(interval_from_parts("+2", "h"), Ok(7200));
}

fn tier(name: &str, max_connections: usize) -> Tier {
    Tier {
        name: name.to_string(),
        rates: vec![TierRate { limit: 1500, interval_secs: 60 }],
        max_connections,
    }
}

#[test]
fn indexing_tiers_keeps_the_last_tier_of_each_name() {
    let table = index_tiers(vec![tier("0", 1), tier("3", 450), tier("0", 2)]);
    assert_eq!(table.get("0").unwrap().max_connections, 2);
    assert_eq!(table.get("3").unwrap().max_connections, 450);
    assert_eq!(table.get("3").unwrap().rates[0].limit, 1500);
    assert!(table.get("4").is_none());
}
