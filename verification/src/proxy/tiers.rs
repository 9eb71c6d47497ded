//! Tiers: named sets of rate limits that a consumer's port is billed under.

use vstd::prelude::*;

use crate::pattern::{group, regex_accepts, regex_captures, take_group, Pattern};
use crate::table::{Keyed, Table};
use crate::text::{decimal_round_trip, nat_decimal, parse_u64, str_eq, u64_literal};

verus! {

/// One rate of a tier: at most `limit` messages per `interval_secs` seconds.
#[derive(Debug, Clone)]
pub struct TierRate {
    pub limit: usize,
    pub interval_secs: u64,
}

/// A tier: its name, its rates, and how many connections it admits.
#[derive(Debug, Clone)]
pub struct Tier {
    pub name: String,
    pub rates: Vec<TierRate>,
    pub max_connections: usize,
}

impl Keyed for Tier {
    open spec fn key_spec(&self) -> Seq<char> {
        self.name@
    }

    fn key(&self) -> (r: &String) {
        &self.name
    }
}

/// The configured tiers, found by name.
pub type TierTable = Table<Tier>;

/// Indexes the tiers read from the tiers file by name; when two tiers share
/// a name, the later one wins.
pub fn index_tiers(tiers: Vec<Tier>) -> (t: TierTable)
    ensures
        forall|name: Seq<char>| #[trigger] t.lookup(name) == crate::table::last_keyed(tiers@, name),
{
    Table::from_items(tiers)
}

/// Why a tier interval such as `"1m"` was refused.
#[derive(Debug, Clone, Copy, PartialEq, Eq, Structural)]
pub enum IntervalError {
    /// The value has no run of digits followed by a unit letter.
    InvalidFormat,
    /// The unit letter is not one of `s`, `m`, `h`, `d`.
    InvalidSymbol,
    /// The number does not read as a `u64`, or the number of seconds it
    /// comes to does not fit in one. `\d` in the pattern also matches
    /// non-ASCII decimal digits, which do not read as a `u64`; such a number
    /// is reported here too.
    OutOfRange,
    /// The interval pattern itself was refused by the regex engine.
    PatternRejected,
}

/// The pattern an interval is read with: a run of digits, then one word
/// character for the unit.
pub const INTERVAL_PATTERN: &'static str = "([\\d]+)([\\w])";

/// The number of seconds one unit stands for.
pub open spec fn unit_seconds(symbol: Seq<char>) -> Option<nat> {
    if symbol == seq!['s'] {
        Some(1)
    } else if symbol == seq!['m'] {
        Some(60)
    } else if symbol == seq!['h'] {
        Some(3600)
    } else if symbol == seq!['d'] {
        Some(86400)
    } else {
        None
    }
}

/// The interval, in seconds, that a number and a unit denote. The number is
/// read first, so a number that does not parse is reported before a bad unit.
pub open spec fn interval_of_parts(number: Seq<char>, symbol: Seq<char>) -> Result<u64, IntervalError> {
    match u64_literal(number) {
        None => Err(IntervalError::OutOfRange),
        Some(n) => match unit_seconds(symbol) {
            None => Err(IntervalError::InvalidSymbol),
            Some(k) => if n * k <= u64::MAX {
                Ok((n * k) as u64)
            } else {
                Err(IntervalError::OutOfRange)
            },
        },
    }
}

/// The interval, in seconds, that a tier file value such as `"30s"` denotes:
/// the first match of `INTERVAL_PATTERN` in it, read as a number and a unit.
pub open spec fn interval_spec(value: Seq<char>) -> Result<u64, IntervalError> {
    if !regex_accepts(INTERVAL_PATTERN@) {
        Err(IntervalError::PatternRejected)
    } else {
        let caps = regex_captures(INTERVAL_PATTERN@, value);
        match (group(caps, 1), group(caps, 2)) {
            (Some(number), Some(symbol)) => interval_of_parts(number, symbol),
            _ => Err(IntervalError::InvalidFormat),
        }
    }
}

/// Reads an interval from the number and unit a match captured.
pub fn interval_from_parts(number: &str, symbol: &str) -> (r: Result<u64, IntervalError>)
    ensures
        r == interval_of_parts(number@, symbol@),
{
    proof {
        reveal_strlit("s");
        reveal_strlit("m");
        reveal_strlit("h");
        reveal_strlit("d");
        assert("s"@ =~= seq!['s']);
        assert("m"@ =~= seq!['m']);
        assert("h"@ =~= seq!['h']);
        assert("d"@ =~= seq!['d']);
    }
    let n = match parse_u64(number) {
        Some(n) => n,
        None => return Err(IntervalError::OutOfRange),
    };
    let unit: u64 = if str_eq(symbol, "s") {
        1
    } else if str_eq(symbol, "m") {
        60
    } else if str_eq(symbol, "h") {
        3600
    } else if str_eq(symbol, "d") {
        86400
    } else {
        return Err(IntervalError::InvalidSymbol);
    };
    match n.checked_mul(unit) {
        Some(secs) => Ok(secs),
        None => Err(IntervalError::OutOfRange),
    }
}

/// Reads a tier interval such as `"30s"`, `"1m"`, `"1h"` or `"1d"` into
/// seconds.
pub fn parse_interval(value: &str) -> (r: Result<u64, IntervalError>)
    ensures
        r == interval_spec(value@),
{
    let pattern = match Pattern::compile(INTERVAL_PATTERN) {
        Some(p) => p,
        None => return Err(IntervalError::PatternRejected),
    };
    let caps = pattern.captures(value);
    let number = take_group(&caps, 1);
    let symbol = take_group(&caps, 2);
    match (number, symbol) {
        (Some(number), Some(symbol)) => interval_from_parts(number.as_str(), symbol.as_str()),
        _ => Err(IntervalError::InvalidFormat),
    }
}

/// Every documented unit reads as documented: a number followed by `s`,
/// `m`, `h` or `d` is that many seconds, minutes, hours or days, whenever
/// that many seconds fit in a `u64`; any other unit is refused.
pub proof fn documented_units_parse(n: u64, symbol: char)
    ensures
        interval_of_parts(nat_decimal(n as nat), seq!['s']) == Ok::<u64, IntervalError>(n),
        n * 60 <= u64::MAX ==> interval_of_parts(nat_decimal(n as nat), seq!['m']) == Ok::<
            u64,
            IntervalError,
        >((n * 60) as u64),
        n * 3600 <= u64::MAX ==> interval_of_parts(nat_decimal(n as nat), seq!['h']) == Ok::<
            u64,
            IntervalError,
        >((n * 3600) as u64),
        n * 86400 <= u64::MAX ==> interval_of_parts(nat_decimal(n as nat), seq!['d']) == Ok::<
            u64,
            IntervalError,
        >((n * 86400) as u64),
        symbol != 's' && symbol != 'm' && symbol != 'h' && symbol != 'd' ==> interval_of_parts(
            nat_decimal(n as nat),
            seq![symbol],
        ) == Err::<u64, IntervalError>(IntervalError::InvalidSymbol),
{
    decimal_round_trip(n);
    assert(unit_seconds(seq!['s']) == Some(1nat));
    assert(n * 1 == n);
    assert(seq!['m'] != seq!['s']) by {
        assert(seq!['m'][0] != seq!['s'][0]);
    }
    assert(seq!['h'] != seq!['s'] && seq!['h'] != seq!['m']) by {
        assert(seq!['h'][0] != seq!['s'][0]);
        assert(seq!['h'][0] != seq!['m'][0]);
    }
    assert(seq!['d'] != seq!['s'] && seq!['d'] != seq!['m'] && seq!['d'] != seq!['h']) by {
        assert(seq!['d'][0] != seq!['s'][0]);
        assert(seq!['d'][0] != seq!['m'][0]);
        assert(seq!['d'][0] != seq!['h'][0]);
    }
    if symbol != 's' && symbol != 'm' && symbol != 'h' && symbol != 'd' {
        assert(seq![symbol] != seq!['s']) by {
            assert(seq![symbol][0] != seq!['s'][0]);
        }
        assert(seq![symbol] != seq!['m']) by {
            assert(seq![symbol][0] != seq!['m'][0]);
        }
        assert(seq![symbol] != seq!['h']) by {
            assert(seq![symbol][0] != seq!['h'][0]);
        }
        assert(seq![symbol] != seq!['d']) by {
            assert(seq![symbol][0] != seq!['d'][0]);
        }
    }
}

/// A canonical interval reads as documented: whenever the interval pattern
/// captures the decimal digits of `n` and a unit letter, the interval is `n`
/// seconds, minutes, hours or days for `s`, `m`, `h` or `d` (when that many
/// seconds fit in a `u64`), and any other unit is refused.
pub proof fn canonical_intervals_read_as_documented(value: Seq<char>, n: u64, unit: char)
    requires
        regex_accepts(INTERVAL_PATTERN@),
        group(regex_captures(INTERVAL_PATTERN@, value), 1) == Some(nat_decimal(n as nat)),
        group(regex_captures(INTERVAL_PATTERN@, value), 2) == Some(seq![unit]),
    ensures
        unit == 's' ==> interval_spec(value) == Ok::<u64, IntervalError>(n),
        unit == 'm' && n * 60 <= u64::MAX ==> interval_spec(value) == Ok::<u64, IntervalError>(
            (n * 60) as u64,
        ),
        unit == 'h' && n * 3600 <= u64::MAX ==> interval_spec(value) == Ok::<u64, IntervalError>(
            (n * 3600) as u64,
        ),
        unit == 'd' && n * 86400 <= u64::MAX ==> interval_spec(value) == Ok::<u64, IntervalError>(
            (n * 86400) as u64,
        ),
        unit != 's' && unit != 'm' && unit != 'h' && unit != 'd' ==> interval_spec(value) == Err::<
            u64,
            IntervalError,
        >(IntervalError::InvalidSymbol),
{
    documented_units_parse(n, unit);
}

} // verus!
