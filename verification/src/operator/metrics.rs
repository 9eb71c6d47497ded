//! Usage metering: the PromQL that measures what the proxy served, and which
//! of the answers are billed to which project.

use vstd::prelude::*;

use crate::pattern::{group, regex_accepts, regex_captures, take_group, Pattern};
use crate::text::{int_decimal, push_i64};

verus! {

/// The PromQL that meters Ogmios ports over the `interval` seconds ending
/// at Unix time `timestamp`: the WebSocket frames and the non-upgrade HTTP
/// requests the proxy served (refused requests excluded), as the union of
/// the two counters' increases inside one `sum`.
pub open spec fn usage_query(interval: int, timestamp: int) -> Seq<char> {
    "sum by (consumer, route, tier) (increase(ogmios_proxy_ws_total_frame["@ + int_decimal(interval)
        + "s] @ "@ + int_decimal(timestamp)
        + ") or increase(ogmios_proxy_http_total_request{protocol=\"http\", status_code!~\"401|429|503\"}["@
        + int_decimal(interval) + "s] @ "@ + int_decimal(timestamp) + "))"@
}

/// Builds the usage query for `interval` seconds ending at `timestamp`.
pub fn build_usage_query(interval: i64, timestamp: i64) -> (q: String)
    ensures
        q@ == usage_query(interval as int, timestamp as int),
{
    let mut q = "sum by (consumer, route, tier) (increase(ogmios_proxy_ws_total_frame[".to_owned();
    push_i64(&mut q, interval);
    q.append("s] @ ");
    push_i64(&mut q, timestamp);
    q.append(
        ") or increase(ogmios_proxy_http_total_request{protocol=\"http\", status_code!~\"401|429|503\"}[",
    );
    push_i64(&mut q, interval);
    q.append("s] @ ");
    push_i64(&mut q, timestamp);
    q.append("))");
    q
}

/// No character of `s` is `c`.
pub open spec fn lacks(s: Seq<char>, c: char) -> bool {
    forall|k: int| 0 <= k < s.len() ==> s[k] != c
}

/// Nowhere in `s` does `c1` stand right before `c2`.
pub open spec fn lacks_pair(s: Seq<char>, c1: char, c2: char) -> bool {
    forall|k: int| 0 <= k && k + 1 < s.len() ==> !(#[trigger] s[k] == c1 && s[k + 1] == c2)
}

/// `w` occurs in `s` as a contiguous run.
pub open spec fn occurs(s: Seq<char>, w: Seq<char>) -> bool {
    exists|i: int| 0 <= i && i + w.len() <= s.len() && #[trigger] s.subrange(i, i + w.len()) == w
}

proof fn lemma_lacks_concat(a: Seq<char>, b: Seq<char>, c: char)
    requires
        lacks(a, c),
        lacks(b, c),
    ensures
        lacks(a + b, c),
{
    assert forall|k: int| 0 <= k < (a + b).len() implies (a + b)[k] != c by {
        if k < a.len() {
            assert((a + b)[k] == a[k]);
        } else {
            assert((a + b)[k] == b[k - a.len()]);
        }
    }
}

proof fn lemma_lacks_pair_concat(a: Seq<char>, b: Seq<char>, c: char)
    requires
        lacks_pair(a, c, c),
        lacks_pair(b, c, c),
        a.len() == 0 || b.len() == 0 || a.last() != c || b[0] != c,
    ensures
        lacks_pair(a + b, c, c),
{
    assert forall|k: int| 0 <= k && k + 1 < (a + b).len() implies !(#[trigger] (a + b)[k] == c && (a
        + b)[k + 1] == c) by {
        if k + 1 < a.len() {
            assert((a + b)[k] == a[k]);
            assert((a + b)[k + 1] == a[k + 1]);
        } else if k >= a.len() {
            assert((a + b)[k] == b[k - a.len()]);
            assert((a + b)[k + 1] == b[k + 1 - a.len()]);
        } else {
            assert((a + b)[k] == a[k]);
            assert((a + b)[k + 1] == b[0]);
        }
    }
}

proof fn lemma_decimal_lacks(n: nat, c: char)
    requires
        !crate::text::is_digit(c),
    ensures
        lacks(crate::text::nat_decimal(n), c),
    decreases n,
{
    if n >= 10 {
        lemma_decimal_lacks(n / 10, c);
        let d = crate::text::digit_char((n % 10) as int);
        lemma_lacks_concat(crate::text::nat_decimal(n / 10), seq![d], c);
        assert(crate::text::nat_decimal(n / 10).push(d) =~= crate::text::nat_decimal(n / 10)
            + seq![d]);
    }
}

proof fn lemma_int_decimal_lacks(n: int, c: char)
    requires
        !crate::text::is_digit(c),
        c != '-',
    ensures
        lacks(int_decimal(n), c),
        lacks_pair(int_decimal(n), c, c),
{
    if n < 0 {
        lemma_decimal_lacks((-n) as nat, c);
        lemma_lacks_concat(seq!['-'], crate::text::nat_decimal((-n) as nat), c);
    } else {
        lemma_decimal_lacks(n as nat, c);
    }
}

/// The literal pieces of the usage query, between its numbers.
spec fn query_pieces() -> (Seq<char>, Seq<char>, Seq<char>, Seq<char>) {
    (
        "sum by (consumer, route, tier) (increase(ogmios_proxy_ws_total_frame["@,
        "s] @ "@,
        ") or increase(ogmios_proxy_http_total_request{protocol=\"http\", status_code!~\"401|429|503\"}["@,
        "))"@,
    )
}

/// The usage query lacks `c` when its literal pieces do.
proof fn lemma_query_lacks(interval: int, timestamp: int, c: char)
    requires
        !crate::text::is_digit(c),
        c != '-',
        lacks(query_pieces().0, c),
        lacks(query_pieces().1, c),
        lacks(query_pieces().2, c),
        lacks(query_pieces().3, c),
    ensures
        lacks(usage_query(interval, timestamp), c),
{
    let (p0, p1, p2, p3) = query_pieces();
    let di = int_decimal(interval);
    let dt = int_decimal(timestamp);
    lemma_int_decimal_lacks(interval, c);
    lemma_int_decimal_lacks(timestamp, c);
    lemma_lacks_concat(p0, di, c);
    lemma_lacks_concat(p0 + di, p1, c);
    lemma_lacks_concat(p0 + di + p1, dt, c);
    lemma_lacks_concat(p0 + di + p1 + dt, p2, c);
    lemma_lacks_concat(p0 + di + p1 + dt + p2, di, c);
    lemma_lacks_concat(p0 + di + p1 + dt + p2 + di, p1, c);
    lemma_lacks_concat(p0 + di + p1 + dt + p2 + di + p1, dt, c);
    lemma_lacks_concat(p0 + di + p1 + dt + p2 + di + p1 + dt, p3, c);
}

/// The usage query never has `c` twice in a row when its literal pieces
/// do not.
proof fn lemma_query_lacks_pair(interval: int, timestamp: int, c: char)
    requires
        !crate::text::is_digit(c),
        c != '-',
        lacks_pair(query_pieces().0, c, c),
        lacks_pair(query_pieces().1, c, c),
        lacks_pair(query_pieces().2, c, c),
        lacks_pair(query_pieces().3, c, c),
    ensures
        lacks_pair(usage_query(interval, timestamp), c, c),
{
    let (p0, p1, p2, p3) = query_pieces();
    let di = int_decimal(interval);
    let dt = int_decimal(timestamp);
    lemma_int_decimal_lacks(interval, c);
    lemma_int_decimal_lacks(timestamp, c);
    assert(di.len() > 0 && dt.len() > 0);
    assert(di[0] != c && di.last() == di[di.len() - 1] && di.last() != c);
    assert(dt[0] != c && dt.last() == dt[dt.len() - 1] && dt.last() != c);
    lemma_lacks_pair_concat(p0, di, c);
    lemma_lacks_pair_concat(p0 + di, p1, c);
    lemma_lacks_pair_concat(p0 + di + p1, dt, c);
    lemma_lacks_pair_concat(p0 + di + p1 + dt, p2, c);
    lemma_lacks_pair_concat(p0 + di + p1 + dt + p2, di, c);
    lemma_lacks_pair_concat(p0 + di + p1 + dt + p2 + di, p1, c);
    lemma_lacks_pair_concat(p0 + di + p1 + dt + p2 + di + p1, dt, c);
    lemma_lacks_pair_concat(p0 + di + p1 + dt + p2 + di + p1 + dt, p3, c);
}

/// The usage query never adds vectors: whatever the interval and the
/// timestamp, no `+` occurs in it, so a series missing from one counter
/// cannot drop the other counter's series.
pub proof fn usage_query_never_adds(interval: int, timestamp: int)
    ensures
        lacks(usage_query(interval, timestamp), '+'),
{
    reveal_strlit("sum by (consumer, route, tier) (increase(ogmios_proxy_ws_total_frame[");
    reveal_strlit("s] @ ");
    reveal_strlit(") or increase(ogmios_proxy_http_total_request{protocol=\"http\", status_code!~\"401|429|503\"}[");
    reveal_strlit("))");
    lemma_query_lacks(interval, timestamp, '+');
}

/// The usage query never meters the connections gauge: whatever the
/// interval and the timestamp, neither `ogmios_proxy_total_connections` nor
/// `avg_over_time` occurs in it.
pub proof fn usage_query_never_meters_connections(interval: int, timestamp: int)
    ensures
        !occurs(usage_query(interval, timestamp), "ogmios_proxy_total_connections"@),
        !occurs(usage_query(interval, timestamp), "avg_over_time"@),
{
    reveal_strlit("sum by (consumer, route, tier) (increase(ogmios_proxy_ws_total_frame[");
    reveal_strlit("s] @ ");
    reveal_strlit(") or increase(ogmios_proxy_http_total_request{protocol=\"http\", status_code!~\"401|429|503\"}[");
    reveal_strlit("))");
    reveal_strlit("ogmios_proxy_total_connections");
    reveal_strlit("avg_over_time");
    let q = usage_query(interval, timestamp);
    lemma_query_lacks(interval, timestamp, 'v');
    lemma_query_lacks_pair(interval, timestamp, 'n');
    let a = "avg_over_time"@;
    if occurs(q, a) {
        let i = choose|i: int| 0 <= i && i + a.len() <= q.len() && #[trigger] q.subrange(i, i + a.len()) == a;
        assert(q.subrange(i, i + 13)[1] == q[i + 1]);
        assert(q[i + 1] == 'v');
    }
    let g = "ogmios_proxy_total_connections"@;
    if occurs(q, g) {
        let i = choose|i: int| 0 <= i && i + g.len() <= q.len() && #[trigger] q.subrange(i, i + g.len()) == g;
        assert(q.subrange(i, i + 30)[21] == q[i + 21]);
        assert(q.subrange(i, i + 30)[22] == q[i + 22]);
        assert(q[i + 21] == 'n' && q[i + 22] == 'n');
    }
}

/// The increase of the counters `selector` picks over `interval` seconds
/// ending at `timestamp`.
pub open spec fn increase_of(selector: Seq<char>, interval: int, timestamp: int) -> Seq<char> {
    "increase("@ + selector + "["@ + int_decimal(interval) + "s] @ "@ + int_decimal(timestamp)
        + ")"@
}

/// The usage query is the counter union: one `sum by (consumer, route,
/// tier)` over the `or` of the WebSocket frame counter's increase and the
/// increase of the HTTP request counter restricted to plain HTTP that was
/// not refused.
pub proof fn usage_query_is_the_counter_union(interval: int, timestamp: int)
    ensures
        usage_query(interval, timestamp) == "sum by (consumer, route, tier) ("@ + increase_of(
            "ogmios_proxy_ws_total_frame"@,
            interval,
            timestamp,
        ) + " or "@ + increase_of(
            "ogmios_proxy_http_total_request{protocol=\"http\", status_code!~\"401|429|503\"}"@,
            interval,
            timestamp,
        ) + ")"@,
{
    reveal_strlit("sum by (consumer, route, tier) (increase(ogmios_proxy_ws_total_frame[");
    reveal_strlit("s] @ ");
    reveal_strlit(") or increase(ogmios_proxy_http_total_request{protocol=\"http\", status_code!~\"401|429|503\"}[");
    reveal_strlit("))");
    reveal_strlit("sum by (consumer, route, tier) (");
    reveal_strlit("increase(");
    reveal_strlit("ogmios_proxy_ws_total_frame");
    reveal_strlit("[");
    reveal_strlit(")");
    reveal_strlit(" or ");
    reveal_strlit("ogmios_proxy_http_total_request{protocol=\"http\", status_code!~\"401|429|503\"}");
    let di = int_decimal(interval);
    let dt = int_decimal(timestamp);
    let p0 = "sum by (consumer, route, tier) (increase(ogmios_proxy_ws_total_frame["@;
    let p2 = ") or increase(ogmios_proxy_http_total_request{protocol=\"http\", status_code!~\"401|429|503\"}["@;
    let sum = "sum by (consumer, route, tier) ("@;
    let inc = "increase("@;
    let ws = "ogmios_proxy_ws_total_frame"@;
    let http = "ogmios_proxy_http_total_request{protocol=\"http\", status_code!~\"401|429|503\"}"@;
    assert(p0 =~= sum + inc + ws + "["@);
    assert(p2 =~= ")"@ + " or "@ + inc + http + "["@);
    assert("))"@ =~= ")"@ + ")"@);
    assert(usage_query(interval, timestamp) =~= sum + increase_of(ws, interval, timestamp) + " or "@
        + increase_of(http, interval, timestamp) + ")"@);
}

/// A point in time: whole seconds since the Unix epoch, and the nanoseconds
/// past them.
#[derive(Debug, Clone, Copy, PartialEq, Eq, Structural)]
pub struct UtcTime {
    pub secs: i64,
    pub nanos: u32,
}

/// Nanoseconds in one second.
pub const NANOS_PER_SEC: u32 = 1_000_000_000;

/// The time, in nanoseconds since the Unix epoch.
pub open spec fn time_nanos(t: UtcTime) -> int {
    t.secs * 1_000_000_000 + t.nanos
}

/// Division rounding toward zero, as Rust's integer `/` does.
pub open spec fn div_toward_zero(a: int, d: int) -> int {
    if a >= 0 {
        a / d
    } else {
        -((-a) / d)
    }
}

/// A metering window: its length and the Unix time it ends at, in whole
/// seconds.
#[derive(Debug, Clone, Copy, PartialEq, Eq, Structural)]
pub struct Window {
    pub interval_secs: i64,
    pub timestamp_secs: i64,
}

/// The whole seconds from `last` to `end`, rounded toward zero, as
/// `(end - last).num_seconds()` gives them.
pub open spec fn window_interval(last: UtcTime, end: UtcTime) -> int {
    div_toward_zero(time_nanos(end) - time_nanos(last), 1_000_000_000)
}

/// The Unix time a window ending at `end` is queried at: its milliseconds,
/// divided by 1000 toward zero.
pub open spec fn window_timestamp(end: UtcTime) -> int {
    div_toward_zero(end.secs * 1000 + end.nanos / 1_000_000, 1000)
}

/// The metering window that ends at `end` after one that ended at `last`;
/// `None` when its length in seconds does not fit in an `i64`.
pub open spec fn window_spec(last: UtcTime, end: UtcTime) -> Option<Window> {
    let interval = window_interval(last, end);
    if i64::MIN <= interval <= i64::MAX {
        Some(
            Window {
                interval_secs: interval as i64,
                timestamp_secs: window_timestamp(end) as i64,
            },
        )
    } else {
        None
    }
}

fn div_toward_zero_i128(a: i128, d: i128) -> (q: i128)
    requires
        d > 0,
        a > i128::MIN,
    ensures
        q == div_toward_zero(a as int, d as int),
{
    if a >= 0 {
        a / d
    } else {
        -((-a) / d)
    }
}

/// The metering loop's clock: when the previous window ended.
pub struct UsageClock {
    last: UtcTime,
}

impl UsageClock {
    #[verifier::type_invariant]
    spec fn sub_second_nanos(self) -> bool {
        self.last.nanos < NANOS_PER_SEC
    }

    /// When the previous window ended.
    pub closed spec fn last(&self) -> UtcTime {
        self.last
    }

    /// A clock whose first window starts at `start`. The nanoseconds of a
    /// time are below one second (chrono only exceeds that for a leap
    /// second, which the system clock never reports).
    pub fn new(start: UtcTime) -> (c: Self)
        requires
            start.nanos < NANOS_PER_SEC,
        ensures
            c.last() == start,
    {
        UsageClock { last: start }
    }

    /// Closes the window that ends at `end`: the next window starts there,
    /// whatever becomes of this one's query.
    pub fn next_window(&mut self, end: UtcTime) -> (w: Option<Window>)
        requires
            end.nanos < NANOS_PER_SEC,
        ensures
            final(self).last() == end,
            w == window_spec(old(self).last(), end),
    {
        proof {
            use_type_invariant(&*self);
        }
        let last = self.last;
        let diff: i128 = (end.secs as i128 - last.secs as i128) * 1_000_000_000 + (end.nanos as i128
            - last.nanos as i128);
        let interval = div_toward_zero_i128(diff, 1_000_000_000);
        let millis: i128 = end.secs as i128 * 1000 + (end.nanos / 1_000_000) as i128;
        let timestamp = div_toward_zero_i128(millis, 1000);
        proof {
            assert(diff == time_nanos(end) - time_nanos(last));
            assert(timestamp == window_timestamp(end));
            assert(i64::MIN <= timestamp <= i64::MAX) by {
                assert(0 <= end.nanos / 1_000_000 < 1000);
            }
        }
        self.last = end;
        if interval < i64::MIN as i128 || interval > i64::MAX as i128 {
            return None;
        }
        Some(Window { interval_secs: interval as i64, timestamp_secs: timestamp as i64 })
    }
}

/// Whether a usage query failed, so that it is counted once as a metrics
/// failure and nothing is billed: the request got no answer (`None`), or
/// the answer's status is a client or server error.
pub fn query_failed(status: Option<u16>) -> (b: bool)
    ensures
        b == match status {
            None => true,
            Some(s) => 400 <= s <= 599,
        },
{
    match status {
        None => true,
        Some(s) => crate::proxy::health::is_error_status(s),
    }
}

/// The pattern a consumer label is read with: `prj-{project}.{resource}`.
pub const PROJECT_PATTERN: &'static str = "prj-(.+)\\.(.+)$";

/// The pattern a route label must match: a network name, `-`, then more.
pub const NETWORK_PATTERN: &'static str = "([\\w-]+)-.+";

/// The compiled patterns the metrics collector reads labels with.
pub struct UsagePatterns {
    project: Pattern,
    network: Pattern,
}

impl UsagePatterns {
    #[verifier::type_invariant]
    spec fn compiled_from_label_patterns(self) -> bool {
        &&& self.project.source() == PROJECT_PATTERN@
        &&& self.network.source() == NETWORK_PATTERN@
    }

    /// Compiles the label patterns; `None` when the regex engine refuses
    /// one of them.
    pub fn new() -> (r: Option<Self>)
        ensures
            r is Some <==> regex_accepts(PROJECT_PATTERN@) && regex_accepts(NETWORK_PATTERN@),
    {
        let project = match Pattern::compile(PROJECT_PATTERN) {
            Some(p) => p,
            None => return None,
        };
        let network = match Pattern::compile(NETWORK_PATTERN) {
            Some(p) => p,
            None => return None,
        };
        Some(UsagePatterns { project, network })
    }
}

/// The labels of one series of the usage query's answer.
pub struct UsageMetric {
    pub consumer: Option<String>,
    pub route: Option<String>,
    pub tier: Option<String>,
}

/// What a series is billed to.
pub struct UsageLabels {
    pub project: String,
    pub resource_name: String,
    pub tier: String,
}

/// What a series of the answer is billed to: nothing when its value is zero,
/// when it lacks a consumer, a route or a tier, when the consumer is not
/// `prj-{project}.{resource}` or the route names no network; else the
/// project, the resource and the tier.
pub open spec fn usage_labels_spec(
    consumer: Option<Seq<char>>,
    route: Option<Seq<char>>,
    tier: Option<Seq<char>>,
    value_is_zero: bool,
) -> Option<(Seq<char>, Seq<char>, Seq<char>)> {
    if value_is_zero || consumer is None || route is None {
        None
    } else {
        let caps = regex_captures(PROJECT_PATTERN@, consumer->0);
        if group(caps, 1) is None || group(caps, 2) is None {
            None
        } else if regex_captures(NETWORK_PATTERN@, route->0) is None {
            None
        } else {
            match tier {
                Some(t) => Some((group(caps, 1)->0, group(caps, 2)->0, t)),
                None => None,
            }
        }
    }
}

/// Decides what one series of the usage answer is billed to.
/// `value_is_zero` says whether the series' value is zero.
pub fn usage_labels(patterns: &UsagePatterns, metric: &UsageMetric, value_is_zero: bool) -> (r:
    Option<UsageLabels>)
    ensures
        match r {
            Some(l) => usage_labels_spec(
                metric.consumer.deep_view(),
                metric.route.deep_view(),
                metric.tier.deep_view(),
                value_is_zero,
            ) == Some((l.project@, l.resource_name@, l.tier@)),
            None => usage_labels_spec(
                metric.consumer.deep_view(),
                metric.route.deep_view(),
                metric.tier.deep_view(),
                value_is_zero,
            ) is None,
        },
{
    proof {
        use_type_invariant(patterns);
    }
    if value_is_zero {
        return None;
    }
    let consumer = match &metric.consumer {
        Some(c) => c,
        None => return None,
    };
    let route = match &metric.route {
        Some(r) => r,
        None => return None,
    };
    let caps = patterns.project.captures(consumer.as_str());
    let project = match take_group(&caps, 1) {
        Some(p) => p.clone(),
        None => return None,
    };
    let resource_name = match take_group(&caps, 2) {
        Some(p) => p.clone(),
        None => return None,
    };
    let route_caps = patterns.network.captures(route.as_str());
    if route_caps.is_none() {
        return None;
    }
    match &metric.tier {
        Some(t) => Some(UsageLabels { project, resource_name, tier: t.clone() }),
        None => None,
    }
}

/// Every series that names a project and a route is billed: whenever its
/// value is non-zero, its consumer reads as `prj-{project}.{resource}`, its
/// route matches the network pattern at all, and it has a tier, the series
/// is billed to exactly that project, resource and tier, whatever network
/// the route names.
pub proof fn every_matching_series_is_billed(
    consumer: Seq<char>,
    route: Seq<char>,
    tier: Seq<char>,
    project: Seq<char>,
    resource: Seq<char>,
)
    requires
        group(regex_captures(PROJECT_PATTERN@, consumer), 1) == Some(project),
        group(regex_captures(PROJECT_PATTERN@, consumer), 2) == Some(resource),
        regex_captures(NETWORK_PATTERN@, route) is Some,
    ensures
        usage_labels_spec(Some(consumer), Some(route), Some(tier), false) == Some(
            (project, resource, tier),
        ),
{
}

/// A series is billed only when it can be: a zero value, a missing
/// consumer, route or tier, a consumer that does not read as
/// `prj-{project}.{resource}` or a route the network pattern does not match
/// bills nothing; whatever is billed is the consumer's project and resource
/// and the series' own tier.
pub proof fn only_matching_series_are_billed(
    consumer: Option<Seq<char>>,
    route: Option<Seq<char>>,
    tier: Option<Seq<char>>,
    value_is_zero: bool,
)
    ensures
        value_is_zero ==> usage_labels_spec(consumer, route, tier, value_is_zero) is None,
        consumer is None || route is None || tier is None ==> usage_labels_spec(
            consumer,
            route,
            tier,
            value_is_zero,
        ) is None,
        consumer matches Some(c) && group(regex_captures(PROJECT_PATTERN@, c), 1) is None
            ==> usage_labels_spec(consumer, route, tier, value_is_zero) is None,
        route matches Some(r) && regex_captures(NETWORK_PATTERN@, r) is None ==> usage_labels_spec(
            consumer,
            route,
            tier,
            value_is_zero,
        ) is None,
        usage_labels_spec(consumer, route, tier, value_is_zero) matches Some(l) ==> {
            &&& Some(l.0) == group(regex_captures(PROJECT_PATTERN@, consumer->0), 1)
            &&& Some(l.1) == group(regex_captures(PROJECT_PATTERN@, consumer->0), 2)
            &&& Some(l.2) == tier
        },
{
}

} // verus!
