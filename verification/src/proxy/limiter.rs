//! Per-consumer rate limiting: which limiters a consumer gets, when they are
//! (re)built, and how each tier rate becomes a token bucket.

use std::sync::Arc;

use vstd::prelude::*;

use crate::proxy::tiers::{Tier, TierRate, TierTable};
use crate::table::{Keyed, Table};

verus! {

#[verifier::external_type_specification]
#[verifier::external_body]
pub struct ExRateLimiter(leaky_bucket::RateLimiter);

/// Why a request could not be given its rate limiters.
#[derive(Debug, Clone, Copy, PartialEq, Eq, Structural)]
pub enum LimiterError {
    /// The consumer's port no longer exists.
    PortDeleted,
    /// The consumer's tier is not among the configured tiers.
    InvalidTier,
}

impl LimiterError {
    /// The human-readable text of the error.
    pub fn message(&self) -> (s: &'static str)
        ensures
            s@ == match self {
                LimiterError::PortDeleted => "Port was deleted"@,
                LimiterError::InvalidTier => "Tier is invalid"@,
            },
    {
        match self {
            LimiterError::PortDeleted => "Port was deleted",
            LimiterError::InvalidTier => "Tier is invalid",
        }
    }
}

/// A consumer of the proxy: the key it authenticates with, its tier and the
/// namespace its usage is counted under.
#[derive(Debug, Clone)]
pub struct Consumer {
    pub key: String,
    pub tier: String,
    pub namespace: String,
}

impl Keyed for Consumer {
    open spec fn key_spec(&self) -> Seq<char> {
        self.key@
    }

    fn key(&self) -> (r: &String) {
        &self.key
    }
}

/// The known consumers, found by key.
pub type ConsumerTable = Table<Consumer>;

/// How a token bucket for one tier rate is configured.
#[derive(Debug, Clone, Copy, PartialEq, Eq, Structural)]
pub struct BucketSettings {
    /// Tokens available to a fresh bucket.
    pub initial: usize,
    /// Tokens added at every interval.
    pub refill: usize,
    /// The most tokens the bucket banks.
    pub max: usize,
    /// The refill interval, in seconds.
    pub interval_secs: u64,
}

/// Whether a rate can be turned into a bucket: a non-zero limit whose double
/// fits, and an interval that is non-zero and fits in milliseconds.
pub open spec fn rate_buildable(rate: TierRate) -> bool {
    &&& rate.limit > 0
    &&& rate.limit * 2 <= usize::MAX
    &&& rate.interval_secs > 0
    &&& rate.interval_secs * 1000 <= u64::MAX
}

/// Whether every rate of `rates` can be turned into a bucket.
pub open spec fn rates_buildable(rates: Seq<TierRate>) -> bool {
    forall|i: int| 0 <= i < rates.len() ==> rate_buildable(#[trigger] rates[i])
}

impl TierRate {
    /// Whether this rate can be turned into a bucket.
    pub fn buildable(&self) -> (b: bool)
        ensures
            b == rate_buildable(*self),
    {
        self.limit > 0 && self.limit <= usize::MAX / 2 && self.interval_secs > 0
            && self.interval_secs <= u64::MAX / 1000
    }
}

impl Tier {
    /// Whether every rate of this tier can be turned into a bucket.
    pub fn rates_buildable(&self) -> (b: bool)
        ensures
            b == rates_buildable(self.rates@),
    {
        let n = self.rates.len();
        let mut i: usize = 0;
        while i < n
            invariant
                n == self.rates@.len(),
                i <= n,
                forall|j: int| 0 <= j < i ==> rate_buildable(#[trigger] self.rates@[j]),
            decreases n - i,
        {
            if !self.rates[i].buildable() {
                return false;
            }
            i = i + 1;
        }
        true
    }
}

/// The bucket settings for a tier rate: one interval's worth of tokens at
/// first, `limit` more every interval, at most two intervals' worth banked.
pub open spec fn settings_of(rate: TierRate) -> BucketSettings {
    BucketSettings {
        initial: rate.limit,
        refill: rate.limit,
        max: (2 * rate.limit) as usize,
        interval_secs: rate.interval_secs,
    }
}

/// The bucket for a tier rate: it starts with one interval's worth of
/// tokens, gains `limit` tokens every interval, and banks at most two
/// intervals' worth.
pub fn bucket_settings(rate: &TierRate) -> (s: BucketSettings)
    requires
        rate.limit * 2 <= usize::MAX,
    ensures
        s == settings_of(*rate),
        s.initial == rate.limit,
        s.refill == rate.limit,
        s.max == 2 * rate.limit,
        s.interval_secs == rate.interval_secs,
{
    BucketSettings {
        initial: rate.limit,
        refill: rate.limit,
        max: rate.limit * 2,
        interval_secs: rate.interval_secs,
    }
}

/// A token bucket together with the settings it was built with.
pub struct Bucket {
    settings: BucketSettings,
    limiter: leaky_bucket::RateLimiter,
}

impl Bucket {
    /// The settings the bucket's limiter was built with.
    pub closed spec fn config(&self) -> BucketSettings {
        self.settings
    }

    /// The settings the bucket's limiter was built with.
    pub fn settings(&self) -> (s: BucketSettings)
        ensures
            s == self.config(),
    {
        self.settings
    }

    /// The rate limiter that grants the bucket's tokens.
    pub fn limiter(&self) -> &leaky_bucket::RateLimiter {
        &self.limiter
    }
}

/// Builds a `leaky_bucket::RateLimiter` through its `Builder` (`initial`,
/// `interval`, `refill`, `max`, `build`), and keeps the settings it was
/// given beside it.
///
/// Trusted: `requires` excludes the inputs on which the builder panics (a
/// zero refill, an interval of zero milliseconds or of more milliseconds
/// than a `u64` holds); the bucket records exactly the settings handed to
/// the builder. The crate caps each of them at `isize::MAX`; how the
/// limiter grants tokens over time is the crate's behaviour and is not
/// stated.
#[verifier::external_body]
fn new_bucket(settings: &BucketSettings) -> (b: Bucket)
    requires
        settings.refill > 0,
        settings.interval_secs > 0,
        settings.interval_secs * 1000 <= u64::MAX,
    ensures
        b.config() == *settings,
{
    let limiter = leaky_bucket::RateLimiter::builder()
        .initial(settings.initial)
        .interval(std::time::Duration::from_secs(settings.interval_secs))
        .refill(settings.refill)
        .max(settings.max)
        .build();
    Bucket { settings: *settings, limiter }
}

/// Builds the token bucket for one tier rate: it starts with `limit` tokens,
/// gains `limit` every interval and banks at most `2 * limit`.
pub fn build_rate_limiter(rate: &TierRate) -> (b: Bucket)
    requires
        rate_buildable(*rate),
    ensures
        b.config() == settings_of(*rate),
        b.config().initial == rate.limit,
        b.config().refill == rate.limit,
        b.config().max == 2 * rate.limit,
        b.config().interval_secs == rate.interval_secs,
{
    let settings = bucket_settings(rate);
    new_bucket(&settings)
}

/// Builds one token bucket per rate, in order: the `i`-th from the `i`-th
/// rate.
pub fn build_limiters(rates: &Vec<TierRate>) -> (r: Vec<Arc<Bucket>>)
    requires
        rates_buildable(rates@),
    ensures
        r@.len() == rates@.len(),
        forall|i: int| 0 <= i < r@.len() ==> (#[trigger] r@[i]).config() == settings_of(rates@[i]),
{
    let mut out: Vec<Arc<Bucket>> = Vec::new();
    let n = rates.len();
    let mut i: usize = 0;
    while i < n
        invariant
            n == rates@.len(),
            i <= n,
            out@.len() == i,
            rates_buildable(rates@),
            forall|j: int| 0 <= j < i ==> (#[trigger] out@[j]).config() == settings_of(rates@[j]),
        decreases n - i,
    {
        let bucket = build_rate_limiter(&rates[i]);
        out.push(Arc::new(bucket));
        i = i + 1;
    }
    out
}

/// The rate limiters of one consumer.
pub struct ConsumerLimiters {
    pub key: String,
    pub limiters: Vec<Arc<Bucket>>,
}

impl Keyed for ConsumerLimiters {
    open spec fn key_spec(&self) -> Seq<char> {
        self.key@
    }

    fn key(&self) -> (r: &String) {
        &self.key
    }
}

/// The rate limiters built so far, by consumer key.
pub struct LimiterRegistry {
    table: Table<ConsumerLimiters>,
}

impl LimiterRegistry {
    /// The limiters held for each consumer key that has them.
    pub closed spec fn view(&self) -> Map<Seq<char>, Seq<Arc<Bucket>>> {
        Map::new(
            |k: Seq<char>| self.table.lookup(k) is Some,
            |k: Seq<char>| self.table.lookup(k)->0.limiters@,
        )
    }

    /// A registry that holds no limiters.
    pub fn new() -> (r: Self)
        ensures
            r.view() == Map::<Seq<char>, Seq<Arc<Bucket>>>::empty(),
    {
        let r = LimiterRegistry { table: Table::new() };
        proof {
            assert(r.view() =~= Map::<Seq<char>, Seq<Arc<Bucket>>>::empty());
        }
        r
    }

    /// Whether limiters are held for `key`.
    pub fn contains(&self, key: &str) -> (b: bool)
        ensures
            b == self.view().contains_key(key@),
    {
        self.table.get(key).is_some()
    }

    /// The limiters held for `key`.
    pub fn get(&self, key: &str) -> (r: Option<&Vec<Arc<Bucket>>>)
        ensures
            r is Some == self.view().contains_key(key@),
            r matches Some(v) ==> v@ == self.view()[key@],
    {
        match self.table.get(key) {
            Some(entry) => Some(&entry.limiters),
            None => None,
        }
    }

    /// Holds `limiters` for `key`, replacing any held before.
    pub fn install(&mut self, key: String, limiters: Vec<Arc<Bucket>>)
        ensures
            final(self).view() == old(self).view().insert(key@, limiters@),
    {
        let ghost k = key@;
        let ghost n = limiters@;
        self.table.insert(ConsumerLimiters { key, limiters });
        proof {
            assert(final(self).view() =~= old(self).view().insert(k, n));
        }
    }

    /// Drops every limiter, so that each consumer's next request builds its
    /// limiters afresh from the current tiers.
    pub fn clear(&mut self)
        ensures
            final(self).view() == Map::<Seq<char>, Seq<Arc<Bucket>>>::empty(),
    {
        self.table = Table::new();
        proof {
            assert(final(self).view() =~= Map::<Seq<char>, Seq<Arc<Bucket>>>::empty());
        }
    }
}

/// The rate-limit plugin: the limiters it holds, by consumer key.
pub struct RateLimiterPlugin {
    consumers: LimiterRegistry,
}

impl RateLimiterPlugin {
    /// The limiters held, by consumer key.
    pub closed spec fn view(&self) -> Map<Seq<char>, Seq<Arc<Bucket>>> {
        self.consumers.view()
    }

    /// A plugin that holds no limiters yet.
    pub fn new() -> (p: Self)
        ensures
            p.view() == Map::<Seq<char>, Seq<Arc<Bucket>>>::empty(),
    {
        RateLimiterPlugin { consumers: LimiterRegistry::new() }
    }
}

/// What a request must do before acquiring its permits: `Ok(None)` when
/// its limiters already exist, `Ok(Some(tier))` when they must first be
/// built from `tier`, or the error that refuses the request.
pub open spec fn limiter_plan(
    registry: Map<Seq<char>, Seq<Arc<Bucket>>>,
    consumers: ConsumerTable,
    tiers: TierTable,
    key: Seq<char>,
) -> Result<Option<Tier>, LimiterError> {
    if registry.contains_key(key) {
        Ok(None)
    } else {
        match consumers.lookup(key) {
            None => Err(LimiterError::PortDeleted),
            Some(consumer) => match tiers.lookup(consumer.tier@) {
                None => Err(LimiterError::InvalidTier),
                Some(tier) => Ok(Some(tier)),
            },
        }
    }
}

/// Decides, for the consumer with `key`, whether its limiters must be built
/// and from which tier: the consumer is looked up afresh, then its tier.
pub fn plan_limiter<'a>(
    registry: &LimiterRegistry,
    consumers: &ConsumerTable,
    tiers: &'a TierTable,
    key: &str,
) -> (r: Result<Option<&'a Tier>, LimiterError>)
    ensures
        match r {
            Ok(Some(t)) => limiter_plan(registry.view(), *consumers, *tiers, key@) == Ok::<
                Option<Tier>,
                LimiterError,
            >(Some(*t)),
            Ok(None) => limiter_plan(registry.view(), *consumers, *tiers, key@) == Ok::<
                Option<Tier>,
                LimiterError,
            >(None),
            Err(e) => limiter_plan(registry.view(), *consumers, *tiers, key@) == Err::<
                Option<Tier>,
                LimiterError,
            >(e),
        },
{
    if registry.contains(key) {
        return Ok(None);
    }
    let consumer = match consumers.get(key) {
        Some(c) => c,
        None => return Err(LimiterError::PortDeleted),
    };
    match tiers.get(consumer.tier.as_str()) {
        Some(tier) => Ok(Some(tier)),
        None => Err(LimiterError::InvalidTier),
    }
}

/// Once a consumer's limiters are installed, its later requests reuse them:
/// nothing is rebuilt, whatever became of the consumer or its tier, until
/// the registry is cleared.
pub proof fn installed_limiters_are_reused(
    registry: Map<Seq<char>, Seq<Arc<Bucket>>>,
    consumers: ConsumerTable,
    tiers: TierTable,
    key: Seq<char>,
    limiters: Seq<Arc<Bucket>>,
)
    ensures
        limiter_plan(registry.insert(key, limiters), consumers, tiers, key) == Ok::<
            Option<Tier>,
            LimiterError,
        >(None),
{
}

/// After the registry is cleared (as a tiers reload does), a consumer's next
/// request is planned from the consumer and tier tables as they are then:
/// an unknown consumer is refused as deleted, an unknown tier as invalid,
/// and a known one is built from its current tier.
pub proof fn cleared_registry_replans(consumers: ConsumerTable, tiers: TierTable, key: Seq<char>)
    ensures
        limiter_plan(Map::empty(), consumers, tiers, key) == match consumers.lookup(key) {
            None => Err(LimiterError::PortDeleted),
            Some(consumer) => match tiers.lookup(consumer.tier@) {
                None => Err(LimiterError::InvalidTier),
                Some(tier) => Ok(Some(tier)),
            },
        },
{
}

} // verus!
