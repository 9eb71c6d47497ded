use std::time::Duration;

use leaky_bucket::RateLimiter;
use ogmios_proxy::proxy::limiter::{
    bucket_settings, build_limiters, build_rate_limiter, plan_limiter, Consumer, ConsumerTable,
    LimiterError, LimiterRegistry,
};
use ogmios_proxy::proxy::tiers::{index_tiers, Tier, TierRate};
use tokio::time::{advance, timeout, Instant};

/// Long enough that it never fires under correct behaviour; short enough
/// that a limiter waiting on a timer the runtime cannot see fails by name.
const HANG: Duration = Duration::from_secs(3600);

fn rate(limit: usize, interval_secs: u64) -> TierRate {
    TierRate {
        limit,
        interval_secs,
    }
}

fn paused<F: std::future::Future<Output = ()>>(f: F) {
    tokio::runtime::Builder::new_current_thread()
        .enable_time()
        .start_paused(true)
        .build()
        .unwrap()
        .block_on(f)
}

async fn elapsed_acquiring(limiter: &RateLimiter) -> Duration {
    let started = Instant::now();
    timeout(HANG, limiter.acquire_one())
        .await
        .expect("acquire hung: virtual clock did not advance");
    started.elapsed()
}

async fn assert_all_instant(limiter: &RateLimiter, n: usize, what: &str) {
    for i in 0..n {
        assert_eq!(
            elapsed_acquiring(limiter).await,
            Duration::ZERO,
            "{what}: acquire {} of {n} blocked",
            i + 1
        );
    }
}

#[test]
fn refill_credits_a_full_limit_not_one_token_per_interval() {
    paused(async {
        let bucket = build_rate_limiter(&rate(10, 60));
        let limiter = bucket.limiter();

        assert_all_instant(limiter, 10, "initial grant").await;
        advance(Duration::from_secs(60)).await;
        assert_all_instant(limiter, 10, "after one full interval").await;
    });
}

#[test]
fn sustained_rate_below_refill_never_blocks() {
    paused(async {
        let bucket = build_rate_limiter(&rate(60, 60));
        let limiter = bucket.limiter();

        for i in 0..150 {
            assert_eq!(
                elapsed_acquiring(limiter).await,
                Duration::ZERO,
                "a client at half its tier rate was throttled at acquire {}",
                i + 1
            );
            advance(Duration::from_secs(2)).await;
        }
    });
}

#[test]
fn draining_the_budget_blocks_until_the_next_interval_boundary() {
    paused(async {
        let bucket = build_rate_limiter(&rate(10, 60));
        let limiter = bucket.limiter();

        assert_all_instant(limiter, 10, "initial grant").await;
        assert_eq!(
            elapsed_acquiring(limiter).await,
            Duration::from_secs(60),
            "expected a wait to the next interval boundary"
        );
    });
}

#[test]
fn idle_does_not_bank_more_than_the_burst_cap() {
    paused(async {
        let bucket = build_rate_limiter(&rate(10, 60));
        let limiter = bucket.limiter();

        assert_all_instant(limiter, 10, "initial grant").await;
        advance(Duration::from_secs(180)).await;

        assert_all_instant(limiter, 20, "banked burst").await;
        assert!(
            elapsed_acquiring(limiter).await > Duration::ZERO,
            "burst was not capped at 2x the limit"
        );
    });
}

#[test]
fn a_fresh_limiter_grants_exactly_one_interval_immediately() {
    paused(async {
        let bucket = build_rate_limiter(&rate(10, 60));
        let limiter = bucket.limiter();

        assert_all_instant(limiter, 10, "initial grant").await;
        assert!(
            elapsed_acquiring(limiter).await > Duration::ZERO,
            "granted more than `initial` on a fresh limiter"
        );
    });
}

#[test]
fn the_built_limiter_is_configured_as_the_bucket_settings_say() {
    paused(async {
        let r = rate(1500, 60);
        let s = bucket_settings(&r);
        assert_eq!((s.initial, s.refill, s.max, s.interval_secs), (1500, 1500, 3000, 60));
        let bucket = build_rate_limiter(&r);
        assert_eq!(bucket.settings(), s);
        let limiter = bucket.limiter();
        assert_eq!(limiter.refill(), 1500);
        assert_eq!(limiter.max(), 3000);
        assert_eq!(limiter.interval(), Duration::from_secs(60));
        assert_eq!(limiter.balance(), 1500);
    });
}

#[test]
fn rates_are_buildable_only_with_a_limit_and_an_interval() {
    assert!(rate(1, 1).buildable());
    assert!(!rate(0, 60).buildable());
    assert!(!rate(10, 0).buildable());
    assert!(!rate(usize::MAX, 60).buildable());
    assert!(!rate(10, u64::MAX).buildable());
}

fn tier(name: &str, limit: usize) -> Tier {
    Tier {
        name: name.to_string(),
        rates: vec![rate(limit, 60), rate(limit * 10, 3600)],
        max_connections: 5,
    }
}

fn consumer(key: &str, tier: &str) -> Consumer {
    Consumer {
        key: key.to_string(),
        tier: tier.to_string(),
        namespace: format!("ns-{key}"),
    }
}

#[test]
fn limiter_plan_refuses_unknown_ports_and_tiers() {
    let tiers = index_tiers(vec![tier("1", 10), tier("2", 100)]);
    let consumers = ConsumerTable::from_items(vec![consumer("a", "2"), consumer("b", "9")]);
    let registry = LimiterRegistry::new();

    let planned = plan_limiter(&registry, &consumers, &tiers, "a").unwrap().unwrap();
    assert_eq!(planned.name, "2");
    assert_eq!(planned.rates[0].limit, 100);
    assert_eq!(
        plan_limiter(&registry, &consumers, &tiers, "b").err(),
        Some(LimiterError::InvalidTier)
    );
    assert_eq!(
        plan_limiter(&registry, &consumers, &tiers, "zzz").err(),
        Some(LimiterError::PortDeleted)
    );
    assert_eq!(LimiterError::PortDeleted.message(), "Port was deleted");
    assert_eq!(LimiterError::InvalidTier.message(), "Tier is invalid");
}

#[test]
fn installed_limiters_are_reused_until_cleared() {
    paused(async {
        let tiers = index_tiers(vec![tier("1", 10)]);
        let consumers = ConsumerTable::from_items(vec![consumer("a", "1")]);
        let mut registry = LimiterRegistry::new();

        let planned = plan_limiter(&registry, &consumers, &tiers, "a").unwrap().unwrap();
        assert!(planned.rates_buildable());
        let limiters = build_limiters(&planned.rates);
        assert_eq!(limiters.len(), 2);
        assert_eq!(limiters[0].settings().max, 20);
        assert_eq!(limiters[1].settings().max, 200);
        assert_eq!(limiters[1].settings().interval_secs, 3600);
        assert_eq!(limiters[1].limiter().max(), 200);
        registry.install("a".to_string(), limiters);
        assert!(registry.contains("a"));
        assert_eq!(registry.get("a").unwrap().len(), 2);

        // Even with the consumer gone, the installed limiters are reused.
        let empty = ConsumerTable::from_items(vec![]);
        assert!(plan_limiter(&registry, &empty, &tiers, "a").unwrap().is_none());

        registry.clear();
        assert!(!registry.contains("a"));
        assert_eq!(
            plan_limiter(&registry, &empty, &tiers, "a").err(),
            Some(LimiterError::PortDeleted)
        );
    });
}
