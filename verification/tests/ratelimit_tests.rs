use smsly_gateway::internal_auth::InternalContext;
use smsly_gateway::ratelimit::{
    governor_step, minute_key, rate_key, second_key, tier_limits, AccountTypeRateLimiter,
    FixedWindowStore, RateStep, StoreReply,
};

fn context(org: Option<&str>, user: Option<&str>, tier: &str) -> InternalContext {
    InternalContext {
        user_id: user.map(|s| s.to_string()),
        user_email: None,
        organization_id: org.map(|s| s.to_string()),
        account_type: tier.to_string(),
        request_id: None,
        is_internal: true,
    }
}

#[test]
fn tier_limits_match_the_table() {
    assert_eq!(tier_limits("developer"), (20, 300));
    assert_eq!(tier_limits("enterprise"), (100, 1000));
    assert_eq!(tier_limits("reseller"), (50, 500));
    assert_eq!(tier_limits("casual"), (5, 60));
    assert_eq!(tier_limits("unknown-tier"), (5, 60));
    assert_eq!(tier_limits(""), (5, 60));
}

#[test]
fn rate_key_prefers_organization_then_user_then_anonymous() {
    assert_eq!(rate_key(&context(Some("org1"), Some("u1"), "casual")), "org1");
    assert_eq!(rate_key(&context(None, Some("u1"), "casual")), "u1");
    assert_eq!(rate_key(&context(None, None, "casual")), "anonymous");
}

#[test]
fn window_key_names() {
    assert_eq!(second_key("org1"), "rate:org1:second");
    assert_eq!(minute_key("org1"), "rate:org1:minute");
    assert_eq!(second_key("anonymous"), "rate:anonymous:second");
}

#[test]
fn store_increment_counts_and_expires() {
    let mut store = FixedWindowStore::new();
    assert_eq!(store.increment("rate:k:second", 1, 100), 1);
    assert_eq!(store.increment("rate:k:second", 1, 100), 2);
    assert_eq!(store.increment("rate:k:second", 1, 100), 3);
    // the window was created at 100 with expiry 101: at 101 it has elapsed
    assert_eq!(store.increment("rate:k:second", 1, 101), 1);
    // independent keys count independently
    assert_eq!(store.increment("rate:k:minute", 60, 101), 1);
    assert_eq!(store.increment("rate:k:minute", 60, 101), 2);
}

#[test]
fn store_expiry_is_set_only_on_creation() {
    let mut store = FixedWindowStore::new();
    // created at 100 with a 60 second window: expires at 160
    assert_eq!(store.increment("rate:k:minute", 60, 100), 1);
    // increments at later clocks reuse that expiry instead of extending it
    assert_eq!(store.increment("rate:k:minute", 60, 130), 2);
    assert_eq!(store.increment("rate:k:minute", 60, 159), 3);
    // at 160 the window has elapsed: the counter restarts
    assert_eq!(store.increment("rate:k:minute", 60, 160), 1);
}

#[test]
fn casual_sixth_call_in_one_second_is_denied_then_resets() {
    let mut limiter = AccountTypeRateLimiter::new(FixedWindowStore::new());
    let ctx = context(None, Some("u1"), "casual");
    for _ in 0..5 {
        assert!(limiter.check_rate_limit(&ctx, 10));
    }
    assert!(!limiter.check_rate_limit(&ctx, 10));
    // after the 1 second window elapses the counter resets via expiry
    assert!(limiter.check_rate_limit(&ctx, 11));
}

#[test]
fn casual_minute_ceiling_denies_the_sixty_first_call() {
    let mut limiter = AccountTypeRateLimiter::new(FixedWindowStore::new());
    let ctx = context(Some("org9"), None, "casual");
    // 5 calls in each of 12 different seconds: 60 calls, all allowed
    for s in 0..12 {
        for _ in 0..5 {
            assert!(limiter.check_rate_limit(&ctx, 1000 + s));
        }
    }
    // the next call stays under the second ceiling but crosses 60/min
    assert!(!limiter.check_rate_limit(&ctx, 1012));
}

#[test]
fn different_keys_do_not_share_buckets() {
    let mut limiter = AccountTypeRateLimiter::new(FixedWindowStore::new());
    let a = context(Some("org-a"), None, "casual");
    let b = context(Some("org-b"), None, "casual");
    for _ in 0..5 {
        assert!(limiter.check_rate_limit(&a, 50));
    }
    assert!(!limiter.check_rate_limit(&a, 50));
    assert!(limiter.check_rate_limit(&b, 50));
}

#[test]
fn governor_fails_open_when_store_is_unreachable() {
    for step in [RateStep::ProbeSecond, RateStep::ProbeMinute] {
        for (ls, lm) in [(0, 0), (5, 60), (100, 1000)] {
            assert_eq!(
                governor_step(step, StoreReply::Unreachable, ls, lm),
                RateStep::Decided(true)
            );
        }
    }
}

#[test]
fn governor_denies_only_on_a_count_over_the_ceiling() {
    assert_eq!(
        governor_step(RateStep::ProbeSecond, StoreReply::Count(5), 5, 60),
        RateStep::ProbeMinute
    );
    assert_eq!(
        governor_step(RateStep::ProbeSecond, StoreReply::Count(6), 5, 60),
        RateStep::Decided(false)
    );
    assert_eq!(
        governor_step(RateStep::ProbeMinute, StoreReply::Count(60), 5, 60),
        RateStep::Decided(true)
    );
    assert_eq!(
        governor_step(RateStep::ProbeMinute, StoreReply::Count(61), 5, 60),
        RateStep::Decided(false)
    );
}
