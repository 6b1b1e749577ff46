use lnd_fees::policy::{
    decide_tier, needs_update, target_policy, CurrentPolicy, FeeTier, Tier, Tiers,
};

fn sample_tiers() -> Tiers {
    Tiers {
        low: FeeTier { fee_rate_ppm: 10, base_fee_msat: 0 },
        medium: FeeTier { fee_rate_ppm: 50, base_fee_msat: 1000 },
        high: FeeTier { fee_rate_ppm: 200, base_fee_msat: 1000 },
    }
}

fn sample_current() -> CurrentPolicy {
    CurrentPolicy {
        fee_base_msat: 0,
        fee_rate_milli_msat: 10,
        time_lock_delta: 40,
        max_htlc_msat: 990_000_000,
    }
}

#[test]
fn ratio_seventy_is_high_tier() {
    let target = target_policy(&sample_tiers(), 70, 100, &sample_current());
    assert_eq!(target.fee_rate_ppm, 200);
    assert_eq!(target.base_fee_msat, 1000);
    assert_eq!(target.time_lock_delta, 40);
    assert_eq!(target.max_htlc_msat, 990_000_000);
}

#[test]
fn ratio_exactly_sixty_is_medium_tier() {
    let target = target_policy(&sample_tiers(), 60, 100, &sample_current());
    assert_eq!(target.fee_rate_ppm, 50);
    assert_eq!(target.base_fee_msat, 1000);
}

#[test]
fn ratio_exactly_forty_is_low_tier() {
    let target = target_policy(&sample_tiers(), 40, 100, &sample_current());
    assert_eq!(target.fee_rate_ppm, 10);
    assert_eq!(target.base_fee_msat, 0);
}

#[test]
fn fractional_ratios_split_exactly() {
    // 60.1% is above the 60% boundary, 40.1% above the 40% one
    assert_eq!(decide_tier(601, 1000), Tier::High);
    assert_eq!(decide_tier(600, 1000), Tier::Medium);
    assert_eq!(decide_tier(401, 1000), Tier::Medium);
    assert_eq!(decide_tier(400, 1000), Tier::Low);
}

#[test]
fn ratio_extremes_are_mapped() {
    assert_eq!(decide_tier(0, 100), Tier::Low);
    assert_eq!(decide_tier(100, 100), Tier::High);
    assert_eq!(decide_tier(1, 1), Tier::High);
}

#[test]
fn large_balances_do_not_overflow() {
    assert_eq!(decide_tier(i64::MAX, i64::MAX), Tier::High);
    assert_eq!(decide_tier(i64::MAX / 2, i64::MAX), Tier::Medium);
    assert_eq!(decide_tier(i64::MAX / 4, i64::MAX), Tier::Low);
}

#[test]
fn matching_policy_needs_no_update() {
    let tiers = sample_tiers();
    let current = CurrentPolicy {
        fee_base_msat: 1000,
        fee_rate_milli_msat: 200,
        time_lock_delta: 40,
        max_htlc_msat: 990_000_000,
    };
    let target = target_policy(&tiers, 70, 100, &current);
    assert!(!needs_update(&current, &target));
}

#[test]
fn differing_base_fee_needs_update() {
    let current = sample_current();
    let mut target = target_policy(&sample_tiers(), 40, 100, &current);
    assert!(!needs_update(&current, &target));
    target.base_fee_msat = 5;
    assert!(needs_update(&current, &target));
}

#[test]
fn differing_fee_rate_needs_update() {
    let current = sample_current();
    let mut target = target_policy(&sample_tiers(), 40, 100, &current);
    target.fee_rate_ppm = 11;
    assert!(needs_update(&current, &target));
}
