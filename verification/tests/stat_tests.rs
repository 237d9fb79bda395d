use lotus_events::library::{Severity, StatProfile};
use lotus_events::rng::GameRng;
use lotus_events::stat_calculator::{
    calculate_failure_stats, calculate_stats, calculate_stats_with_variance,
};

fn profile(v: i32) -> StatProfile {
    StatProfile {
        scs_change: v,
        finance_change: v,
        career_level_change: v,
        guanxi_family_change: v,
        guanxi_network_change: v,
        guanxi_party_change: v,
    }
}

#[test]
fn high_severity_tier_two_unit_variance() {
    // multiplier = (2+1) * 1.5 * 2.0 * 1.0 = 9.0, so 10 -> 90
    let base = StatProfile { scs_change: 10, ..profile(0) };
    let r = calculate_stats_with_variance(&base, 2, Severity::High, 1000);
    assert_eq!(r.scs_change, 90);
    assert_eq!(r.finance_change, 0);
}

#[test]
fn low_severity_truncates_toward_zero() {
    // multiplier = (0+1) * 1.5 * 0.5 * 1.0 = 0.75; 10 * 0.75 = 7.5 -> 7
    let r = calculate_stats_with_variance(&profile(10), 0, Severity::Low, 1000);
    assert_eq!(r.scs_change, 7);
    // negative values truncate toward zero as well: -7.5 -> -7
    let r = calculate_stats_with_variance(&profile(-10), 0, Severity::Low, 1000);
    assert_eq!(r.scs_change, -7);
}

#[test]
fn variance_scales_the_multiplier() {
    // tier 1, medium: (1+1) * 1.5 = 3.0; variance 0.8 -> 2.4; 100 * 2.4 = 240
    let r = calculate_stats_with_variance(&profile(100), 1, Severity::Medium, 800);
    assert_eq!(r.scs_change, 240);
    let r = calculate_stats_with_variance(&profile(100), 1, Severity::Medium, 1200);
    assert_eq!(r.scs_change, 360);
}

#[test]
fn random_variance_stays_in_band() {
    // tier 2 high: multiplier between 9*0.8=7.2 and 9*1.2=10.8; 10 -> [72, 108]
    for seed in 0..200u64 {
        let mut rng = GameRng::from_seed(seed);
        let r = calculate_stats(&profile(10), 2, Severity::High, &mut rng);
        assert!(r.scs_change >= 72 && r.scs_change <= 108, "got {}", r.scs_change);
        // all six fields share the one variance draw
        assert_eq!(r.scs_change, r.finance_change);
        assert_eq!(r.scs_change, r.guanxi_party_change);
    }
}

#[test]
fn failure_amplifies_and_inverts() {
    let f = calculate_failure_stats(&profile(10));
    assert_eq!(f.scs_change, -15);
    let f = calculate_failure_stats(&profile(-7));
    assert_eq!(f.scs_change, 10); // -(-7) * 3 / 2 = 10.5 -> 10
    let f = calculate_failure_stats(&profile(0));
    assert_eq!(f.scs_change, 0);
}

#[test]
fn failure_flips_the_sign_of_every_nonzero_field() {
    for v in [1, 2, 3, 17, 1000, -1, -2, -999] {
        let f = calculate_failure_stats(&profile(v));
        assert!(
            (v > 0 && f.scs_change < 0) || (v < 0 && f.scs_change > 0),
            "{} -> {}",
            v,
            f.scs_change
        );
    }
}

#[test]
fn failure_of_failure_is_no_involution() {
    let once = calculate_failure_stats(&profile(10));
    let twice = calculate_failure_stats(&once);
    assert_eq!(once.scs_change, -15);
    assert_eq!(twice.scs_change, 22); // not back to 10
    assert_ne!(twice.scs_change, 10);
}
