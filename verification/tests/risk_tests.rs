use lotus_events::requirements::{Requirement, StatKey};
use lotus_events::risk_calculator::{calculate_risk, PlayerStats};

fn stats(family: u32, network: u32, party: u32, career: u32) -> PlayerStats {
    PlayerStats {
        guanxi_family: family,
        guanxi_network: network,
        guanxi_party: party,
        career_level: career,
    }
}

#[test]
fn base_risk_without_requirements() {
    let r = calculate_risk(50, 0, &vec![], &stats(0, 0, 0, 0));
    assert_eq!(r, 50);
}

#[test]
fn shortfall_adds_five_per_point() {
    let reqs = vec![Requirement { key: StatKey::CareerLevel, min_value: 3 }];
    let r = calculate_risk(20, 0, &reqs, &stats(0, 0, 0, 1));
    assert_eq!(r, 30); // gap 2 -> +10
}

#[test]
fn exceeding_a_requirement_never_lowers_risk() {
    let reqs = vec![Requirement { key: StatKey::GuanxiParty, min_value: 1 }];
    let r = calculate_risk(30, 0, &reqs, &stats(0, 0, 50, 0));
    assert_eq!(r, 30);
}

#[test]
fn modifier_is_signed() {
    let r = calculate_risk(40, -15, &vec![], &stats(0, 0, 0, 0));
    assert_eq!(r, 25);
    let r = calculate_risk(40, 15, &vec![], &stats(0, 0, 0, 0));
    assert_eq!(r, 55);
}

#[test]
fn clamps_at_ninety_five_and_zero() {
    let reqs = vec![Requirement { key: StatKey::GuanxiFamily, min_value: 100 }];
    let r = calculate_risk(100, 127, &reqs, &stats(0, 0, 0, 0));
    assert_eq!(r, 95);
    let r = calculate_risk(0, -128, &vec![], &stats(0, 0, 0, 0));
    assert_eq!(r, 0);
}

#[test]
fn unrecognized_keys_are_always_satisfied_and_add_no_risk() {
    let reqs = vec![Requirement { key: StatKey::Other, min_value: 4 }];
    let r = calculate_risk(10, 0, &reqs, &stats(9, 9, 9, 9));
    assert_eq!(r, 10);
    let r = calculate_risk(10, 0, &reqs, &stats(0, 0, 0, 0));
    assert_eq!(r, 10);
}

#[test]
fn output_always_within_bounds() {
    let reqs = vec![
        Requirement { key: StatKey::GuanxiFamily, min_value: 7 },
        Requirement { key: StatKey::CareerLevel, min_value: 2 },
    ];
    for base in 0..=100u8 {
        for modifier in [-128i8, -10, 0, 10, 127] {
            for have in 0..=8u32 {
                let r = calculate_risk(base, modifier, &reqs, &stats(have, 0, 0, have));
                assert!(r <= 95);
            }
        }
    }
}
