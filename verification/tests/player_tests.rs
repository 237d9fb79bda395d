use lotus_events::game_data::{option_failed, EventOption, EventOutcome};
use lotus_events::library::EventDomain;
use lotus_events::player::PlayerSnapshot;
use lotus_events::rng::GameRng;
use lotus_events::widget::LotusWidget;

fn player() -> PlayerSnapshot {
    PlayerSnapshot {
        player_tier: 2,
        life_stage: 1,
        player_age: 18,
        social_credit_score: 550,
        finances: 1000,
        career_level: 1,
        guanxi_family: 1,
        guanxi_network: 1,
        guanxi_party: 0,
        recent_event_domains: vec![],
        encounter_history: vec![],
    }
}

fn outcome() -> EventOutcome {
    EventOutcome {
        scs_change: -20,
        finance_change: 100,
        career_level_change: 1,
        guanxi_family_change: -5,
        guanxi_network_change: 2,
        guanxi_party_change: 0,
    }
}

#[test]
fn outcomes_apply_exactly_with_saturation_at_zero() {
    let mut p = player();
    p.apply_outcome(&outcome());
    assert_eq!(p.social_credit_score, 530);
    assert_eq!(p.finances, 1100);
    assert_eq!(p.career_level, 2);
    assert_eq!(p.guanxi_family, 0); // 1 - 5 saturates at zero
    assert_eq!(p.guanxi_network, 3);
    assert_eq!(p.guanxi_party, 0);
}

#[test]
fn tier_tracks_the_social_credit_bands() {
    let cases = [
        (-50, 0),
        (199, 0),
        (200, 1),
        (399, 1),
        (400, 2),
        (749, 2),
        (750, 3),
        (999, 3),
        (1000, 4),
    ];
    for (scs, tier) in cases {
        let mut p = player();
        p.social_credit_score = scs;
        p.update_player_tier_from_scs();
        assert_eq!(p.player_tier, tier, "scs {}", scs);
    }
    // the report says whether the tier moved
    let mut p = player();
    p.social_credit_score = 550;
    assert!(!p.update_player_tier_from_scs());
    p.social_credit_score = 100;
    assert!(p.update_player_tier_from_scs());
}

#[test]
fn life_stage_tracks_age() {
    let cases = [(18, 1), (25, 1), (26, 2), (40, 2), (41, 3), (55, 3), (56, 4), (90, 4)];
    for (age, stage) in cases {
        let mut p = player();
        p.player_age = age;
        p.update_life_stage();
        assert_eq!(p.life_stage, stage, "age {}", age);
    }
}

#[test]
fn birthdays_report_and_stage_changes_take_over() {
    let mut p = player();
    let msg = p.age_up();
    assert_eq!(p.player_age, 19);
    assert_eq!(msg, "Happy Birthday! You are now 19.");
    p.player_age = 25;
    let msg = p.age_up();
    assert_eq!(p.life_stage, 2);
    assert_eq!(msg, "You are 26. You've entered a new Life Stage: 2!");
}

#[test]
fn encounters_roll_the_domain_window_and_grow_the_id_set() {
    let mut p = player();
    p.record_encounter(Some(EventDomain::Work), Some("a".to_string()));
    p.record_encounter(Some(EventDomain::Family), Some("b".to_string()));
    p.record_encounter(Some(EventDomain::Public), None);
    p.record_encounter(Some(EventDomain::Party), Some("c".to_string()));
    assert_eq!(
        p.recent_event_domains,
        vec![EventDomain::Party, EventDomain::Public, EventDomain::Family]
    );
    assert_eq!(p.encounter_history, vec!["a", "b", "c"]);
    // a fallback event leaves the history untouched
    p.record_encounter(None, None);
    assert_eq!(p.recent_event_domains.len(), 3);
    assert_eq!(p.encounter_history.len(), 3);
}

#[test]
fn review_petals_are_fixed() {
    let p = player();
    for petal in 0..13usize {
        assert_eq!(p.is_review_petal(petal), petal == 0 || petal == 4 || petal == 8);
    }
}

#[test]
fn risk_free_options_never_fail_and_certain_ones_always_do() {
    let mut opt = EventOption {
        text: "x".to_string(),
        requirements: vec![],
        risk_chance: 0,
        success_outcome: EventOutcome {
            scs_change: 0,
            finance_change: 0,
            career_level_change: 0,
            guanxi_family_change: 0,
            guanxi_network_change: 0,
            guanxi_party_change: 0,
        },
        success_result: String::new(),
        failure_outcome: None,
        failure_result: String::new(),
    };
    for seed in 0..50u64 {
        let mut rng = GameRng::from_seed(seed);
        assert!(!option_failed(&opt, &mut rng));
    }
    opt.risk_chance = 100;
    for seed in 0..50u64 {
        let mut rng = GameRng::from_seed(seed);
        assert!(option_failed(&opt, &mut rng));
    }
}

#[test]
fn widget_keeps_its_inputs_and_petal_glyphs() {
    let w = LotusWidget::new(5, 13, 27);
    assert_eq!(w.num_tiers, 5);
    assert_eq!(w.num_petals_per_tier, 13);
    assert_eq!(w.player_total_index, 27);
    assert_eq!(LotusWidget::get_petal_text(3, 0), "🎉");
    assert_eq!(LotusWidget::get_petal_text(3, 4), "⚖️");
    assert_eq!(LotusWidget::get_petal_text(0, 1), "💀");
    assert_eq!(LotusWidget::get_petal_text(4, 2), "🏆");
    assert_eq!(LotusWidget::get_petal_text(7, 2), "??");
}
