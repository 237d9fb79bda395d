use lotus_events::fallback::{build_event_index, resolve_fallback};
use lotus_events::game_data::{EventData, EventOption, EventOutcome};
use lotus_events::player::PlayerSnapshot;
use lotus_events::requirements::{Requirement, StatKey};
use lotus_events::rng::GameRng;

fn zero_outcome() -> EventOutcome {
    EventOutcome {
        scs_change: 0,
        finance_change: 0,
        career_level_change: 0,
        guanxi_family_change: 0,
        guanxi_network_change: 0,
        guanxi_party_change: 0,
    }
}

fn plain_option(text: &str) -> EventOption {
    EventOption {
        text: text.to_string(),
        requirements: vec![],
        risk_chance: 0,
        success_outcome: zero_outcome(),
        success_result: "fine".to_string(),
        failure_outcome: None,
        failure_result: String::new(),
    }
}

fn event(title: &str, tiers: (usize, usize), stage: usize, generic: bool, options: Vec<EventOption>) -> EventData {
    EventData {
        title: title.to_string(),
        description: "something happened".to_string(),
        options,
        min_tier: tiers.0,
        max_tier: tiers.1,
        is_generic: generic,
        life_stage: stage,
        procedural_id: None,
        procedural_domain: None,
    }
}

fn player(tier: usize, stage: usize) -> PlayerSnapshot {
    PlayerSnapshot {
        player_tier: tier,
        life_stage: stage,
        player_age: 30,
        social_credit_score: 0,
        finances: 0,
        career_level: 0,
        guanxi_family: 0,
        guanxi_network: 0,
        guanxi_party: 0,
        recent_event_domains: vec![],
        encounter_history: vec![],
    }
}

#[test]
fn tier_specific_events_come_first() {
    let db = vec![
        event("TS", (2, 2), 2, false, vec![plain_option("a")]),
        event("G", (0, 4), 2, true, vec![plain_option("b")]),
    ];
    let index = build_event_index(&db);
    for seed in 0..30u64 {
        let mut rng = GameRng::from_seed(seed);
        let ev = resolve_fallback(&db, &index, &player(2, 2), &mut rng);
        assert_eq!(ev.title, "TS");
        // the resolved event carries the template's eligibility bounds
        assert_eq!(ev.min_tier, 2);
        assert_eq!(ev.max_tier, 2);
        assert_eq!(ev.life_stage, 2);
    }
}

#[test]
fn generic_events_serve_when_no_tier_specific_exists() {
    let db = vec![event("G", (0, 4), 2, true, vec![plain_option("b")])];
    let index = build_event_index(&db);
    let mut rng = GameRng::from_seed(5);
    let ev = resolve_fallback(&db, &index, &player(2, 2), &mut rng);
    assert_eq!(ev.title, "G");
}

#[test]
fn earlier_stages_serve_generic_events_only_as_a_last_resort() {
    // nothing at the player's stage 3; generic events exist at stages 1 and 2
    let db = vec![
        event("G1", (0, 4), 1, true, vec![plain_option("a")]),
        event("G2", (0, 4), 2, true, vec![plain_option("b")]),
    ];
    let index = build_event_index(&db);
    for seed in 0..60u64 {
        let mut rng = GameRng::from_seed(seed);
        let ev = resolve_fallback(&db, &index, &player(2, 3), &mut rng);
        assert!(ev.title == "G1" || ev.title == "G2", "got {}", ev.title);
        assert_ne!(ev.title, "No Event Found!");
    }
}

#[test]
fn past_stage_scan_skips_tier_specific_events() {
    // the only past-stage event is tier-specific, so the scan finds nothing
    let db = vec![event("TS1", (2, 2), 1, false, vec![plain_option("a")])];
    let index = build_event_index(&db);
    let mut rng = GameRng::from_seed(5);
    let ev = resolve_fallback(&db, &index, &player(2, 3), &mut rng);
    assert_eq!(ev.title, "No Event Found!");
}

#[test]
fn diagnostic_event_names_the_gap() {
    let db: Vec<EventData> = vec![];
    let index = build_event_index(&db);
    let mut rng = GameRng::from_seed(5);
    let ev = resolve_fallback(&db, &index, &player(2, 3), &mut rng);
    assert_eq!(ev.title, "No Event Found!");
    assert_eq!(
        ev.description,
        "Error: No events found for player tier 2 and life stage 3. Please check events.json."
    );
    assert_eq!(ev.options.len(), 1);
    assert_eq!(ev.options[0].text, "Continue");
    assert_eq!(ev.options[0].risk_chance, 0);
    assert!(ev.options[0].failure_outcome.is_none());
    assert_eq!(ev.min_tier, 0);
    assert_eq!(ev.max_tier, 99);
    assert!(ev.is_generic);
}

#[test]
fn resolved_options_are_filtered_by_requirements() {
    let mut gated = plain_option("gated");
    gated.requirements = vec![Requirement { key: StatKey::GuanxiFamily, min_value: 3 }];
    let db = vec![event("TS", (2, 2), 2, false, vec![gated, plain_option("open")])];
    let index = build_event_index(&db);
    let mut rng = GameRng::from_seed(5);
    let ev = resolve_fallback(&db, &index, &player(2, 2), &mut rng);
    assert_eq!(ev.options.len(), 1);
    assert_eq!(ev.options[0].text, "open");
}

#[test]
fn an_event_with_no_surviving_options_is_still_returned() {
    let mut gated = plain_option("gated");
    gated.requirements = vec![Requirement { key: StatKey::CareerLevel, min_value: 9 }];
    let db = vec![event("TS", (2, 2), 2, false, vec![gated])];
    let index = build_event_index(&db);
    let mut rng = GameRng::from_seed(5);
    let ev = resolve_fallback(&db, &index, &player(2, 2), &mut rng);
    assert_eq!(ev.title, "TS");
    assert_eq!(ev.options.len(), 0);
}

#[test]
fn index_files_events_under_every_tier_of_their_range() {
    let db = vec![event("W", (1, 3), 2, false, vec![plain_option("a")])];
    let index = build_event_index(&db);
    for tier in 1..=3usize {
        let mut rng = GameRng::from_seed(tier as u64);
        let ev = resolve_fallback(&db, &index, &player(tier, 2), &mut rng);
        assert_eq!(ev.title, "W");
    }
    // outside its range the event is not served
    let mut rng = GameRng::from_seed(9);
    let ev = resolve_fallback(&db, &index, &player(4, 2), &mut rng);
    assert_eq!(ev.title, "No Event Found!");
}
