use lotus_events::converter::{
    attach_option, create_event_from_row, create_option_from_row, events_list, insert_event,
    EventCsvRow, KeyedEvent, OptionCsvRow,
};
use lotus_events::fallback::{build_event_index, resolve_fallback};
use lotus_events::player::PlayerSnapshot;
use lotus_events::requirements::StatKey;
use lotus_events::rng::GameRng;

fn option_row() -> OptionCsvRow {
    OptionCsvRow {
        event_id: "e1".to_string(),
        text: "Pay the fee".to_string(),
        scs_change: 1,
        finance_change: -50,
        career_level_change: 0,
        guanxi_family_change: 0,
        guanxi_network_change: 0,
        guanxi_party_change: 0,
        req_guanxi_family: 0,
        req_guanxi_network: 2,
        req_guanxi_party: 0,
        risk_chance: 0,
        success_result_text: "Paid.".to_string(),
        failure_result_text: String::new(),
        fail_scs_change: 0,
        fail_finance_change: 0,
        fail_career_level_change: 0,
        fail_guanxi_family_change: 0,
        fail_guanxi_network_change: 0,
        fail_guanxi_party_change: 0,
    }
}

#[test]
fn event_rows_become_empty_shells() {
    let row = EventCsvRow {
        event_id: "e1".to_string(),
        title: "Inspection".to_string(),
        description: "They came early.".to_string(),
        min_tier: 1,
        max_tier: 3,
        is_generic: true,
        life_stage: 2,
    };
    let ev = create_event_from_row(row);
    assert_eq!(ev.title, "Inspection");
    assert_eq!(ev.description, "They came early.");
    assert!(ev.options.is_empty());
    assert_eq!(ev.min_tier, 1);
    assert_eq!(ev.max_tier, 3);
    assert!(ev.is_generic);
    assert_eq!(ev.life_stage, 2);
    assert!(ev.procedural_id.is_none());
}

#[test]
fn only_positive_floors_become_requirements() {
    let opt = create_option_from_row(option_row());
    assert_eq!(opt.requirements.len(), 1);
    assert_eq!(opt.requirements[0].key, StatKey::GuanxiNetwork);
    assert_eq!(opt.requirements[0].min_value, 2);
    assert_eq!(opt.success_outcome.finance_change, -50);
    assert_eq!(opt.success_result, "Paid.");
}

#[test]
fn riskless_rows_carry_no_failure_outcome() {
    let opt = create_option_from_row(option_row());
    assert_eq!(opt.risk_chance, 0);
    assert!(opt.failure_outcome.is_none());
}

#[test]
fn risky_rows_with_identical_blank_failure_carry_none() {
    let mut row = option_row();
    row.risk_chance = 30;
    row.fail_scs_change = row.scs_change;
    row.fail_finance_change = row.finance_change;
    let opt = create_option_from_row(row);
    // failure equals success and has no text of its own: dropped
    assert!(opt.failure_outcome.is_none());
}

#[test]
fn risky_rows_with_distinct_failure_carry_it() {
    let mut row = option_row();
    row.risk_chance = 30;
    row.fail_scs_change = -10;
    let opt = create_option_from_row(row);
    let f = opt.failure_outcome.expect("failure outcome");
    assert_eq!(f.scs_change, -10);
}

#[test]
fn risky_rows_with_failure_text_carry_the_outcome_even_if_identical() {
    let mut row = option_row();
    row.risk_chance = 30;
    row.failure_result_text = "It went badly.".to_string();
    let opt = create_option_from_row(row);
    assert!(opt.failure_outcome.is_some());
    assert_eq!(opt.failure_result, "It went badly.");
}

fn shell(id: &str, title: &str) -> (String, lotus_events::game_data::EventData) {
    let row = EventCsvRow {
        event_id: id.to_string(),
        title: title.to_string(),
        description: String::new(),
        min_tier: 0,
        max_tier: 0,
        is_generic: false,
        life_stage: 1,
    };
    (row.event_id.clone(), create_event_from_row(row))
}

#[test]
fn inserting_twice_replaces_the_keyed_event() {
    let mut events: Vec<KeyedEvent> = Vec::new();
    let (id, ev) = shell("e1", "First");
    insert_event(&mut events, id, ev);
    let (id, ev) = shell("e2", "Other");
    insert_event(&mut events, id, ev);
    let (id, ev) = shell("e1", "Second");
    insert_event(&mut events, id, ev);
    assert_eq!(events.len(), 2);
    assert_eq!(events[0].event.title, "Second");
    assert_eq!(events[1].event.title, "Other");
}

#[test]
fn options_attach_to_their_event_and_orphans_are_reported() {
    let mut events: Vec<KeyedEvent> = Vec::new();
    let (id, ev) = shell("e1", "First");
    insert_event(&mut events, id, ev);
    let found = attach_option(&mut events, &"e1".to_string(), create_option_from_row(option_row()));
    assert!(found);
    assert_eq!(events[0].event.options.len(), 1);
    let found = attach_option(&mut events, &"nope".to_string(), create_option_from_row(option_row()));
    assert!(!found);
    assert_eq!(events[0].event.options.len(), 1);
}

#[test]
fn converted_rows_feed_the_fallback_chain() {
    let mut events: Vec<KeyedEvent> = Vec::new();
    let row = EventCsvRow {
        event_id: "e1".to_string(),
        title: "Inspection".to_string(),
        description: "They came early.".to_string(),
        min_tier: 1,
        max_tier: 3,
        is_generic: false,
        life_stage: 2,
    };
    let id = row.event_id.clone();
    insert_event(&mut events, id, create_event_from_row(row));
    attach_option(&mut events, &"e1".to_string(), create_option_from_row(option_row()));
    let db = events_list(events);
    let index = build_event_index(&db);

    let player = PlayerSnapshot {
        player_tier: 2,
        life_stage: 2,
        player_age: 30,
        social_credit_score: 0,
        finances: 0,
        career_level: 0,
        guanxi_family: 0,
        guanxi_network: 5,
        guanxi_party: 0,
        recent_event_domains: vec![],
        encounter_history: vec![],
    };
    let mut rng = GameRng::from_seed(1);
    let ev = resolve_fallback(&db, &index, &player, &mut rng);
    assert_eq!(ev.title, "Inspection");
    assert_eq!(ev.options.len(), 1);
    assert_eq!(ev.options[0].text, "Pay the fee");
}

#[test]
fn the_final_list_keeps_filing_order() {
    let mut events: Vec<KeyedEvent> = Vec::new();
    let (id, ev) = shell("a", "A");
    insert_event(&mut events, id, ev);
    let (id, ev) = shell("b", "B");
    insert_event(&mut events, id, ev);
    let list = events_list(events);
    assert_eq!(list.len(), 2);
    assert_eq!(list[0].title, "A");
    assert_eq!(list[1].title, "B");
}
