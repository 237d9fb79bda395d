use lotus_events::library::{NarrativeFragments, TierWords, VariableLibraries};
use lotus_events::rng::GameRng;
use lotus_events::strings::usize_to_decimal;
use lotus_events::text_assembly::{
    assemble_choice_text, assemble_description, substitute_variables,
};

fn empty_vars() -> VariableLibraries {
    VariableLibraries {
        colleague_descriptors: vec![],
        excuse_library: vec![],
        work_time: vec![],
        work_colleague: vec![],
        work_day: vec![],
        work_obligation: vec![],
        work_record: vec![],
        overtime_period: vec![],
        work_project: vec![],
        safety_violation: vec![],
        political_metric: vec![],
        monitoring_target: vec![],
        political_team_activity: vec![],
        work_mistake: vec![],
        bribe_amount: vec![],
        work_decision: vec![],
        relationship_types: vec![],
        parent_type: vec![],
        sibling_type: vec![],
        relative_type: vec![],
        small_amount: vec![],
        medium_amount: vec![],
        large_amount: vec![],
        time_period: vec![],
        authority_figure: vec![],
        infraction: vec![],
        unpractical_subject: vec![],
        practical_subject: vec![],
        personal_topic: vec![],
        successful_relative: vec![],
        unsuitable_match: vec![],
        political_topic: vec![],
        day_time: vec![],
        time_duration: vec![],
        party_observer: vec![],
        membership_level: vec![],
        party_official: vec![],
        controversial_topic: vec![],
        denouncement_target: vec![],
        political_crime: vec![],
        volunteer_activity: vec![],
        party_elite: vec![],
        favor_request: vec![],
        propaganda_campaign: vec![],
        propaganda_activity: vec![],
        wait_time: vec![],
        stranger_type: vec![],
        small_favor: vec![],
        public_place: vec![],
        appointment_type: vec![],
        public_violation: vec![],
        violation_perpetrator: vec![],
        public_service: vec![],
        queue_jumper: vec![],
        public_transport: vec![],
        seat_requester: vec![],
        suspicious_behavior: vec![],
        survey_topic: vec![],
    }
}

#[test]
fn substitutes_a_known_placeholder() {
    let mut vars = empty_vars();
    vars.excuse_library = vec!["a sudden illness".to_string()];
    let mut rng = GameRng::from_seed(1);
    let out = substitute_variables(
        "You claimed {excuse} twice: {excuse}.".to_string(),
        &vars,
        2,
        &mut rng,
    );
    assert_eq!(out, "You claimed a sudden illness twice: a sudden illness.");
}

#[test]
fn leaves_unknown_or_empty_placeholders_in_place() {
    let vars = empty_vars();
    let mut rng = GameRng::from_seed(1);
    let out = substitute_variables(
        "Nothing for {excuse} or {made_up_token} here.".to_string(),
        &vars,
        2,
        &mut rng,
    );
    assert_eq!(out, "Nothing for {excuse} or {made_up_token} here.");
}

#[test]
fn colleague_descriptor_uses_exact_tier() {
    let mut vars = empty_vars();
    vars.colleague_descriptors = vec![
        TierWords { tier: 2, words: vec!["tired".to_string()] },
        TierWords { tier: 4, words: vec!["gleaming".to_string()] },
    ];
    let mut rng = GameRng::from_seed(7);
    let out = substitute_variables("A {colleague_descriptor} colleague.".to_string(), &vars, 4, &mut rng);
    assert_eq!(out, "A gleaming colleague.");
}

#[test]
fn colleague_descriptor_falls_back_to_default_tier() {
    let mut vars = empty_vars();
    vars.colleague_descriptors = vec![TierWords { tier: 2, words: vec!["tired".to_string()] }];
    let mut rng = GameRng::from_seed(7);
    let out = substitute_variables("A {colleague_descriptor} colleague.".to_string(), &vars, 0, &mut rng);
    assert_eq!(out, "A tired colleague.");
}

#[test]
fn missing_descriptor_lists_leave_the_token() {
    let vars = empty_vars();
    let mut rng = GameRng::from_seed(7);
    let out = substitute_variables("A {colleague_descriptor} colleague.".to_string(), &vars, 0, &mut rng);
    assert_eq!(out, "A {colleague_descriptor} colleague.");
}

#[test]
fn description_joins_the_three_fragments_in_order() {
    let fragments = NarrativeFragments {
        openings: vec!["At dawn,".to_string()],
        conflicts: vec!["the ledger was short".to_string()],
        stakes: vec!["and everyone knew.".to_string()],
    };
    let vars = empty_vars();
    let mut rng = GameRng::from_seed(3);
    let out = assemble_description(&fragments, &vars, 2, &mut rng);
    assert_eq!(out, "At dawn, the ledger was short and everyone knew.");
}

#[test]
fn description_substitutes_after_joining() {
    let fragments = NarrativeFragments {
        openings: vec!["On {work_day},".to_string()],
        conflicts: vec!["the quota slipped".to_string()],
        stakes: vec!["again.".to_string()],
    };
    let mut vars = empty_vars();
    vars.work_day = vec!["Monday".to_string()];
    let mut rng = GameRng::from_seed(3);
    let out = assemble_description(&fragments, &vars, 2, &mut rng);
    assert_eq!(out, "On Monday, the quota slipped again.");
}

#[test]
fn choice_text_is_one_fragment_unchanged() {
    let fragments = vec!["Keep {excuse} quiet".to_string()];
    let mut rng = GameRng::from_seed(9);
    let out = assemble_choice_text(&fragments, &mut rng);
    // choice text receives no substitution
    assert_eq!(out, "Keep {excuse} quiet");
}

#[test]
fn decimal_rendering() {
    assert_eq!(usize_to_decimal(0), "0");
    assert_eq!(usize_to_decimal(7), "7");
    assert_eq!(usize_to_decimal(12345), "12345");
}
