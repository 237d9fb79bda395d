use lotus_events::library::{
    ChoiceArchetype, ChoiceType, EventDomain, NarrativeFragments, Severity, SituationLibrary,
    SituationTemplate, StatProfile, TierWords, VariableLibraries,
};

fn empty_vars() -> VariableLibraries {
    VariableLibraries {
        colleague_descriptors: Vec::<TierWords>::new(),
        excuse_library: vec![],
        work_time: vec![],
        work_colleague: vec![],
        work_day: vec![],
        work_obligation: vec![],
        work_record: vec![],
        overtime_period: vec![],
        work_project: vec![],
        safety_violation: vec![],
        political_metric: vec![],
        monitoring_target: vec![],
        political_team_activity: vec![],
        work_mistake: vec![],
        bribe_amount: vec![],
        work_decision: vec![],
        relationship_types: vec![],
        parent_type: vec![],
        sibling_type: vec![],
        relative_type: vec![],
        small_amount: vec![],
        medium_amount: vec![],
        large_amount: vec![],
        time_period: vec![],
        authority_figure: vec![],
        infraction: vec![],
        unpractical_subject: vec![],
        practical_subject: vec![],
        personal_topic: vec![],
        successful_relative: vec![],
        unsuitable_match: vec![],
        political_topic: vec![],
        day_time: vec![],
        time_duration: vec![],
        party_observer: vec![],
        membership_level: vec![],
        party_official: vec![],
        controversial_topic: vec![],
        denouncement_target: vec![],
        political_crime: vec![],
        volunteer_activity: vec![],
        party_elite: vec![],
        favor_request: vec![],
        propaganda_campaign: vec![],
        propaganda_activity: vec![],
        wait_time: vec![],
        stranger_type: vec![],
        small_favor: vec![],
        public_place: vec![],
        appointment_type: vec![],
        public_violation: vec![],
        violation_perpetrator: vec![],
        public_service: vec![],
        queue_jumper: vec![],
        public_transport: vec![],
        seat_requester: vec![],
        suspicious_behavior: vec![],
        survey_topic: vec![],
    }
}

fn good_template(id: &str, domain: EventDomain) -> SituationTemplate {
    SituationTemplate {
        id: id.to_string(),
        domain,
        tier_min: 0,
        tier_max: 4,
        life_stage_min: 1,
        life_stage_max: 4,
        severity: Severity::Low,
        base_risk: 10,
        fragments: NarrativeFragments {
            openings: vec!["a".to_string()],
            conflicts: vec!["b".to_string()],
            stakes: vec!["c".to_string()],
        },
        choices: vec![ChoiceArchetype {
            archetype: ChoiceType::Ignore,
            text_fragments: vec!["do nothing".to_string()],
            base_stats: StatProfile {
                scs_change: -1,
                finance_change: 0,
                career_level_change: 0,
                guanxi_family_change: 0,
                guanxi_network_change: 0,
                guanxi_party_change: 0,
            },
            risk_modifier: -2,
            requirements: vec![],
        }],
    }
}

#[test]
fn valid_content_loads_in_domain_order() {
    let lib = SituationLibrary::new(
        vec![good_template("w", EventDomain::Work)],
        vec![good_template("f", EventDomain::Family)],
        vec![good_template("pu", EventDomain::Public)],
        vec![good_template("pa", EventDomain::Party)],
        empty_vars(),
    )
    .unwrap();
    assert_eq!(lib.situations.len(), 4);
    assert_eq!(lib.situations[0].id, "w");
    assert_eq!(lib.situations[1].id, "f");
    assert_eq!(lib.situations[2].id, "pu");
    assert_eq!(lib.situations[3].id, "pa");
}

#[test]
fn an_empty_fragment_list_is_a_load_error() {
    let mut bad = good_template("w", EventDomain::Work);
    bad.fragments.conflicts = vec![];
    assert!(SituationLibrary::new(vec![bad], vec![], vec![], vec![], empty_vars()).is_err());
}

#[test]
fn a_choice_without_text_is_a_load_error() {
    let mut bad = good_template("w", EventDomain::Work);
    bad.choices[0].text_fragments = vec![];
    assert!(SituationLibrary::new(vec![bad], vec![], vec![], vec![], empty_vars()).is_err());
}

#[test]
fn an_oversized_stat_delta_is_a_load_error() {
    let mut bad = good_template("w", EventDomain::Work);
    bad.choices[0].base_stats.finance_change = 900000000;
    assert!(SituationLibrary::new(vec![bad], vec![], vec![], vec![], empty_vars()).is_err());
}

#[test]
fn labels_read_as_displayed() {
    assert_eq!(EventDomain::Work.as_str(), "Work");
    assert_eq!(EventDomain::Family.as_str(), "Family");
    assert_eq!(EventDomain::Public.as_str(), "Public");
    assert_eq!(EventDomain::Party.as_str(), "Party");
    assert_eq!(ChoiceType::Conform.as_str(), "conform");
    assert_eq!(ChoiceType::Resist.as_str(), "resist");
    assert_eq!(ChoiceType::Manipulate.as_str(), "manipulate");
    assert_eq!(ChoiceType::Ignore.as_str(), "ignore");
}
