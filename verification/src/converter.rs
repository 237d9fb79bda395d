use vstd::prelude::*;
use crate::game_data::{EventData, EventOption, EventOutcome};
use crate::requirements::{Requirement, StatKey};

verus! {

/// One row of the events table, as authored.
#[derive(Debug)]
pub struct EventCsvRow {
    pub event_id: String,
    pub title: String,
    pub description: String,
    pub min_tier: usize,
    pub max_tier: usize,
    pub is_generic: bool,
    pub life_stage: usize,
}

/// One row of the event-options table, as authored.
#[derive(Debug)]
pub struct OptionCsvRow {
    pub event_id: String,
    pub text: String,
    pub scs_change: i32,
    pub finance_change: i32,
    pub career_level_change: i32,
    pub guanxi_family_change: i32,
    pub guanxi_network_change: i32,
    pub guanxi_party_change: i32,
    pub req_guanxi_family: u32,
    pub req_guanxi_network: u32,
    pub req_guanxi_party: u32,
    pub risk_chance: u8,
    pub success_result_text: String,
    pub failure_result_text: String,
    pub fail_scs_change: i32,
    pub fail_finance_change: i32,
    pub fail_career_level_change: i32,
    pub fail_guanxi_family_change: i32,
    pub fail_guanxi_network_change: i32,
    pub fail_guanxi_party_change: i32,
}

/// An event under its authoring key.
#[derive(Debug)]
pub struct KeyedEvent {
    pub id: String,
    pub event: EventData,
}

/// The requirement table an option row encodes: one entry per guanxi track
/// whose floor is positive, in the fixed order family, network, party.
pub open spec fn spec_row_requirements(row: OptionCsvRow) -> Seq<Requirement> {
    (if row.req_guanxi_family > 0 {
        seq![Requirement { key: StatKey::GuanxiFamily, min_value: row.req_guanxi_family }]
    } else {
        Seq::empty()
    }) + (if row.req_guanxi_network > 0 {
        seq![Requirement { key: StatKey::GuanxiNetwork, min_value: row.req_guanxi_network }]
    } else {
        Seq::empty()
    }) + (if row.req_guanxi_party > 0 {
        seq![Requirement { key: StatKey::GuanxiParty, min_value: row.req_guanxi_party }]
    } else {
        Seq::empty()
    })
}

/// The success outcome an option row encodes.
pub open spec fn spec_row_success(row: OptionCsvRow) -> EventOutcome {
    EventOutcome {
        scs_change: row.scs_change,
        finance_change: row.finance_change,
        career_level_change: row.career_level_change,
        guanxi_family_change: row.guanxi_family_change,
        guanxi_network_change: row.guanxi_network_change,
        guanxi_party_change: row.guanxi_party_change,
    }
}

/// The failure outcome an option row encodes: present only for a risky option
/// whose failure differs from success or carries its own result text.
pub open spec fn spec_row_failure(row: OptionCsvRow) -> Option<EventOutcome> {
    let f = EventOutcome {
        scs_change: row.fail_scs_change,
        finance_change: row.fail_finance_change,
        career_level_change: row.fail_career_level_change,
        guanxi_family_change: row.fail_guanxi_family_change,
        guanxi_network_change: row.fail_guanxi_network_change,
        guanxi_party_change: row.fail_guanxi_party_change,
    };
    if row.risk_chance > 0 && (f != spec_row_success(row) || row.failure_result_text@.len() > 0) {
        Some(f)
    } else {
        None
    }
}

/// Builds an event shell from one events-table row; its options are attached
/// afterwards from the options table.
pub fn create_event_from_row(row: EventCsvRow) -> (r: EventData)
    ensures
        r.title == row.title,
        r.description == row.description,
        r.options@.len() == 0,
        r.min_tier == row.min_tier,
        r.max_tier == row.max_tier,
        r.is_generic == row.is_generic,
        r.life_stage == row.life_stage,
        r.procedural_id is None,
        r.procedural_domain is None,
{
    EventData {
        title: row.title,
        description: row.description,
        options: Vec::new(),
        min_tier: row.min_tier,
        max_tier: row.max_tier,
        is_generic: row.is_generic,
        life_stage: row.life_stage,
        procedural_id: None,
        procedural_domain: None,
    }
}

/// Builds an option from one options-table row: a guanxi requirement per
/// positive floor, and a failure outcome only where the row's risk is
/// positive and failure actually differs from success or has its own text.
pub fn create_option_from_row(row: OptionCsvRow) -> (r: EventOption)
    ensures
        r.text == row.text,
        r.requirements@ == spec_row_requirements(row),
        r.risk_chance == row.risk_chance,
        r.success_outcome == spec_row_success(row),
        r.success_result == row.success_result_text,
        r.failure_outcome == spec_row_failure(row),
        r.failure_result == row.failure_result_text,
{
    let success_outcome = EventOutcome {
        scs_change: row.scs_change,
        finance_change: row.finance_change,
        career_level_change: row.career_level_change,
        guanxi_family_change: row.guanxi_family_change,
        guanxi_network_change: row.guanxi_network_change,
        guanxi_party_change: row.guanxi_party_change,
    };

    let mut requirements: Vec<Requirement> = Vec::new();
    if row.req_guanxi_family > 0 {
        requirements.push(
            Requirement { key: StatKey::GuanxiFamily, min_value: row.req_guanxi_family },
        );
    }
    if row.req_guanxi_network > 0 {
        requirements.push(
            Requirement { key: StatKey::GuanxiNetwork, min_value: row.req_guanxi_network },
        );
    }
    if row.req_guanxi_party > 0 {
        requirements.push(
            Requirement { key: StatKey::GuanxiParty, min_value: row.req_guanxi_party },
        );
    }
    proof {
        assert(requirements@ =~= spec_row_requirements(row));
    }

    let mut failure_outcome: Option<EventOutcome> = None;
    if row.risk_chance > 0 {
        let outcome = EventOutcome {
            scs_change: row.fail_scs_change,
            finance_change: row.fail_finance_change,
            career_level_change: row.fail_career_level_change,
            guanxi_family_change: row.fail_guanxi_family_change,
            guanxi_network_change: row.fail_guanxi_network_change,
            guanxi_party_change: row.fail_guanxi_party_change,
        };
        if outcome != success_outcome || !row.failure_result_text.as_str().is_empty() {
            failure_outcome = Some(outcome);
        }
    }

    EventOption {
        text: row.text,
        requirements,
        risk_chance: row.risk_chance,
        success_outcome,
        success_result: row.success_result_text,
        failure_outcome,
        failure_result: row.failure_result_text,
    }
}

/// Files an event under its id, replacing any event already keyed by it, as a
/// map insert would.
pub fn insert_event(events: &mut Vec<KeyedEvent>, id: String, event: EventData)
    ensures
        (exists|j: int| 0 <= j < old(events)@.len() && #[trigger] old(events)@[j].id@ == id@)
            ==> exists|j: int|
            0 <= j < old(events)@.len() && #[trigger] old(events)@[j].id@ == id@ && final(events)@ =~= old(events)@.update(
                j,
                (KeyedEvent { id: id, event: event }),
            ),
        !(exists|j: int| 0 <= j < old(events)@.len() && #[trigger] old(events)@[j].id@ == id@)
            ==> final(events)@ =~= old(events)@.push((KeyedEvent { id: id, event: event })),
{
    let mut i: usize = 0;
    while i < events.len()
        invariant
            i <= events@.len(),
            events@ == old(events)@,
            forall|j: int| 0 <= j < i ==> #[trigger] events@[j].id@ != id@,
        decreases events@.len() - i,
    {
        if events[i].id == id {
            let _ = events.remove(i);
            events.insert(i, KeyedEvent { id, event });
            proof {
                assert(events@ =~= old(events)@.update(
                    i as int,
                    (KeyedEvent { id: id, event: event }),
                ));
            }
            return ;
        }
        i = i + 1;
    }
    events.push(KeyedEvent { id, event });
}

/// The second event is the first with one more option appended, all else
/// equal.
pub open spec fn with_option(before: EventData, after: EventData, option: EventOption) -> bool {
    &&& after.title == before.title
    &&& after.description == before.description
    &&& after.options@ == before.options@.push(option)
    &&& after.min_tier == before.min_tier
    &&& after.max_tier == before.max_tier
    &&& after.is_generic == before.is_generic
    &&& after.life_stage == before.life_stage
    &&& after.procedural_id == before.procedural_id
    &&& after.procedural_domain == before.procedural_domain
}

/// Attaches one option to the event keyed by its id; reports whether the
/// event exists (an orphan option is the caller's to warn about).
pub fn attach_option(events: &mut Vec<KeyedEvent>, event_id: &String, option: EventOption) -> (found:
    bool)
    ensures
        found == exists|j: int|
            0 <= j < old(events)@.len() && #[trigger] old(events)@[j].id@ == event_id@,
        found ==> exists|j: int|
            0 <= j < old(events)@.len() && #[trigger] old(events)@[j].id@ == event_id@ && final(events)@.len() == old(events)@.len() && final(events)@[j].id == old(events)@[j].id
                && with_option(old(events)@[j].event, final(events)@[j].event, option) && (forall|
                k: int,
            |
                0 <= k < old(events)@.len() && k != j ==> final(events)@[k] == old(events)@[k]),
        !found ==> final(events)@ == old(events)@,
{
    let mut i: usize = 0;
    while i < events.len()
        invariant
            i <= events@.len(),
            events@ == old(events)@,
            forall|j: int| 0 <= j < i ==> #[trigger] events@[j].id@ != event_id@,
        decreases events@.len() - i,
    {
        if events[i].id == *event_id {
            let mut ke = events.remove(i);
            ke.event.options.push(option);
            events.insert(i, ke);
            proof {
                assert(events@.len() == old(events)@.len());
                assert(events@[i as int].id == old(events)@[i as int].id);
                assert(with_option(old(events)@[i as int].event, events@[i as int].event, option));
                assert forall|k: int|
                    0 <= k < old(events)@.len() && k != i implies events@[k] == old(events)@[k] by {
                }
            }
            return true;
        }
        i = i + 1;
    }
    false
}

/// Strips the keys once every option is attached: the final event list, in
/// filing order.
pub fn events_list(events: Vec<KeyedEvent>) -> (r: Vec<EventData>)
    ensures
        r@.len() == events@.len(),
        forall|j: int| 0 <= j < events@.len() ==> #[trigger] r@[j] == events@[j].event,
{
    let mut rest = events;
    let mut out: Vec<EventData> = Vec::new();
    while rest.len() > 0
        invariant
            out@.len() + rest@.len() == events@.len(),
            forall|j: int| 0 <= j < out@.len() ==> #[trigger] out@[j] == events@[j].event,
            forall|j: int|
                0 <= j < rest@.len() ==> #[trigger] rest@[j] == events@[out@.len() + j],
        decreases rest@.len(),
    {
        let ke = rest.remove(0);
        out.push(ke.event);
    }
    out
}

} // verus!
