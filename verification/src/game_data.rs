use vstd::prelude::*;
use crate::requirements::Requirement;

verus! {

/// Produces the next event for the player: procedural generation first, and
/// when that yields nothing, the handcrafted fallback — which always returns
/// an event. Every option of a procedural event is one the player qualifies
/// for; a fallback event obeys the resolution order of the fallback index.
pub fn generate_event(
    player: &crate::player::PlayerSnapshot,
    library: &crate::library::SituationLibrary,
    db: &Vec<EventData>,
    index: &crate::fallback::FallbackIndex,
    rng: &mut crate::rng::GameRng,
) -> (r: EventData)
    requires
        player.wf(),
        library.wf(),
        index.wf(db@),
    ensures
        (crate::generator::procedural_event(r, *library, *player, true) && r.options@.len() > 0
            && (forall|j: int|
            0 <= j < r.options@.len() ==> crate::requirements::spec_meets_requirements(
                player.spec_stats(),
                #[trigger] r.options@[j].requirements@,
            ))) || crate::fallback::fallback_event(r, db@, *index, *player),
        ((exists|i: int|
            0 <= i < library.situations@.len() && crate::generator::passes_filter(
                #[trigger] library.situations@[i],
                *player,
                false,
            )) && (forall|i: int|
            0 <= i < library.situations@.len() && crate::generator::passes_filter(
                #[trigger] library.situations@[i],
                *player,
                true,
            ) ==> crate::generator::has_eligible_choice(library.situations@[i], *player)))
            ==> crate::generator::procedural_event(r, *library, *player, true),
{
    match crate::generator::generate_procedural_event(player, library, rng) {
        Some(ev) => ev,
        None => crate::fallback::resolve_fallback(db, index, player, rng),
    }
}

/// The stat changes one resolved choice applies to the player.
#[derive(Clone, Copy, Debug, PartialEq, Eq, Structural)]
pub struct EventOutcome {
    pub scs_change: i32,
    pub finance_change: i32,
    pub career_level_change: i32,
    pub guanxi_family_change: i32,
    pub guanxi_network_change: i32,
    pub guanxi_party_change: i32,
}

impl EventOutcome {
    /// The no-op outcome: every delta zero.
    pub open spec fn spec_zero() -> EventOutcome {
        EventOutcome {
            scs_change: 0,
            finance_change: 0,
            career_level_change: 0,
            guanxi_family_change: 0,
            guanxi_network_change: 0,
            guanxi_party_change: 0,
        }
    }
}

impl Default for EventOutcome {
    /// The no-op outcome: every delta zero.
    fn default() -> (r: EventOutcome)
        ensures
            r == EventOutcome::spec_zero(),
    {
        EventOutcome {
            scs_change: 0,
            finance_change: 0,
            career_level_change: 0,
            guanxi_family_change: 0,
            guanxi_network_change: 0,
            guanxi_party_change: 0,
        }
    }
}

/// A single resolved choice: its text, gating requirements, failure chance,
/// and the outcomes and result texts for success and failure.
#[derive(Debug)]
pub struct EventOption {
    pub text: String,
    pub requirements: Vec<Requirement>,
    pub risk_chance: u8,
    pub success_outcome: EventOutcome,
    pub success_result: String,
    pub failure_outcome: Option<EventOutcome>,
    pub failure_result: String,
}

/// A fully resolved event, ready for display.
#[derive(Debug)]
pub struct EventData {
    pub title: String,
    pub description: String,
    pub options: Vec<EventOption>,
    pub min_tier: usize,
    pub max_tier: usize,
    pub is_generic: bool,
    pub life_stage: usize,
    pub procedural_id: Option<String>,
    pub procedural_domain: Option<String>,
}

/// The outcome a failure roll settles: a roll of 1..=100 at or under the risk
/// chance means failure, and a risk of zero never fails.
pub open spec fn failure_roll(roll: int, risk_chance: u8, failed: bool) -> bool {
    1 <= roll <= 100 && failed == (risk_chance > 0 && roll <= risk_chance)
}

/// Rolls whether a chosen option fails: a roll of 1..=100 at or under the
/// option's risk chance. A risk of zero never fails; a risk of 100 or more
/// always does.
pub fn option_failed(option: &EventOption, rng: &mut crate::rng::GameRng) -> (r: bool)
    ensures
        exists|roll: int| #[trigger] failure_roll(roll, option.risk_chance, r),
        option.risk_chance == 0 ==> r == false,
        option.risk_chance >= 100 ==> r == true,
        r ==> option.risk_chance > 0,
{
    if option.risk_chance == 0 {
        proof {
            assert(failure_roll(1, option.risk_chance, false));
        }
        return false;
    }
    let roll = 1 + rng.below(100);
    let r = roll <= option.risk_chance as usize;
    proof {
        assert(failure_roll(roll as int, option.risk_chance, r));
    }
    r
}

/// Two options carry the same content.
pub open spec fn same_option(a: EventOption, b: EventOption) -> bool {
    a.text@ == b.text@ && a.requirements@ == b.requirements@ && a.risk_chance == b.risk_chance
        && a.success_outcome == b.success_outcome && a.success_result@ == b.success_result@
        && a.failure_outcome == b.failure_outcome && a.failure_result@ == b.failure_result@
}

pub(crate) fn copy_requirements(v: &Vec<Requirement>) -> (r: Vec<Requirement>)
    ensures
        r@ == v@,
{
    let mut r: Vec<Requirement> = Vec::new();
    let mut i: usize = 0;
    while i < v.len()
        invariant
            i <= v@.len(),
            r@ =~= v@.take(i as int),
        decreases v@.len() - i,
    {
        r.push(v[i]);
        proof {
            assert(r@ =~= v@.take(i as int + 1));
        }
        i = i + 1;
    }
    proof {
        assert(v@.take(v@.len() as int) =~= v@);
    }
    r
}

/// A content-equal copy of an option.
pub fn clone_option(o: &EventOption) -> (r: EventOption)
    ensures
        same_option(r, *o),
{
    EventOption {
        text: o.text.clone(),
        requirements: copy_requirements(&o.requirements),
        risk_chance: o.risk_chance,
        success_outcome: o.success_outcome,
        success_result: o.success_result.clone(),
        failure_outcome: o.failure_outcome,
        failure_result: o.failure_result.clone(),
    }
}

} // verus!
