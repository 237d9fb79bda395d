use vstd::prelude::*;
use crate::requirements::Requirement;

verus! {

/// Thematic category of a situation; recent categories are avoided when the
/// next event is drawn.
#[derive(Clone, Copy, Debug, PartialEq, Eq, Structural)]
pub enum EventDomain {
    Family,
    Work,
    Public,
    Party,
}

/// How hard a situation's outcomes weigh; scales the stat deltas.
#[derive(Clone, Copy, Debug, PartialEq, Eq, Structural)]
pub enum Severity {
    Low,
    Medium,
    High,
}

/// Behavioral flavor of a choice; only shapes the generated result text.
#[derive(Clone, Copy, Debug, PartialEq, Eq, Structural)]
pub enum ChoiceType {
    Conform,
    Resist,
    Manipulate,
    Ignore,
}

/// Six signed stat deltas: social credit, finance, career level, and the
/// three guanxi tracks.
#[derive(Clone, Copy, Debug, PartialEq, Eq, Structural)]
pub struct StatProfile {
    pub scs_change: i32,
    pub finance_change: i32,
    pub career_level_change: i32,
    pub guanxi_family_change: i32,
    pub guanxi_network_change: i32,
    pub guanxi_party_change: i32,
}

/// Bound that load-time validation places on every authored stat delta, so
/// scaling and failure derivation stay inside machine integer ranges.
pub const STAT_DELTA_BOUND: i32 = 10000000;

/// Cap on how many situations one library may hold, so selection weights
/// cannot overflow their sum.
pub const MAX_SITUATIONS: usize = 1000000;

impl StatProfile {
    /// Every authored delta within the load-time bound.
    pub open spec fn bounded(self) -> bool {
        -STAT_DELTA_BOUND <= self.scs_change <= STAT_DELTA_BOUND
            && -STAT_DELTA_BOUND <= self.finance_change <= STAT_DELTA_BOUND
            && -STAT_DELTA_BOUND <= self.career_level_change <= STAT_DELTA_BOUND
            && -STAT_DELTA_BOUND <= self.guanxi_family_change <= STAT_DELTA_BOUND
            && -STAT_DELTA_BOUND <= self.guanxi_network_change <= STAT_DELTA_BOUND
            && -STAT_DELTA_BOUND <= self.guanxi_party_change <= STAT_DELTA_BOUND
    }
}

/// The three ordered fragment lists a description is assembled from.
#[derive(Clone, Debug)]
pub struct NarrativeFragments {
    pub openings: Vec<String>,
    pub conflicts: Vec<String>,
    pub stakes: Vec<String>,
}

impl NarrativeFragments {
    /// Each fragment list non-empty; authored content that breaks this is
    /// rejected when the library is built.
    pub open spec fn wf(self) -> bool {
        self.openings@.len() > 0 && self.conflicts@.len() > 0 && self.stakes@.len() > 0
    }
}

/// One templated choice within a situation.
#[derive(Clone, Debug)]
pub struct ChoiceArchetype {
    pub archetype: ChoiceType,
    pub text_fragments: Vec<String>,
    pub base_stats: StatProfile,
    pub risk_modifier: i8,
    pub requirements: Vec<Requirement>,
}

impl ChoiceArchetype {
    pub open spec fn wf(self) -> bool {
        self.text_fragments@.len() > 0 && self.base_stats.bounded()
    }
}

/// An authored content unit: eligibility bounds, risk profile, narrative
/// fragments and choices.
#[derive(Clone, Debug)]
pub struct SituationTemplate {
    pub id: String,
    pub domain: EventDomain,
    pub tier_min: usize,
    pub tier_max: usize,
    pub life_stage_min: usize,
    pub life_stage_max: usize,
    pub severity: Severity,
    pub base_risk: u8,
    pub fragments: NarrativeFragments,
    pub choices: Vec<ChoiceArchetype>,
}

impl SituationTemplate {
    pub open spec fn wf(self) -> bool {
        self.fragments.wf() && forall|i: int|
            0 <= i < self.choices@.len() ==> #[trigger] self.choices@[i].wf()
    }
}

/// One tier's word list for the tier-aware placeholder.
#[derive(Clone, Debug)]
pub struct TierWords {
    pub tier: usize,
    pub words: Vec<String>,
}

/// Named word lists for `{placeholder}` substitution, plus the tier-keyed
/// colleague descriptors.
#[derive(Clone, Debug)]
pub struct VariableLibraries {
    pub colleague_descriptors: Vec<TierWords>,
    pub excuse_library: Vec<String>,
    pub work_time: Vec<String>,
    pub work_colleague: Vec<String>,
    pub work_day: Vec<String>,
    pub work_obligation: Vec<String>,
    pub work_record: Vec<String>,
    pub overtime_period: Vec<String>,
    pub work_project: Vec<String>,
    pub safety_violation: Vec<String>,
    pub political_metric: Vec<String>,
    pub monitoring_target: Vec<String>,
    pub political_team_activity: Vec<String>,
    pub work_mistake: Vec<String>,
    pub bribe_amount: Vec<String>,
    pub work_decision: Vec<String>,
    pub relationship_types: Vec<String>,
    pub parent_type: Vec<String>,
    pub sibling_type: Vec<String>,
    pub relative_type: Vec<String>,
    pub small_amount: Vec<String>,
    pub medium_amount: Vec<String>,
    pub large_amount: Vec<String>,
    pub time_period: Vec<String>,
    pub authority_figure: Vec<String>,
    pub infraction: Vec<String>,
    pub unpractical_subject: Vec<String>,
    pub practical_subject: Vec<String>,
    pub personal_topic: Vec<String>,
    pub successful_relative: Vec<String>,
    pub unsuitable_match: Vec<String>,
    pub political_topic: Vec<String>,
    pub day_time: Vec<String>,
    pub time_duration: Vec<String>,
    pub party_observer: Vec<String>,
    pub membership_level: Vec<String>,
    pub party_official: Vec<String>,
    pub controversial_topic: Vec<String>,
    pub denouncement_target: Vec<String>,
    pub political_crime: Vec<String>,
    pub volunteer_activity: Vec<String>,
    pub party_elite: Vec<String>,
    pub favor_request: Vec<String>,
    pub propaganda_campaign: Vec<String>,
    pub propaganda_activity: Vec<String>,
    pub wait_time: Vec<String>,
    pub stranger_type: Vec<String>,
    pub small_favor: Vec<String>,
    pub public_place: Vec<String>,
    pub appointment_type: Vec<String>,
    pub public_violation: Vec<String>,
    pub violation_perpetrator: Vec<String>,
    pub public_service: Vec<String>,
    pub queue_jumper: Vec<String>,
    pub public_transport: Vec<String>,
    pub seat_requester: Vec<String>,
    pub suspicious_behavior: Vec<String>,
    pub survey_topic: Vec<String>,
}

/// Why a content library was rejected at load time.
#[derive(Clone, Copy, Debug, PartialEq, Eq, Structural)]
pub enum LoadError {
    MalformedContent,
}

/// The immutable catalog of situation templates and word lists.
#[derive(Clone, Debug)]
pub struct SituationLibrary {
    pub situations: Vec<SituationTemplate>,
    pub variables: VariableLibraries,
}

/// Everything load-time validation demands of a situation list.
pub open spec fn situations_ok(situations: Seq<SituationTemplate>) -> bool {
    situations.len() <= MAX_SITUATIONS && forall|i: int|
        0 <= i < situations.len() ==> #[trigger] situations[i].wf()
}

impl SituationLibrary {
    pub open spec fn wf(self) -> bool {
        situations_ok(self.situations@)
    }

    /// Builds the library from the four per-domain situation lists and the
    /// shared word lists, validating the authored content: every fragment
    /// list and every choice's text list must be non-empty and every stat
    /// delta within bounds. Malformed content is a load failure.
    pub fn new(
        work: Vec<SituationTemplate>,
        family: Vec<SituationTemplate>,
        public: Vec<SituationTemplate>,
        party: Vec<SituationTemplate>,
        variables: VariableLibraries,
    ) -> (r: Result<SituationLibrary, LoadError>)
        ensures
            match r {
                Ok(lib) => lib.situations@ == work@ + family@ + public@ + party@ && lib.variables
                    == variables && lib.wf(),
                Err(_) => !situations_ok(work@ + family@ + public@ + party@),
            },
    {
        let ghost all = work@ + family@ + public@ + party@;
        let mut situations = work;
        let mut rest_family = family;
        let mut rest_public = public;
        let mut rest_party = party;
        situations.append(&mut rest_family);
        situations.append(&mut rest_public);
        situations.append(&mut rest_party);
        proof {
            assert(situations@ =~= all);
        }
        if situations.len() > MAX_SITUATIONS {
            return Err(LoadError::MalformedContent);
        }
        let mut ok = true;
        let mut i: usize = 0;
        while i < situations.len()
            invariant
                i <= situations@.len(),
                ok <==> forall|j: int| 0 <= j < i ==> #[trigger] situations@[j].wf(),
            decreases situations@.len() - i,
        {
            if !template_ok(&situations[i]) {
                ok = false;
            }
            i = i + 1;
        }
        if ok {
            Ok(SituationLibrary { situations, variables })
        } else {
            Err(LoadError::MalformedContent)
        }
    }
}

/// Runtime check matching `SituationTemplate::wf`.
fn template_ok(t: &SituationTemplate) -> (r: bool)
    ensures
        r == t.wf(),
{
    if t.fragments.openings.len() == 0 || t.fragments.conflicts.len() == 0
        || t.fragments.stakes.len() == 0 {
        return false;
    }
    let mut i: usize = 0;
    while i < t.choices.len()
        invariant
            i <= t.choices@.len(),
            t.fragments.wf(),
            forall|j: int| 0 <= j < i ==> #[trigger] t.choices@[j].wf(),
        decreases t.choices@.len() - i,
    {
        let c = &t.choices[i];
        if c.text_fragments.len() == 0 {
            proof {
                assert(!t.choices@[i as int].wf());
            }
            return false;
        }
        let b = &c.base_stats;
        if b.scs_change < -STAT_DELTA_BOUND || b.scs_change > STAT_DELTA_BOUND
            || b.finance_change < -STAT_DELTA_BOUND || b.finance_change > STAT_DELTA_BOUND
            || b.career_level_change < -STAT_DELTA_BOUND || b.career_level_change > STAT_DELTA_BOUND
            || b.guanxi_family_change < -STAT_DELTA_BOUND || b.guanxi_family_change
            > STAT_DELTA_BOUND || b.guanxi_network_change < -STAT_DELTA_BOUND
            || b.guanxi_network_change > STAT_DELTA_BOUND || b.guanxi_party_change
            < -STAT_DELTA_BOUND || b.guanxi_party_change > STAT_DELTA_BOUND {
            proof {
                assert(!t.choices@[i as int].wf());
            }
            return false;
        }
        i = i + 1;
    }
    true
}

impl EventDomain {
    /// Display label of the domain, as event titles show it.
    pub open spec fn spec_label(self) -> Seq<char> {
        match self {
            EventDomain::Family => "Family"@,
            EventDomain::Work => "Work"@,
            EventDomain::Public => "Public"@,
            EventDomain::Party => "Party"@,
        }
    }

    pub fn as_str(&self) -> (r: &'static str)
        ensures
            r@ == self.spec_label(),
    {
        match self {
            EventDomain::Family => "Family",
            EventDomain::Work => "Work",
            EventDomain::Public => "Public",
            EventDomain::Party => "Party",
        }
    }
}

impl Severity {
    /// Display label of the severity, as event titles show it.
    pub open spec fn spec_label(self) -> Seq<char> {
        match self {
            Severity::Low => "Low"@,
            Severity::Medium => "Medium"@,
            Severity::High => "High"@,
        }
    }

    pub fn as_str(&self) -> (r: &'static str)
        ensures
            r@ == self.spec_label(),
    {
        match self {
            Severity::Low => "Low",
            Severity::Medium => "Medium",
            Severity::High => "High",
        }
    }
}

impl ChoiceType {
    /// Label of the archetype, as generated result text names it.
    pub open spec fn spec_label(self) -> Seq<char> {
        match self {
            ChoiceType::Conform => "conform"@,
            ChoiceType::Resist => "resist"@,
            ChoiceType::Manipulate => "manipulate"@,
            ChoiceType::Ignore => "ignore"@,
        }
    }

    pub fn as_str(&self) -> (r: &'static str)
        ensures
            r@ == self.spec_label(),
    {
        match self {
            ChoiceType::Conform => "conform",
            ChoiceType::Resist => "resist",
            ChoiceType::Manipulate => "manipulate",
            ChoiceType::Ignore => "ignore",
        }
    }
}

} // verus!
