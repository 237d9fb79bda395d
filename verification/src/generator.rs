use vstd::prelude::*;
use vstd::string::StringExecFns;
use crate::game_data::{EventData, EventOption, EventOutcome};
use crate::library::{
    ChoiceArchetype, ChoiceType, EventDomain, NarrativeFragments, Severity, SituationLibrary,
    SituationTemplate, StatProfile, VariableLibraries,
};
use crate::player::PlayerSnapshot;
use crate::requirements::spec_meets_requirements;
use crate::requirements::player_meets_requirements;
use crate::risk_calculator::{calculate_risk, spec_risk};
use crate::rng::{new_weighted_index, sample_weighted_index, weight_sum, GameRng};
use crate::stat_calculator::{
    calculate_failure_stats, calculate_stats, lemma_scaled_delta_bound, spec_failure_stats,
    spec_stats,
};
use crate::text_assembly::{
    assemble_choice_text, assemble_description, assembled_base, substituted,
};

verus! {

/// A situation is close enough in tier: its range overlaps the player's tier
/// widened by one in both directions (floored at zero).
pub open spec fn tier_ok(s: SituationTemplate, tier: int) -> bool {
    s.tier_min as int <= tier + 1 && s.tier_max as int >= (if tier >= 1 {
        tier - 1
    } else {
        0
    })
}

/// The lowest life stage still eligible: the previous one, never below one.
pub open spec fn stage_floor(stage: int) -> int {
    if stage - 1 >= 1 {
        stage - 1
    } else {
        1
    }
}

/// A situation is close enough in life stage: the current or the immediately
/// preceding stage, never a future one.
pub open spec fn stage_ok(s: SituationTemplate, stage: int) -> bool {
    s.life_stage_min as int <= stage && s.life_stage_max as int >= stage_floor(stage)
}

/// The situation was not yet seen this session.
pub open spec fn not_encountered(s: SituationTemplate, history: Seq<String>) -> bool {
    forall|i: int| 0 <= i < history.len() ==> #[trigger] history[i]@ != s.id@
}

/// The situation's domain differs from the last two domains drawn.
pub open spec fn domain_ok(s: SituationTemplate, recent: Seq<EventDomain>) -> bool {
    (recent.len() >= 1 ==> s.domain != recent[0]) && (recent.len() >= 2 ==> s.domain != recent[1])
}

/// The filters that no wildcard ever lifts: tier and stage tolerance, and no
/// exact repeat within the session.
pub open spec fn base_eligible(s: SituationTemplate, p: PlayerSnapshot) -> bool {
    tier_ok(s, p.player_tier as int) && stage_ok(s, p.life_stage as int) && not_encountered(
        s,
        p.encounter_history@,
    )
}

/// Full candidate filter: the base filters, and the anti-repetition domain
/// filter unless this is a wildcard call.
pub open spec fn passes_filter(s: SituationTemplate, p: PlayerSnapshot, wildcard: bool) -> bool {
    base_eligible(s, p) && (wildcard || domain_ok(s, p.recent_event_domains@))
}

/// Selection weight: doubled for an exact tier match, doubled again for an
/// exact life-stage match.
pub open spec fn spec_weight(s: SituationTemplate, p: PlayerSnapshot) -> int {
    (if s.tier_min <= p.player_tier <= s.tier_max {
        2int
    } else {
        1int
    }) * (if s.life_stage_min <= p.life_stage <= s.life_stage_max {
        2int
    } else {
        1int
    })
}

/// Event title: the domain label and severity label in fixed dress.
pub open spec fn spec_title(domain: EventDomain, severity: Severity) -> Seq<char> {
    domain.spec_label() + " - "@ + severity.spec_label() + " Severity"@
}

/// Result text shown when a choice succeeds.
pub open spec fn spec_success_text(archetype: ChoiceType, scs_change: int) -> Seq<char> {
    "You chose to "@ + archetype.spec_label() + ". "@ + (if scs_change > 0 {
        "Things went well."@
    } else {
        "There were consequences."@
    })
}

/// Result text shown when a choice fails.
pub open spec fn spec_failure_text(archetype: ChoiceType) -> Seq<char> {
    "You chose to "@ + archetype.spec_label()
        + ", but it backfired. Things didn't go as planned."@
}

/// The outcome carrying a stat profile's six deltas.
pub open spec fn outcome_of(s: StatProfile) -> EventOutcome {
    EventOutcome {
        scs_change: s.scs_change,
        finance_change: s.finance_change,
        career_level_change: s.career_level_change,
        guanxi_family_change: s.guanxi_family_change,
        guanxi_network_change: s.guanxi_network_change,
        guanxi_party_change: s.guanxi_party_change,
    }
}

/// The description was assembled from the situation's fragments: one fragment
/// of each list, space-joined, then substituted against the word lists.
pub open spec fn description_of(
    d: Seq<char>,
    f: NarrativeFragments,
    v: VariableLibraries,
    tier: int,
) -> bool {
    exists|i: int, j: int, k: int|
        0 <= i < f.openings@.len() && 0 <= j < f.conflicts@.len() && 0 <= k < f.stakes@.len()
            && substituted(v, tier, assembled_base(f, i, j, k), d)
}

/// One resolved option was synthesized from one choice archetype of the
/// situation: authored choice text, the choice's own requirement table, the
/// exact risk formula, a coherently scaled success outcome with its amplified
/// inversion as failure outcome, and the archetype-named result texts.
pub open spec fn option_from_choice(
    o: EventOption,
    c: ChoiceArchetype,
    s: SituationTemplate,
    p: PlayerSnapshot,
) -> bool {
    &&& exists|k: int| 0 <= k < c.text_fragments@.len() && o.text@ == c.text_fragments@[k]@
    &&& o.requirements@ == c.requirements@
    &&& o.risk_chance as int == spec_risk(
        s.base_risk as int,
        c.risk_modifier as int,
        c.requirements@,
        p.spec_stats(),
    )
    &&& exists|v: int|
        800 <= v <= 1200 && o.success_outcome == outcome_of(
            spec_stats(c.base_stats, p.player_tier as int, s.severity, v),
        ) && o.failure_outcome == Some(
            outcome_of(
                spec_failure_stats(spec_stats(c.base_stats, p.player_tier as int, s.severity, v)),
            ),
        )
    &&& o.success_result@ == spec_success_text(c.archetype, o.success_outcome.scs_change as int)
    &&& o.failure_result@ == spec_failure_text(c.archetype)
}

/// The resolved options are exactly the situation's eligible choices, in
/// authored order: `picks` lists the indices of the choices whose
/// requirements the player meets, and option `j` was synthesized from choice
/// `picks[j]`.
pub open spec fn options_match_choices(
    options: Seq<EventOption>,
    s: SituationTemplate,
    p: PlayerSnapshot,
    picks: Seq<int>,
) -> bool {
    &&& options.len() == picks.len()
    &&& forall|j: int| 0 <= j < picks.len() ==> 0 <= #[trigger] picks[j] < s.choices@.len()
    &&& forall|j1: int, j2: int| 0 <= j1 < j2 < picks.len() ==> picks[j1] < picks[j2]
    &&& forall|j: int|
        0 <= j < picks.len() ==> spec_meets_requirements(
            p.spec_stats(),
            s.choices@[#[trigger] picks[j]].requirements@,
        )
    &&& forall|c: int|
        0 <= c < s.choices@.len() && spec_meets_requirements(
            p.spec_stats(),
            #[trigger] s.choices@[c].requirements@,
        ) ==> picks.contains(c)
    &&& forall|j: int|
        0 <= j < picks.len() ==> option_from_choice(#[trigger] options[j], s.choices@[picks[j]], s, p)
}

/// The event's options stand for the situation's eligible choices, and at
/// least one choice survived.
pub open spec fn event_options_ok(options: Seq<EventOption>, s: SituationTemplate, p: PlayerSnapshot) -> bool {
    exists|picks: Seq<int>| #[trigger] options_match_choices(options, s, p, picks) && picks.len() > 0
}

/// The whole event was generated from this situation for this player: the
/// situation passed the candidate filter, the title and description come from
/// its domain, severity and fragments, its eligibility bounds and identity
/// ride along as provenance, and the options are its eligible choices.
pub open spec fn event_from(
    ev: EventData,
    s: SituationTemplate,
    lib: SituationLibrary,
    p: PlayerSnapshot,
    wildcard: bool,
) -> bool {
    &&& passes_filter(s, p, wildcard)
    &&& ev.title@ == spec_title(s.domain, s.severity)
    &&& description_of(ev.description@, s.fragments, lib.variables, p.player_tier as int)
    &&& ev.min_tier == s.tier_min
    &&& ev.max_tier == s.tier_max
    &&& ev.is_generic == false
    &&& ev.life_stage == p.life_stage
    &&& ev.procedural_id matches Some(id) && id@ == s.id@
    &&& ev.procedural_domain matches Some(d) && d@ == s.domain.spec_label()
    &&& event_options_ok(ev.options@, s, p)
}

/// A procedural event drawn from some situation of the library.
pub open spec fn procedural_event(
    ev: EventData,
    lib: SituationLibrary,
    p: PlayerSnapshot,
    wildcard: bool,
) -> bool {
    exists|si: int|
        0 <= si < lib.situations@.len() && #[trigger] event_from(
            ev,
            lib.situations@[si],
            lib,
            p,
            wildcard,
        )
}

/// The situation offers at least one choice the player qualifies for.
pub open spec fn has_eligible_choice(s: SituationTemplate, p: PlayerSnapshot) -> bool {
    exists|c: int|
        0 <= c < s.choices@.len() && spec_meets_requirements(
            p.spec_stats(),
            #[trigger] s.choices@[c].requirements@,
        )
}

/// Distinct domains carry distinct display labels.
proof fn lemma_domain_labels_distinct(a: EventDomain, b: EventDomain)
    requires
        a != b,
    ensures
        a.spec_label() != b.spec_label(),
{
    reveal_strlit("Family");
    reveal_strlit("Work");
    reveal_strlit("Public");
    reveal_strlit("Party");
    assert("Family"@.len() == 6 && "Family"@[0] == 'F');
    assert("Work"@.len() == 4 && "Work"@[0] == 'W');
    assert("Public"@.len() == 6 && "Public"@[0] == 'P');
    assert("Party"@.len() == 5 && "Party"@[0] == 'P');
}

/// The weighting law: a situation matching the player's tier and life stage
/// exactly always weighs four, while a situation missing either exact match
/// weighs at most two — a full match always outweighs a partial one in the
/// selection draw.
pub proof fn lemma_exact_match_weighs_most(s: SituationTemplate, p: PlayerSnapshot)
    ensures
        (s.tier_min <= p.player_tier <= s.tier_max && s.life_stage_min <= p.life_stage
            <= s.life_stage_max) ==> spec_weight(s, p) == 4,
        !(s.tier_min <= p.player_tier <= s.tier_max) ==> spec_weight(s, p) <= 2,
        !(s.life_stage_min <= p.life_stage <= s.life_stage_max) ==> spec_weight(s, p) <= 2,
        1 <= spec_weight(s, p) <= 4,
{
}

/// The anti-repetition law: an event that procedural generation produced on a
/// non-wildcard call never carries either of the two most recently drawn
/// domains.
pub proof fn lemma_non_wildcard_avoids_recent_domains(
    ev: EventData,
    lib: SituationLibrary,
    p: PlayerSnapshot,
)
    requires
        procedural_event(ev, lib, p, false),
    ensures
        ev.procedural_domain matches Some(d) ==> (p.recent_event_domains@.len() >= 1 ==> d@
            != p.recent_event_domains@[0].spec_label()) && (p.recent_event_domains@.len() >= 2
            ==> d@ != p.recent_event_domains@[1].spec_label()),
{
    let si = choose|si: int|
        0 <= si < lib.situations@.len() && #[trigger] event_from(
            ev,
            lib.situations@[si],
            lib,
            p,
            false,
        );
    let s = lib.situations@[si];
    if p.recent_event_domains@.len() >= 1 {
        lemma_domain_labels_distinct(s.domain, p.recent_event_domains@[0]);
    }
    if p.recent_event_domains@.len() >= 2 {
        lemma_domain_labels_distinct(s.domain, p.recent_event_domains@[1]);
    }
}

/// Attempts procedural generation for a fixed wildcard draw: filters the
/// library's situations by tier tolerance, life-stage tolerance, session
/// history, and (unless wildcard) recent domains; draws one candidate by
/// weighted selection; assembles the description, title and eligible choices.
/// Returns nothing when no candidate or no eligible choice survives.
pub fn generate_procedural_event_with_wildcard(
    player: &PlayerSnapshot,
    library: &SituationLibrary,
    allow_wildcard: bool,
    rng: &mut GameRng,
) -> (r: Option<EventData>)
    requires
        player.wf(),
        library.wf(),
    ensures
        r matches Some(ev) ==> procedural_event(ev, *library, *player, allow_wildcard),
        r matches Some(ev) ==> ev.options@.len() > 0 && forall|j: int|
            0 <= j < ev.options@.len() ==> spec_meets_requirements(
                player.spec_stats(),
                #[trigger] ev.options@[j].requirements@,
            ),
        (forall|i: int|
            0 <= i < library.situations@.len() ==> !passes_filter(
                #[trigger] library.situations@[i],
                *player,
                allow_wildcard,
            )) ==> r is None,
        ((exists|i: int|
            0 <= i < library.situations@.len() && passes_filter(
                #[trigger] library.situations@[i],
                *player,
                allow_wildcard,
            )) && (forall|i: int|
            0 <= i < library.situations@.len() && passes_filter(
                #[trigger] library.situations@[i],
                *player,
                allow_wildcard,
            ) ==> has_eligible_choice(library.situations@[i], *player))) ==> r is Some,
{
    let candidates = filter_situations(&library.situations, player, allow_wildcard);
    if candidates.len() == 0 {
        proof {
            if exists|i: int|
                0 <= i < library.situations@.len() && passes_filter(
                    #[trigger] library.situations@[i],
                    *player,
                    allow_wildcard,
                ) {
                let i = choose|i: int|
                    0 <= i < library.situations@.len() && passes_filter(
                        #[trigger] library.situations@[i],
                        *player,
                        allow_wildcard,
                    );
                assert(candidates@.contains(i as usize));
            }
        }
        return None;
    }
    let mut weights: Vec<u32> = Vec::new();
    let mut i: usize = 0;
    while i < candidates.len()
        invariant
            player.wf(),
            i <= candidates@.len(),
            weights@.len() == i,
            forall|j: int| 0 <= j < i ==> 1 <= #[trigger] weights@[j] <= 4,
            forall|j: int| 0 <= j < candidates@.len() ==> (#[trigger] candidates@[j]) < library.situations@.len(),
        decreases candidates@.len() - i,
    {
        let ci = candidates[i];
        let w = candidate_weight(&library.situations[ci], player);
        weights.push(w);
        i = i + 1;
    }
    proof {
        lemma_weight_sum_bounds(weights@, 1, 4);
        assert(weights@.len() == candidates@.len());
        assert(candidates@.len() <= library.situations@.len());
        assert(weight_sum(weights@) >= 1 * weights@.len());
        assert(weight_sum(weights@) <= 4 * weights@.len());
    }
    let dist = match new_weighted_index(&weights) {
        Some(d) => d,
        None => {
            return None;
        },
    };
    let pick = sample_weighted_index(&dist, rng);
    let si = candidates[pick];
    let sit = &library.situations[si];
    proof {
        assert(library.situations@[si as int].wf());
        assert(passes_filter(library.situations@[si as int], *player, allow_wildcard));
    }

    let description = assemble_description(&sit.fragments, &library.variables, player.player_tier, rng);

    let mut title = String::from_str(sit.domain.as_str());
    title.append(" - ");
    title.append(sit.severity.as_str());
    title.append(" Severity");

    let stats = player.stats();
    let mut options: Vec<EventOption> = Vec::new();
    let ghost mut picks: Seq<int> = Seq::empty();
    let mut c: usize = 0;
    while c < sit.choices.len()
        invariant
            player.wf(),
            c <= sit.choices@.len(),
            sit.wf(),
            stats == player.spec_stats(),
            options@.len() == picks.len(),
            forall|j: int| 0 <= j < picks.len() ==> 0 <= #[trigger] picks[j] < c,
            forall|j1: int, j2: int| 0 <= j1 < j2 < picks.len() ==> picks[j1] < picks[j2],
            forall|j: int|
                0 <= j < picks.len() ==> spec_meets_requirements(
                    player.spec_stats(),
                    sit.choices@[#[trigger] picks[j]].requirements@,
                ),
            forall|cc: int|
                0 <= cc < c && spec_meets_requirements(
                    player.spec_stats(),
                    #[trigger] sit.choices@[cc].requirements@,
                ) ==> picks.contains(cc),
            forall|j: int|
                0 <= j < picks.len() ==> option_from_choice(
                    #[trigger] options@[j],
                    sit.choices@[picks[j]],
                    *sit,
                    *player,
                ),
        decreases sit.choices@.len() - c,
    {
        let choice = &sit.choices[c];
        let ghost prev_picks = picks;
        if player_meets_requirements(&stats, &choice.requirements) {
            proof {
                assert(sit.choices@[c as int].wf());
            }
            let text = assemble_choice_text(&choice.text_fragments, rng);
            let success = calculate_stats(&choice.base_stats, player.player_tier, sit.severity, rng);
            proof {
                let v = choose|v: int|
                    800 <= v <= 1200 && success == spec_stats(
                        choice.base_stats,
                        player.player_tier as int,
                        sit.severity,
                        v,
                    );
                lemma_scaled_delta_bound(choice.base_stats.scs_change as int, player.player_tier as int, sit.severity, v);
                lemma_scaled_delta_bound(choice.base_stats.finance_change as int, player.player_tier as int, sit.severity, v);
                lemma_scaled_delta_bound(choice.base_stats.career_level_change as int, player.player_tier as int, sit.severity, v);
                lemma_scaled_delta_bound(choice.base_stats.guanxi_family_change as int, player.player_tier as int, sit.severity, v);
                lemma_scaled_delta_bound(choice.base_stats.guanxi_network_change as int, player.player_tier as int, sit.severity, v);
                lemma_scaled_delta_bound(choice.base_stats.guanxi_party_change as int, player.player_tier as int, sit.severity, v);
                assert(success.failure_safe());
            }
            let failure = calculate_failure_stats(&success);
            let risk = calculate_risk(sit.base_risk, choice.risk_modifier, &choice.requirements, &stats);

            let mut success_result = String::from_str("You chose to ");
            success_result.append(choice.archetype.as_str());
            success_result.append(". ");
            if success.scs_change > 0 {
                success_result.append("Things went well.");
            } else {
                success_result.append("There were consequences.");
            }
            let mut failure_result = String::from_str("You chose to ");
            failure_result.append(choice.archetype.as_str());
            failure_result.append(", but it backfired. Things didn't go as planned.");

            let opt = EventOption {
                text,
                requirements: crate::game_data::copy_requirements(&choice.requirements),
                risk_chance: risk,
                success_outcome: EventOutcome {
                    scs_change: success.scs_change,
                    finance_change: success.finance_change,
                    career_level_change: success.career_level_change,
                    guanxi_family_change: success.guanxi_family_change,
                    guanxi_network_change: success.guanxi_network_change,
                    guanxi_party_change: success.guanxi_party_change,
                },
                success_result,
                failure_outcome: Some(
                    EventOutcome {
                        scs_change: failure.scs_change,
                        finance_change: failure.finance_change,
                        career_level_change: failure.career_level_change,
                        guanxi_family_change: failure.guanxi_family_change,
                        guanxi_network_change: failure.guanxi_network_change,
                        guanxi_party_change: failure.guanxi_party_change,
                    },
                ),
                failure_result,
            };
            proof {
                assert(option_from_choice(opt, sit.choices@[c as int], *sit, *player));
            }
            options.push(opt);
            proof {
                picks = picks.push(c as int);
                assert forall|cc: int|
                    0 <= cc < c + 1 && spec_meets_requirements(
                        player.spec_stats(),
                        #[trigger] sit.choices@[cc].requirements@,
                    ) implies picks.contains(cc) by {
                    if cc < c {
                        let w = choose|w: int| 0 <= w < prev_picks.len() && prev_picks[w] == cc;
                        assert(picks[w] == cc);
                    } else {
                        assert(picks[picks.len() - 1] == cc);
                    }
                }
            }
        } else {
            proof {
                assert(!spec_meets_requirements(
                    player.spec_stats(),
                    sit.choices@[c as int].requirements@,
                ));
            }
        }
        c = c + 1;
    }
    if options.len() == 0 {
        proof {
            if has_eligible_choice(library.situations@[si as int], *player) {
                let ec = choose|ec: int|
                    0 <= ec < library.situations@[si as int].choices@.len()
                        && spec_meets_requirements(
                        player.spec_stats(),
                        #[trigger] library.situations@[si as int].choices@[ec].requirements@,
                    );
                assert(picks.contains(ec));
            }
        }
        return None;
    }
    let ev = EventData {
        title,
        description,
        options,
        min_tier: sit.tier_min,
        max_tier: sit.tier_max,
        is_generic: false,
        life_stage: player.life_stage,
        procedural_id: Some(sit.id.clone()),
        procedural_domain: Some(String::from_str(sit.domain.as_str())),
    };
    proof {
        assert(options_match_choices(ev.options@, library.situations@[si as int], *player, picks));
        assert(event_options_ok(ev.options@, library.situations@[si as int], *player));
        assert(event_from(ev, library.situations@[si as int], *library, *player, allow_wildcard));
        assert(procedural_event(ev, *library, *player, allow_wildcard));
        assert forall|j: int| 0 <= j < ev.options@.len() implies spec_meets_requirements(
            player.spec_stats(),
            #[trigger] ev.options@[j].requirements@,
        ) by {
            assert(option_from_choice(
                ev.options@[j],
                library.situations@[si as int].choices@[picks[j]],
                library.situations@[si as int],
                *player,
            ));
        }
    }
    Some(ev)
}

/// Generates one procedural event: draws the wildcard flag at its fixed one
/// in ten chance, then selects and assembles as the filter rules say. Returns
/// nothing when no candidate or no eligible choice survives, and always
/// nothing when no situation passes even the wildcard-relaxed filters.
pub fn generate_procedural_event(
    player: &PlayerSnapshot,
    library: &SituationLibrary,
    rng: &mut GameRng,
) -> (r: Option<EventData>)
    requires
        player.wf(),
        library.wf(),
    ensures
        r matches Some(ev) ==> procedural_event(ev, *library, *player, true),
        r matches Some(ev) ==> ev.options@.len() > 0 && forall|j: int|
            0 <= j < ev.options@.len() ==> spec_meets_requirements(
                player.spec_stats(),
                #[trigger] ev.options@[j].requirements@,
            ),
        (forall|i: int|
            0 <= i < library.situations@.len() ==> !base_eligible(
                #[trigger] library.situations@[i],
                *player,
            )) ==> r is None,
        ((exists|i: int|
            0 <= i < library.situations@.len() && passes_filter(
                #[trigger] library.situations@[i],
                *player,
                false,
            )) && (forall|i: int|
            0 <= i < library.situations@.len() && passes_filter(
                #[trigger] library.situations@[i],
                *player,
                true,
            ) ==> has_eligible_choice(library.situations@[i], *player))) ==> r is Some,
{
    let allow_wildcard = rng.below(10) == 0;
    let r = generate_procedural_event_with_wildcard(player, library, allow_wildcard, rng);
    proof {
        if (exists|i: int|
            0 <= i < library.situations@.len() && passes_filter(
                #[trigger] library.situations@[i],
                *player,
                false,
            )) && (forall|i: int|
            0 <= i < library.situations@.len() && passes_filter(
                #[trigger] library.situations@[i],
                *player,
                true,
            ) ==> has_eligible_choice(library.situations@[i], *player)) {
            let w = choose|w: int|
                0 <= w < library.situations@.len() && passes_filter(
                    #[trigger] library.situations@[w],
                    *player,
                    false,
                );
            assert(passes_filter(library.situations@[w], *player, allow_wildcard));
            assert forall|i: int|
                0 <= i < library.situations@.len() && passes_filter(
                    #[trigger] library.situations@[i],
                    *player,
                    allow_wildcard,
                ) implies has_eligible_choice(library.situations@[i], *player) by {
                assert(passes_filter(library.situations@[i], *player, true));
            }
        }
        if r is Some {
            let ev = r->Some_0;
            let si = choose|si: int|
                0 <= si < library.situations@.len() && #[trigger] event_from(
                    ev,
                    library.situations@[si],
                    *library,
                    *player,
                    allow_wildcard,
                );
            assert(event_from(ev, library.situations@[si], *library, *player, true));
            assert(procedural_event(ev, *library, *player, true));
        }
    }
    r
}

/// Indices of the situations that pass the candidate filter, in library
/// order.
fn filter_situations(
    situations: &Vec<SituationTemplate>,
    player: &PlayerSnapshot,
    allow_wildcard: bool,
) -> (r: Vec<usize>)
    requires
        player.wf(),
    ensures
        forall|j: int|
            0 <= j < r@.len() ==> (#[trigger] r@[j]) < situations@.len() && passes_filter(
                situations@[r@[j] as int],
                *player,
                allow_wildcard,
            ),
        forall|j1: int, j2: int| 0 <= j1 < j2 < r@.len() ==> r@[j1] < r@[j2],
        forall|i: int|
            0 <= i < situations@.len() && passes_filter(
                #[trigger] situations@[i],
                *player,
                allow_wildcard,
            ) ==> r@.contains(i as usize),
        r@.len() <= situations@.len(),
{
    let mut out: Vec<usize> = Vec::new();
    let mut i: usize = 0;
    while i < situations.len()
        invariant
            player.wf(),
            i <= situations@.len(),
            out@.len() <= i,
            forall|j: int|
                0 <= j < out@.len() ==> (#[trigger] out@[j]) < i && passes_filter(
                    situations@[out@[j] as int],
                    *player,
                    allow_wildcard,
                ),
            forall|j1: int, j2: int| 0 <= j1 < j2 < out@.len() ==> out@[j1] < out@[j2],
            forall|c: int|
                0 <= c < i && passes_filter(#[trigger] situations@[c], *player, allow_wildcard)
                    ==> out@.contains(c as usize),
        decreases situations@.len() - i,
    {
        let s = &situations[i];
        let tier = player.player_tier;
        let tier_fine = s.tier_min <= tier + 1 && s.tier_max >= (if tier >= 1 {
            tier - 1
        } else {
            0
        });
        let floor = if player.life_stage >= 2 {
            player.life_stage - 1
        } else {
            1
        };
        let stage_fine = s.life_stage_min <= player.life_stage && s.life_stage_max >= floor;
        let fresh = !contains_string(&player.encounter_history, &s.id);
        let recent = &player.recent_event_domains;
        let domain_fine = allow_wildcard || ((recent.len() < 1 || recent[0] != s.domain) && (
        recent.len() < 2 || recent[1] != s.domain));
        let ghost prev = out@;
        if tier_fine && stage_fine && fresh && domain_fine {
            out.push(i);
        }
        proof {
            if tier_fine && stage_fine && fresh && domain_fine {
                assert(passes_filter(situations@[i as int], *player, allow_wildcard));
                assert forall|c: int|
                    0 <= c < i + 1 && passes_filter(
                        #[trigger] situations@[c],
                        *player,
                        allow_wildcard,
                    ) implies out@.contains(c as usize) by {
                    if c < i {
                        let w = choose|w: int| 0 <= w < prev.len() && prev[w] == c as usize;
                        assert(out@[w] == c as usize);
                    } else {
                        assert(out@[out@.len() - 1] == c as usize);
                    }
                }
            } else {
                assert(!passes_filter(situations@[i as int], *player, allow_wildcard));
            }
        }
        i = i + 1;
    }
    out
}

/// Whether any entry of the id list equals the given id.
fn contains_string(list: &Vec<String>, id: &String) -> (r: bool)
    ensures
        r == exists|i: int| 0 <= i < list@.len() && #[trigger] list@[i]@ == id@,
{
    let mut i: usize = 0;
    while i < list.len()
        invariant
            i <= list@.len(),
            forall|j: int| 0 <= j < i ==> #[trigger] list@[j]@ != id@,
        decreases list@.len() - i,
    {
        if list[i] == *id {
            return true;
        }
        i = i + 1;
    }
    false
}

/// The selection weight of one candidate.
fn candidate_weight(s: &SituationTemplate, player: &PlayerSnapshot) -> (w: u32)
    ensures
        w as int == spec_weight(*s, *player),
        1 <= w <= 4,
{
    let mut w: u32 = 1;
    if s.tier_min <= player.player_tier && player.player_tier <= s.tier_max {
        w = w * 2;
    }
    if s.life_stage_min <= player.life_stage && player.life_stage <= s.life_stage_max {
        w = w * 2;
    }
    w
}

/// A table of weights each in [lo, hi] sums within [lo*n, hi*n].
proof fn lemma_weight_sum_bounds(weights: Seq<u32>, lo: int, hi: int)
    requires
        forall|i: int| 0 <= i < weights.len() ==> lo <= #[trigger] weights[i] <= hi,
        0 <= lo <= hi,
    ensures
        lo * weights.len() <= weight_sum(weights) <= hi * weights.len(),
    decreases weights.len(),
{
    if weights.len() == 0 {
    } else {
        lemma_weight_sum_bounds(weights.drop_last(), lo, hi);
        assert(lo * weights.len() == lo * (weights.len() - 1) + lo) by (nonlinear_arith);
        assert(hi * weights.len() == hi * (weights.len() - 1) + hi) by (nonlinear_arith);
    }
}

} // verus!
