use vstd::prelude::*;
use vstd::string::StringExecFns;
use crate::library::{NarrativeFragments, TierWords, VariableLibraries};
use crate::rng::GameRng;
use crate::strings::{contains_pat, spec_replace, str_contains, str_replace};

verus! {

/// How many named word lists the substitution pass walks, in authored order.
pub const SUBST_COUNT: usize = 56;

/// The tier whose descriptor list stands in when the player's exact tier has
/// none.
pub const DEFAULT_DESCRIPTOR_TIER: usize = 2;

/// The placeholder token handled at position `i` of the substitution pass.
pub open spec fn table_placeholder(i: int) -> Seq<char> {
    if i == 0 { "{excuse}"@ }
    else if i == 1 { "{work_time}"@ }
    else if i == 2 { "{work_colleague}"@ }
    else if i == 3 { "{work_day}"@ }
    else if i == 4 { "{work_obligation}"@ }
    else if i == 5 { "{work_record}"@ }
    else if i == 6 { "{overtime_period}"@ }
    else if i == 7 { "{work_project}"@ }
    else if i == 8 { "{safety_violation}"@ }
    else if i == 9 { "{political_metric}"@ }
    else if i == 10 { "{monitoring_target}"@ }
    else if i == 11 { "{political_team_activity}"@ }
    else if i == 12 { "{work_mistake}"@ }
    else if i == 13 { "{bribe_amount}"@ }
    else if i == 14 { "{work_decision}"@ }
    else if i == 15 { "{relationship_type}"@ }
    else if i == 16 { "{parent_type}"@ }
    else if i == 17 { "{sibling_type}"@ }
    else if i == 18 { "{relative_type}"@ }
    else if i == 19 { "{small_amount}"@ }
    else if i == 20 { "{medium_amount}"@ }
    else if i == 21 { "{large_amount}"@ }
    else if i == 22 { "{time_period}"@ }
    else if i == 23 { "{authority_figure}"@ }
    else if i == 24 { "{infraction}"@ }
    else if i == 25 { "{unpractical_subject}"@ }
    else if i == 26 { "{practical_subject}"@ }
    else if i == 27 { "{personal_topic}"@ }
    else if i == 28 { "{successful_relative}"@ }
    else if i == 29 { "{unsuitable_match}"@ }
    else if i == 30 { "{political_topic}"@ }
    else if i == 31 { "{day_time}"@ }
    else if i == 32 { "{time_duration}"@ }
    else if i == 33 { "{party_observer}"@ }
    else if i == 34 { "{membership_level}"@ }
    else if i == 35 { "{party_official}"@ }
    else if i == 36 { "{controversial_topic}"@ }
    else if i == 37 { "{denouncement_target}"@ }
    else if i == 38 { "{political_crime}"@ }
    else if i == 39 { "{volunteer_activity}"@ }
    else if i == 40 { "{party_elite}"@ }
    else if i == 41 { "{favor_request}"@ }
    else if i == 42 { "{propaganda_campaign}"@ }
    else if i == 43 { "{propaganda_activity}"@ }
    else if i == 44 { "{stranger_type}"@ }
    else if i == 45 { "{small_favor}"@ }
    else if i == 46 { "{public_place}"@ }
    else if i == 47 { "{appointment_type}"@ }
    else if i == 48 { "{public_violation}"@ }
    else if i == 49 { "{violation_perpetrator}"@ }
    else if i == 50 { "{public_service}"@ }
    else if i == 51 { "{queue_jumper}"@ }
    else if i == 52 { "{public_transport}"@ }
    else if i == 53 { "{seat_requester}"@ }
    else if i == 54 { "{suspicious_behavior}"@ }
    else { "{survey_topic}"@ }
}

/// The word list consulted at position `i` of the substitution pass.
pub open spec fn table_words(v: VariableLibraries, i: int) -> Seq<String> {
    if i == 0 { v.excuse_library@ }
    else if i == 1 { v.work_time@ }
    else if i == 2 { v.work_colleague@ }
    else if i == 3 { v.work_day@ }
    else if i == 4 { v.work_obligation@ }
    else if i == 5 { v.work_record@ }
    else if i == 6 { v.overtime_period@ }
    else if i == 7 { v.work_project@ }
    else if i == 8 { v.safety_violation@ }
    else if i == 9 { v.political_metric@ }
    else if i == 10 { v.monitoring_target@ }
    else if i == 11 { v.political_team_activity@ }
    else if i == 12 { v.work_mistake@ }
    else if i == 13 { v.bribe_amount@ }
    else if i == 14 { v.work_decision@ }
    else if i == 15 { v.relationship_types@ }
    else if i == 16 { v.parent_type@ }
    else if i == 17 { v.sibling_type@ }
    else if i == 18 { v.relative_type@ }
    else if i == 19 { v.small_amount@ }
    else if i == 20 { v.medium_amount@ }
    else if i == 21 { v.large_amount@ }
    else if i == 22 { v.time_period@ }
    else if i == 23 { v.authority_figure@ }
    else if i == 24 { v.infraction@ }
    else if i == 25 { v.unpractical_subject@ }
    else if i == 26 { v.practical_subject@ }
    else if i == 27 { v.personal_topic@ }
    else if i == 28 { v.successful_relative@ }
    else if i == 29 { v.unsuitable_match@ }
    else if i == 30 { v.political_topic@ }
    else if i == 31 { v.day_time@ }
    else if i == 32 { v.time_duration@ }
    else if i == 33 { v.party_observer@ }
    else if i == 34 { v.membership_level@ }
    else if i == 35 { v.party_official@ }
    else if i == 36 { v.controversial_topic@ }
    else if i == 37 { v.denouncement_target@ }
    else if i == 38 { v.political_crime@ }
    else if i == 39 { v.volunteer_activity@ }
    else if i == 40 { v.party_elite@ }
    else if i == 41 { v.favor_request@ }
    else if i == 42 { v.propaganda_campaign@ }
    else if i == 43 { v.propaganda_activity@ }
    else if i == 44 { v.stranger_type@ }
    else if i == 45 { v.small_favor@ }
    else if i == 46 { v.public_place@ }
    else if i == 47 { v.appointment_type@ }
    else if i == 48 { v.public_violation@ }
    else if i == 49 { v.violation_perpetrator@ }
    else if i == 50 { v.public_service@ }
    else if i == 51 { v.queue_jumper@ }
    else if i == 52 { v.public_transport@ }
    else if i == 53 { v.seat_requester@ }
    else if i == 54 { v.suspicious_behavior@ }
    else { v.survey_topic@ }
}

fn nth_placeholder(i: usize) -> (r: &'static str)
    requires
        i < SUBST_COUNT,
    ensures
        r@ == table_placeholder(i as int),
        r@.len() > 0,
{
    let r = match i {
        0 => "{excuse}",
        1 => "{work_time}",
        2 => "{work_colleague}",
        3 => "{work_day}",
        4 => "{work_obligation}",
        5 => "{work_record}",
        6 => "{overtime_period}",
        7 => "{work_project}",
        8 => "{safety_violation}",
        9 => "{political_metric}",
        10 => "{monitoring_target}",
        11 => "{political_team_activity}",
        12 => "{work_mistake}",
        13 => "{bribe_amount}",
        14 => "{work_decision}",
        15 => "{relationship_type}",
        16 => "{parent_type}",
        17 => "{sibling_type}",
        18 => "{relative_type}",
        19 => "{small_amount}",
        20 => "{medium_amount}",
        21 => "{large_amount}",
        22 => "{time_period}",
        23 => "{authority_figure}",
        24 => "{infraction}",
        25 => "{unpractical_subject}",
        26 => "{practical_subject}",
        27 => "{personal_topic}",
        28 => "{successful_relative}",
        29 => "{unsuitable_match}",
        30 => "{political_topic}",
        31 => "{day_time}",
        32 => "{time_duration}",
        33 => "{party_observer}",
        34 => "{membership_level}",
        35 => "{party_official}",
        36 => "{controversial_topic}",
        37 => "{denouncement_target}",
        38 => "{political_crime}",
        39 => "{volunteer_activity}",
        40 => "{party_elite}",
        41 => "{favor_request}",
        42 => "{propaganda_campaign}",
        43 => "{propaganda_activity}",
        44 => "{stranger_type}",
        45 => "{small_favor}",
        46 => "{public_place}",
        47 => "{appointment_type}",
        48 => "{public_violation}",
        49 => "{violation_perpetrator}",
        50 => "{public_service}",
        51 => "{queue_jumper}",
        52 => "{public_transport}",
        53 => "{seat_requester}",
        54 => "{suspicious_behavior}",
        _ => "{survey_topic}",
    };
    proof {
        reveal_strlit("{excuse}");
        reveal_strlit("{work_time}");
        reveal_strlit("{work_colleague}");
        reveal_strlit("{work_day}");
        reveal_strlit("{work_obligation}");
        reveal_strlit("{work_record}");
        reveal_strlit("{overtime_period}");
        reveal_strlit("{work_project}");
        reveal_strlit("{safety_violation}");
        reveal_strlit("{political_metric}");
        reveal_strlit("{monitoring_target}");
        reveal_strlit("{political_team_activity}");
        reveal_strlit("{work_mistake}");
        reveal_strlit("{bribe_amount}");
        reveal_strlit("{work_decision}");
        reveal_strlit("{relationship_type}");
        reveal_strlit("{parent_type}");
        reveal_strlit("{sibling_type}");
        reveal_strlit("{relative_type}");
        reveal_strlit("{small_amount}");
        reveal_strlit("{medium_amount}");
        reveal_strlit("{large_amount}");
        reveal_strlit("{time_period}");
        reveal_strlit("{authority_figure}");
        reveal_strlit("{infraction}");
        reveal_strlit("{unpractical_subject}");
        reveal_strlit("{practical_subject}");
        reveal_strlit("{personal_topic}");
        reveal_strlit("{successful_relative}");
        reveal_strlit("{unsuitable_match}");
        reveal_strlit("{political_topic}");
        reveal_strlit("{day_time}");
        reveal_strlit("{time_duration}");
        reveal_strlit("{party_observer}");
        reveal_strlit("{membership_level}");
        reveal_strlit("{party_official}");
        reveal_strlit("{controversial_topic}");
        reveal_strlit("{denouncement_target}");
        reveal_strlit("{political_crime}");
        reveal_strlit("{volunteer_activity}");
        reveal_strlit("{party_elite}");
        reveal_strlit("{favor_request}");
        reveal_strlit("{propaganda_campaign}");
        reveal_strlit("{propaganda_activity}");
        reveal_strlit("{stranger_type}");
        reveal_strlit("{small_favor}");
        reveal_strlit("{public_place}");
        reveal_strlit("{appointment_type}");
        reveal_strlit("{public_violation}");
        reveal_strlit("{violation_perpetrator}");
        reveal_strlit("{public_service}");
        reveal_strlit("{queue_jumper}");
        reveal_strlit("{public_transport}");
        reveal_strlit("{seat_requester}");
        reveal_strlit("{suspicious_behavior}");
        reveal_strlit("{survey_topic}");
    }
    r
}

fn nth_words<'a>(v: &'a VariableLibraries, i: usize) -> (r: &'a Vec<String>)
    requires
        i < SUBST_COUNT,
    ensures
        r@ == table_words(*v, i as int),
{
    match i {
        0 => &v.excuse_library,
        1 => &v.work_time,
        2 => &v.work_colleague,
        3 => &v.work_day,
        4 => &v.work_obligation,
        5 => &v.work_record,
        6 => &v.overtime_period,
        7 => &v.work_project,
        8 => &v.safety_violation,
        9 => &v.political_metric,
        10 => &v.monitoring_target,
        11 => &v.political_team_activity,
        12 => &v.work_mistake,
        13 => &v.bribe_amount,
        14 => &v.work_decision,
        15 => &v.relationship_types,
        16 => &v.parent_type,
        17 => &v.sibling_type,
        18 => &v.relative_type,
        19 => &v.small_amount,
        20 => &v.medium_amount,
        21 => &v.large_amount,
        22 => &v.time_period,
        23 => &v.authority_figure,
        24 => &v.infraction,
        25 => &v.unpractical_subject,
        26 => &v.practical_subject,
        27 => &v.personal_topic,
        28 => &v.successful_relative,
        29 => &v.unsuitable_match,
        30 => &v.political_topic,
        31 => &v.day_time,
        32 => &v.time_duration,
        33 => &v.party_observer,
        34 => &v.membership_level,
        35 => &v.party_official,
        36 => &v.controversial_topic,
        37 => &v.denouncement_target,
        38 => &v.political_crime,
        39 => &v.volunteer_activity,
        40 => &v.party_elite,
        41 => &v.favor_request,
        42 => &v.propaganda_campaign,
        43 => &v.propaganda_activity,
        44 => &v.stranger_type,
        45 => &v.small_favor,
        46 => &v.public_place,
        47 => &v.appointment_type,
        48 => &v.public_violation,
        49 => &v.violation_perpetrator,
        50 => &v.public_service,
        51 => &v.queue_jumper,
        52 => &v.public_transport,
        53 => &v.seat_requester,
        54 => &v.suspicious_behavior,
        _ => &v.survey_topic,
    }
}

/// One pass of the substitution walk: if the list at position `i` is
/// non-empty and its placeholder occurs in the text, the text with every
/// occurrence replaced by one list member; otherwise the text unchanged.
pub open spec fn subst_step(v: VariableLibraries, t: Seq<char>, i: int, out: Seq<char>) -> bool {
    let pat = table_placeholder(i);
    let words = table_words(v, i);
    if words.len() > 0 && contains_pat(t, pat) {
        exists|k: int| 0 <= k < words.len() && out == spec_replace(t, pat, words[k]@)
    } else {
        out == t
    }
}

/// A record of the whole substitution walk: position `i` holds the text
/// before pass `i`, the last position the finished text.
pub open spec fn subst_trace(v: VariableLibraries, steps: Seq<Seq<char>>) -> bool {
    steps.len() == SUBST_COUNT + 1 && forall|i: int|
        0 <= i < SUBST_COUNT ==> subst_step(v, #[trigger] steps[i], i, steps[i + 1])
}

/// First entry of the descriptor table with the given tier, if any.
pub open spec fn tier_lookup(entries: Seq<TierWords>, tier: int) -> Option<Seq<String>>
    decreases entries.len(),
{
    if entries.len() == 0 {
        None
    } else if entries[0].tier as int == tier {
        Some(entries[0].words@)
    } else {
        tier_lookup(entries.skip(1), tier)
    }
}

/// The descriptor list the tier-aware placeholder draws from: the player's
/// tier if the table has it, else the fixed default tier's list.
pub open spec fn descriptor_words(v: VariableLibraries, tier: int) -> Option<Seq<String>> {
    match tier_lookup(v.colleague_descriptors@, tier) {
        Some(w) => Some(w),
        None => tier_lookup(v.colleague_descriptors@, DEFAULT_DESCRIPTOR_TIER as int),
    }
}

/// The tier-aware pass: the colleague-descriptor placeholder replaced by one
/// word of the tier's list when the token occurs and a non-empty list exists;
/// otherwise the text unchanged (a missing list never faults).
pub open spec fn descriptor_step(v: VariableLibraries, tier: int, t: Seq<char>, out: Seq<char>) -> bool {
    let pat = "{colleague_descriptor}"@;
    match descriptor_words(v, tier) {
        Some(w) => {
            if contains_pat(t, pat) && w.len() > 0 {
                exists|k: int| 0 <= k < w.len() && out == spec_replace(t, pat, w[k]@)
            } else {
                out == t
            }
        },
        None => out == t,
    }
}

/// The full substitution relation between raw assembled text and its
/// reading-ready form: the tier-aware pass, then the named-list walk.
pub open spec fn substituted(v: VariableLibraries, tier: int, t0: Seq<char>, out: Seq<char>) -> bool {
    exists|steps: Seq<Seq<char>>|
        #[trigger] subst_trace(v, steps) && descriptor_step(v, tier, t0, steps[0])
            && steps.last() == out
}

fn lookup_tier<'a>(entries: &'a Vec<TierWords>, tier: usize) -> (r: Option<&'a Vec<String>>)
    ensures
        match r {
            Some(w) => tier_lookup(entries@, tier as int) == Some(w@),
            None => tier_lookup(entries@, tier as int) is None,
        },
{
    let mut i: usize = 0;
    proof {
        assert(entries@.skip(0) =~= entries@);
    }
    while i < entries.len()
        invariant
            i <= entries@.len(),
            tier_lookup(entries@, tier as int) == tier_lookup(
                entries@.skip(i as int),
                tier as int,
            ),
        decreases entries@.len() - i,
    {
        proof {
            assert(entries@.skip(i as int)[0] == entries@[i as int]);
            assert(entries@.skip(i as int).skip(1) =~= entries@.skip(i as int + 1));
        }
        if entries[i].tier == tier {
            return Some(&entries[i].words);
        }
        i = i + 1;
    }
    proof {
        assert(entries@.skip(entries@.len() as int).len() == 0);
    }
    None
}

/// Replaces every `{placeholder}` token that occurs in the text with a random
/// member of its named word list; the tier-aware colleague descriptor is
/// resolved first, against the player's tier with a fixed fallback tier. A
/// token whose list is missing or empty stays in place, and a list whose
/// token does not occur costs no random draw.
pub fn substitute_variables(
    text: String,
    variables: &VariableLibraries,
    player_tier: usize,
    rng: &mut GameRng,
) -> (r: String)
    ensures
        substituted(*variables, player_tier as int, text@, r@),
{
    let ghost t0 = text@;
    let mut t = text;

    proof {
        reveal_strlit("{colleague_descriptor}");
    }
    if str_contains(t.as_str(), "{colleague_descriptor}") {
        let found = lookup_tier(&variables.colleague_descriptors, player_tier);
        let words = match found {
            Some(w) => Some(w),
            None => lookup_tier(&variables.colleague_descriptors, DEFAULT_DESCRIPTOR_TIER),
        };
        if let Some(w) = words {
            if w.len() > 0 {
                let k = rng.below(w.len());
                t = str_replace(t.as_str(), "{colleague_descriptor}", w[k].as_str());
            }
        }
    }
    proof {
        assert(descriptor_step(*variables, player_tier as int, t0, t@));
    }
    let ghost t1 = t@;
    let ghost mut steps: Seq<Seq<char>> = seq![t1];

    let mut i: usize = 0;
    while i < SUBST_COUNT
        invariant
            i <= SUBST_COUNT,
            steps.len() == i + 1,
            steps[0] == t1,
            steps[i as int] == t@,
            forall|j: int|
                0 <= j < i ==> subst_step(*variables, #[trigger] steps[j], j, steps[j + 1]),
        decreases SUBST_COUNT - i,
    {
        let ghost before = t@;
        let pat = nth_placeholder(i);
        let words = nth_words(variables, i);
        if words.len() > 0 && str_contains(t.as_str(), pat) {
            let k = rng.below(words.len());
            t = str_replace(t.as_str(), pat, words[k].as_str());
        }
        proof {
            assert(subst_step(*variables, before, i as int, t@));
            steps = steps.push(t@);
        }
        i = i + 1;
    }
    proof {
        assert(subst_trace(*variables, steps));
        assert(steps.last() == t@);
        assert(substituted(*variables, player_tier as int, t0, t@));
    }
    t
}

/// One fragment of each of the three lists, in order, space-joined; the raw
/// description before substitution.
pub open spec fn assembled_base(f: NarrativeFragments, i: int, j: int, k: int) -> Seq<char> {
    f.openings@[i]@ + " "@ + f.conflicts@[j]@ + " "@ + f.stakes@[k]@
}

/// Assembles a description: one random opening, conflict and stake fragment,
/// space-joined in that fixed order, then placeholder substitution against
/// the word lists, tier-aware for the colleague descriptor.
pub fn assemble_description(
    fragments: &NarrativeFragments,
    variables: &VariableLibraries,
    player_tier: usize,
    rng: &mut GameRng,
) -> (r: String)
    requires
        fragments.wf(),
    ensures
        exists|i: int, j: int, k: int|
            0 <= i < fragments.openings@.len() && 0 <= j < fragments.conflicts@.len() && 0 <= k
                < fragments.stakes@.len() && substituted(
                *variables,
                player_tier as int,
                assembled_base(*fragments, i, j, k),
                r@,
            ),
{
    let i = rng.below(fragments.openings.len());
    let j = rng.below(fragments.conflicts.len());
    let k = rng.below(fragments.stakes.len());
    let mut base = fragments.openings[i].clone();
    base.append(" ");
    base.append(fragments.conflicts[j].as_str());
    base.append(" ");
    base.append(fragments.stakes[k].as_str());
    proof {
        assert(base@ == assembled_base(*fragments, i as int, j as int, k as int));
    }
    let r = substitute_variables(base, variables, player_tier, rng);
    proof {
        assert(substituted(
            *variables,
            player_tier as int,
            assembled_base(*fragments, i as int, j as int, k as int),
            r@,
        ));
    }
    r
}

/// Picks one of a choice's authored text fragments, unchanged: choice text is
/// not substituted.
pub fn assemble_choice_text(text_fragments: &Vec<String>, rng: &mut GameRng) -> (r: String)
    requires
        text_fragments@.len() > 0,
    ensures
        exists|k: int| 0 <= k < text_fragments@.len() && r@ == text_fragments@[k]@,
{
    let k = rng.below(text_fragments.len());
    text_fragments[k].clone()
}

} // verus!
