use vstd::prelude::*;
use vstd::string::StringExecFns;
use crate::game_data::{clone_option, same_option, EventData, EventOption, EventOutcome};
use crate::player::PlayerSnapshot;
use crate::requirements::{player_meets_requirements, spec_meets_requirements};
use crate::risk_calculator::PlayerStats;
use crate::rng::GameRng;
use crate::strings::{spec_decimal, usize_to_decimal};

verus! {

/// The handcrafted events reachable at one (life stage, tier) key: indices
/// into the event database, split into tier-specific and generic lists.
#[derive(Debug)]
pub struct FallbackEntry {
    pub life_stage: usize,
    pub tier: usize,
    pub tier_specific: Vec<usize>,
    pub generic: Vec<usize>,
}

/// The precomputed (life stage, tier) index over the handcrafted event list.
#[derive(Debug)]
pub struct FallbackIndex {
    pub entries: Vec<FallbackEntry>,
}

/// First entry with the given key, if any.
pub open spec fn entry_lookup(entries: Seq<FallbackEntry>, stage: int, tier: int) -> Option<
    FallbackEntry,
>
    decreases entries.len(),
{
    if entries.len() == 0 {
        None
    } else if entries[0].life_stage as int == stage && entries[0].tier as int == tier {
        Some(entries[0])
    } else {
        entry_lookup(entries.skip(1), stage, tier)
    }
}

/// The tier-specific indices filed under one key; empty when the key is
/// absent.
pub open spec fn spec_tier_specific(idx: FallbackIndex, stage: int, tier: int) -> Seq<usize> {
    match entry_lookup(idx.entries@, stage, tier) {
        Some(e) => e.tier_specific@,
        None => Seq::empty(),
    }
}

/// The generic indices filed under one key; empty when the key is absent.
pub open spec fn spec_generic(idx: FallbackIndex, stage: int, tier: int) -> Seq<usize> {
    match entry_lookup(idx.entries@, stage, tier) {
        Some(e) => e.generic@,
        None => Seq::empty(),
    }
}

/// The generic indices of all strictly earlier life stages at the same tier,
/// assembled most recent stage first. The earlier stages form one pool and
/// the draw is uniform over it, rather than preferring the nearest stage that
/// has content: the fallback guarantee demands only that the result comes
/// from this pool, and the stage order fixes how it is assembled.
pub open spec fn past_generic(idx: FallbackIndex, stage: int, tier: int) -> Seq<usize>
    decreases stage,
    when stage >= 0
{
    if stage <= 1 {
        Seq::empty()
    } else {
        spec_generic(idx, stage - 1, tier) + past_generic(idx, stage - 1, tier)
    }
}

impl FallbackIndex {
    /// No two entries share a key.
    pub open spec fn unique_keys(self) -> bool {
        forall|a: int, b: int|
            0 <= a < b < self.entries@.len() ==> !(#[trigger] self.entries@[a].life_stage
                == #[trigger] self.entries@[b].life_stage && self.entries@[a].tier
                == self.entries@[b].tier)
    }

    /// Every filed index points into the database.
    pub open spec fn wf(self, db: Seq<EventData>) -> bool {
        forall|k: int|
            0 <= k < self.entries@.len() ==> #[trigger] entry_in_bounds(
                self.entries@[k],
                db.len() as int,
            )
    }
}

/// Every index of one entry points into the database.
pub open spec fn entry_in_bounds(e: FallbackEntry, n: int) -> bool {
    (forall|j: int| 0 <= j < e.tier_specific@.len() ==> (#[trigger] e.tier_specific@[j]) < n)
        && (forall|j: int| 0 <= j < e.generic@.len() ==> (#[trigger] e.generic@[j]) < n)
}

/// What `entry_lookup` finds: the returned entry carries the key and sits in
/// the sequence, and a miss means no entry carries the key.
pub proof fn lemma_entry_lookup(entries: Seq<FallbackEntry>, stage: int, tier: int)
    ensures
        match entry_lookup(entries, stage, tier) {
            Some(e) => e.life_stage as int == stage && e.tier as int == tier && exists|k: int|
                0 <= k < entries.len() && entries[k] == e,
            None => forall|k: int|
                0 <= k < entries.len() ==> !((#[trigger] entries[k]).life_stage as int == stage
                    && entries[k].tier as int == tier),
        },
    decreases entries.len(),
{
    if entries.len() == 0 {
    } else if entries[0].life_stage as int == stage && entries[0].tier as int == tier {
        assert(entries[0] == entries[0]);
    } else {
        lemma_entry_lookup(entries.skip(1), stage, tier);
        match entry_lookup(entries.skip(1), stage, tier) {
            Some(e) => {
                let k = choose|k: int|
                    0 <= k < entries.skip(1).len() && entries.skip(1)[k] == e;
                assert(entries[k + 1] == e);
            },
            None => {
                assert forall|k: int|
                    0 <= k < entries.len() implies !((#[trigger] entries[k]).life_stage as int
                    == stage && entries[k].tier as int == tier) by {
                    if k >= 1 {
                        assert(entries.skip(1)[k - 1] == entries[k]);
                    }
                }
            },
        }
    }
}

/// The resolved options are exactly the template's options whose requirements
/// the player meets, in authored order, content-equal.
pub open spec fn options_filtered(
    out: Seq<EventOption>,
    src: Seq<EventOption>,
    p: PlayerStats,
    picks: Seq<int>,
) -> bool {
    &&& out.len() == picks.len()
    &&& forall|j: int| 0 <= j < picks.len() ==> 0 <= #[trigger] picks[j] < src.len()
    &&& forall|j1: int, j2: int| 0 <= j1 < j2 < picks.len() ==> picks[j1] < picks[j2]
    &&& forall|j: int|
        0 <= j < picks.len() ==> spec_meets_requirements(p, src[#[trigger] picks[j]].requirements@)
    &&& forall|c: int|
        0 <= c < src.len() && spec_meets_requirements(p, #[trigger] src[c].requirements@)
            ==> picks.contains(c)
    &&& forall|j: int| 0 <= j < picks.len() ==> same_option(#[trigger] out[j], src[picks[j]])
}

/// Some pick list witnesses the filtering.
pub open spec fn options_filtered_some(out: Seq<EventOption>, src: Seq<EventOption>, p: PlayerStats) -> bool {
    exists|picks: Seq<int>| #[trigger] options_filtered(out, src, p, picks)
}

/// The resolved event carries the chosen handcrafted template's text, its
/// life stage and the eligibility bounds it was drawn from, with its options
/// filtered by the player's stats; no procedural provenance is attached.
pub open spec fn fallback_from_template(ev: EventData, t: EventData, p: PlayerSnapshot) -> bool {
    &&& ev.title@ == t.title@
    &&& ev.description@ == t.description@
    &&& options_filtered_some(ev.options@, t.options@, p.spec_stats())
    &&& ev.min_tier == t.min_tier
    &&& ev.max_tier == t.max_tier
    &&& ev.is_generic == false
    &&& ev.life_stage == t.life_stage
    &&& ev.procedural_id is None
    &&& ev.procedural_domain is None
}

/// The terminal diagnostic event: a content-authoring gap, never a fault. It
/// always offers one no-op choice.
pub open spec fn diagnostic_event(ev: EventData, p: PlayerSnapshot) -> bool {
    &&& ev.title@ == "No Event Found!"@
    &&& ev.description@ == "Error: No events found for player tier "@ + spec_decimal(
        p.player_tier as int,
    ) + " and life stage "@ + spec_decimal(p.life_stage as int)
        + ". Please check events.json."@
    &&& ev.options@.len() == 1
    &&& ev.options@[0].text@ == "Continue"@
    &&& ev.options@[0].requirements@.len() == 0
    &&& ev.options@[0].risk_chance == 0
    &&& ev.options@[0].success_outcome == EventOutcome::spec_zero()
    &&& ev.options@[0].success_result@.len() == 0
    &&& ev.options@[0].failure_outcome is None
    &&& ev.options@[0].failure_result@.len() == 0
    &&& ev.min_tier == 0
    &&& ev.max_tier == 99
    &&& ev.is_generic == true
    &&& ev.life_stage == 0
    &&& ev.procedural_id is None
    &&& ev.procedural_domain is None
}

/// The fallback resolution rule: tier-specific events of the current key
/// first, then generic ones, then generic events of strictly earlier stages,
/// and the diagnostic placeholder only when all three pools are empty.
pub open spec fn fallback_event(
    ev: EventData,
    db: Seq<EventData>,
    idx: FallbackIndex,
    p: PlayerSnapshot,
) -> bool {
    let stage = p.life_stage as int;
    let tier = p.player_tier as int;
    let ts = spec_tier_specific(idx, stage, tier);
    let gen = spec_generic(idx, stage, tier);
    let past = past_generic(idx, stage, tier);
    if ts.len() > 0 {
        exists|k: int| 0 <= k < ts.len() && fallback_from_template(ev, db[#[trigger] ts[k] as int], p)
    } else if gen.len() > 0 {
        exists|k: int| 0 <= k < gen.len() && fallback_from_template(ev, db[#[trigger] gen[k] as int], p)
    } else if past.len() > 0 {
        exists|k: int| 0 <= k < past.len() && fallback_from_template(ev, db[#[trigger] past[k] as int], p)
    } else {
        diagnostic_event(ev, p)
    }
}

fn append_indices(pool: &mut Vec<usize>, src: &Vec<usize>)
    ensures
        final(pool)@ == old(pool)@ + src@,
{
    let mut i: usize = 0;
    while i < src.len()
        invariant
            i <= src@.len(),
            pool@ =~= old(pool)@ + src@.take(i as int),
        decreases src@.len() - i,
    {
        pool.push(src[i]);
        proof {
            assert(pool@ =~= old(pool)@ + src@.take(i as int + 1));
        }
        i = i + 1;
    }
    proof {
        assert(src@.take(src@.len() as int) =~= src@);
        assert(pool@ =~= old(pool)@ + src@);
    }
}

/// Builds the resolved event from one handcrafted template: the template's
/// text, life stage and eligibility bounds, with only the options the player
/// qualifies for.
fn build_from_template(template: &EventData, player: &PlayerSnapshot) -> (r: EventData)
    ensures
        fallback_from_template(r, *template, *player),
{
    let stats = player.stats();
    let mut options: Vec<EventOption> = Vec::new();
    let ghost mut picks: Seq<int> = Seq::empty();
    let mut c: usize = 0;
    while c < template.options.len()
        invariant
            c <= template.options@.len(),
            stats == player.spec_stats(),
            options@.len() == picks.len(),
            forall|j: int| 0 <= j < picks.len() ==> 0 <= #[trigger] picks[j] < c,
            forall|j1: int, j2: int| 0 <= j1 < j2 < picks.len() ==> picks[j1] < picks[j2],
            forall|j: int|
                0 <= j < picks.len() ==> spec_meets_requirements(
                    player.spec_stats(),
                    template.options@[#[trigger] picks[j]].requirements@,
                ),
            forall|cc: int|
                0 <= cc < c && spec_meets_requirements(
                    player.spec_stats(),
                    #[trigger] template.options@[cc].requirements@,
                ) ==> picks.contains(cc),
            forall|j: int|
                0 <= j < picks.len() ==> same_option(
                    #[trigger] options@[j],
                    template.options@[picks[j]],
                ),
        decreases template.options@.len() - c,
    {
        let option = &template.options[c];
        let ghost prev_picks = picks;
        if player_meets_requirements(&stats, &option.requirements) {
            options.push(clone_option(option));
            proof {
                picks = picks.push(c as int);
                assert forall|cc: int|
                    0 <= cc < c + 1 && spec_meets_requirements(
                        player.spec_stats(),
                        #[trigger] template.options@[cc].requirements@,
                    ) implies picks.contains(cc) by {
                    if cc < c {
                        let w = choose|w: int| 0 <= w < prev_picks.len() && prev_picks[w] == cc;
                        assert(picks[w] == cc);
                    } else {
                        assert(picks[picks.len() - 1] == cc);
                    }
                }
            }
        }
        c = c + 1;
    }
    let r = EventData {
        title: template.title.clone(),
        description: template.description.clone(),
        options,
        min_tier: template.min_tier,
        max_tier: template.max_tier,
        is_generic: false,
        life_stage: template.life_stage,
        procedural_id: None,
        procedural_domain: None,
    };
    proof {
        assert(options_filtered(r.options@, template.options@, player.spec_stats(), picks));
    }
    r
}

/// The terminal placeholder event, returned only when no handcrafted content
/// exists for the player's stage and tier.
fn build_diagnostic(player: &PlayerSnapshot) -> (r: EventData)
    ensures
        diagnostic_event(r, *player),
{
    let mut description = String::from_str("Error: No events found for player tier ");
    description.append(usize_to_decimal(player.player_tier).as_str());
    description.append(" and life stage ");
    description.append(usize_to_decimal(player.life_stage).as_str());
    description.append(". Please check events.json.");
    let option = EventOption {
        text: String::from_str("Continue"),
        requirements: Vec::new(),
        risk_chance: 0,
        success_outcome: EventOutcome::default(),
        success_result: String::new(),
        failure_outcome: None,
        failure_result: String::new(),
    };
    let mut options: Vec<EventOption> = Vec::new();
    options.push(option);
    EventData {
        title: String::from_str("No Event Found!"),
        description,
        options,
        min_tier: 0,
        max_tier: 99,
        is_generic: true,
        life_stage: 0,
        procedural_id: None,
        procedural_domain: None,
    }
}

/// Resolves a handcrafted fallback event when procedural generation yields
/// nothing: tier-specific events for the current (stage, tier) first, then
/// generic ones, then one uniform draw over the generic events of all
/// strictly earlier stages pooled together (assembled most recent stage
/// first), and finally the diagnostic placeholder. Always returns an event;
/// a chosen template's options are filtered by the player's stats, and an
/// event left with no options is still returned.
pub fn resolve_fallback(
    db: &Vec<EventData>,
    index: &FallbackIndex,
    player: &PlayerSnapshot,
    rng: &mut GameRng,
) -> (r: EventData)
    requires
        player.wf(),
        index.wf(db@),
    ensures
        fallback_event(r, db@, *index, *player),
{
    let stage = player.life_stage;
    let tier = player.player_tier;
    let entry = lookup_entry(index, stage, tier);
    proof {
        lemma_entry_lookup(index.entries@, stage as int, tier as int);
        match entry_lookup(index.entries@, stage as int, tier as int) {
            Some(e) => {
                let k = choose|k: int| 0 <= k < index.entries@.len() && index.entries@[k] == e;
                assert(entry_in_bounds(index.entries@[k], db@.len() as int));
            },
            None => {},
        }
    }

    if let Some(e) = entry {
        if e.tier_specific.len() > 0 {
            let k = rng.below(e.tier_specific.len());
            let i = e.tier_specific[k];
            let r = build_from_template(&db[i], player);
            return r;
        }
        if e.generic.len() > 0 {
            let k = rng.below(e.generic.len());
            let i = e.generic[k];
            let r = build_from_template(&db[i], player);
            return r;
        }
    }

    let mut pool: Vec<usize> = Vec::new();
    let mut s = stage;
    while s > 1
        invariant
            player.wf(),
            index.wf(db@),
            tier == player.player_tier,
            1 <= s <= player.life_stage,
            pool@ + past_generic(*index, s as int, player.player_tier as int) =~= past_generic(
                *index,
                player.life_stage as int,
                player.player_tier as int,
            ),
            spec_tier_specific(*index, player.life_stage as int, player.player_tier as int).len()
                == 0,
            spec_generic(*index, player.life_stage as int, player.player_tier as int).len() == 0,
            forall|j: int| 0 <= j < pool@.len() ==> (#[trigger] pool@[j]) < db@.len(),
        decreases s,
    {
        s = s - 1;
        let past_entry = lookup_entry(index, s, tier);
        proof {
            lemma_entry_lookup(index.entries@, s as int, tier as int);
            match entry_lookup(index.entries@, s as int, tier as int) {
                Some(e) => {
                    let k = choose|k: int| 0 <= k < index.entries@.len() && index.entries@[k] == e;
                    assert(entry_in_bounds(index.entries@[k], db@.len() as int));
                },
                None => {},
            }
        }
        let ghost old_pool = pool@;
        if let Some(e) = past_entry {
            append_indices(&mut pool, &e.generic);
        }
        proof {
            let tier_g = player.player_tier as int;
            let g = spec_generic(*index, s as int, tier_g);
            match past_entry {
                Some(e) => {
                    assert(g == e.generic@);
                    assert(pool@ =~= old_pool + g);
                },
                None => {
                    assert(g =~= Seq::<usize>::empty());
                    assert(pool@ =~= old_pool + g);
                },
            }
            assert(past_generic(*index, s as int + 1, tier_g) == spec_generic(
                *index,
                s as int,
                tier_g,
            ) + past_generic(*index, s as int, tier_g));
            assert(pool@ + past_generic(*index, s as int, tier_g) =~= old_pool + past_generic(
                *index,
                s as int + 1,
                tier_g,
            ));
        }
    }

    if pool.len() > 0 {
        let k = rng.below(pool.len());
        let i = pool[k];
        proof {
            assert(past_generic(*index, s as int, player.player_tier as int).len() == 0);
            assert(pool@ =~= past_generic(
                *index,
                player.life_stage as int,
                player.player_tier as int,
            ));
        }
        let r = build_from_template(&db[i], player);
        return r;
    }
    proof {
        assert(pool@ =~= past_generic(
            *index,
            player.life_stage as int,
            player.player_tier as int,
        ));
    }
    build_diagnostic(player)
}

/// Event `i` belongs under key (stage, tier) in the given list (generic or
/// tier-specific): its life stage is the key's and the key's tier lies in its
/// eligibility range.
pub open spec fn event_filed(
    db: Seq<EventData>,
    stage: usize,
    tier: usize,
    i: usize,
    generic: bool,
) -> bool {
    i < db.len() && db[i as int].is_generic == generic && db[i as int].life_stage == stage && db[
        i as int
    ].min_tier <= tier <= db[i as int].max_tier
}

/// One entry's lists hold exactly the events filed under its key.
pub open spec fn entry_exact(e: FallbackEntry, db: Seq<EventData>) -> bool {
    (forall|i: usize|
        #[trigger] e.tier_specific@.contains(i) <==> event_filed(db, e.life_stage, e.tier, i, false))
        && (forall|i: usize|
        #[trigger] e.generic@.contains(i) <==> event_filed(db, e.life_stage, e.tier, i, true))
}

proof fn lemma_push_keeps_contains<T>(s: Seq<T>, x: T, y: T)
    requires
        s.contains(y),
    ensures
        s.push(x).contains(y),
{
    let w = choose|w: int| 0 <= w < s.len() && s[w] == y;
    assert(s.push(x)[w] == y);
}

fn keys_contain(keys: &Vec<(usize, usize)>, stage: usize, tier: usize) -> (r: bool)
    ensures
        r == keys@.contains((stage, tier)),
{
    let mut i: usize = 0;
    while i < keys.len()
        invariant
            i <= keys@.len(),
            forall|j: int| 0 <= j < i ==> #[trigger] keys@[j] != (stage, tier),
        decreases keys@.len() - i,
    {
        if keys[i].0 == stage && keys[i].1 == tier {
            proof {
                assert(keys@[i as int] == (stage, tier));
            }
            return true;
        }
        i = i + 1;
    }
    proof {
        if keys@.contains((stage, tier)) {
            let w = choose|w: int| 0 <= w < keys@.len() && keys@[w] == (stage, tier);
            assert(keys@[w] != (stage, tier));
        }
    }
    false
}

/// Builds the (life stage, tier) index over a handcrafted event list: every
/// event is filed, under every tier of its eligibility range, into the
/// tier-specific or the generic list of its life stage's entry — and nothing
/// else is filed anywhere.
pub fn build_event_index(db: &Vec<EventData>) -> (r: FallbackIndex)
    requires
        forall|i: int| 0 <= i < db@.len() ==> (#[trigger] db@[i]).max_tier <= 100,
    ensures
        r.unique_keys(),
        r.wf(db@),
        forall|stage: usize, tier: usize, i: usize|
            #[trigger] spec_tier_specific(r, stage as int, tier as int).contains(i) <==> event_filed(
                db@,
                stage,
                tier,
                i,
                false,
            ),
        forall|stage: usize, tier: usize, i: usize|
            #[trigger] spec_generic(r, stage as int, tier as int).contains(i) <==> event_filed(
                db@,
                stage,
                tier,
                i,
                true,
            ),
{
    let mut keys: Vec<(usize, usize)> = Vec::new();
    let mut e: usize = 0;
    while e < db.len()
        invariant
            e <= db@.len(),
            forall|i: int| 0 <= i < db@.len() ==> (#[trigger] db@[i]).max_tier <= 100,
            forall|a: int, b: int| 0 <= a < b < keys@.len() ==> keys@[a] != keys@[b],
            forall|i: int, t: usize|
                0 <= i < e && db@[i].min_tier <= t <= db@[i].max_tier ==> #[trigger] keys@.contains(
                    (db@[i].life_stage, t),
                ),
        decreases db@.len() - e,
    {
        let stage = db[e].life_stage;
        let max_t = db[e].max_tier;
        let mut t = if db[e].min_tier > max_t {
            max_t + 1
        } else {
            db[e].min_tier
        };
        while t <= max_t
            invariant
                e < db@.len(),
                stage == db@[e as int].life_stage,
                max_t == db@[e as int].max_tier,
                max_t <= 100,
                db@[e as int].min_tier <= t || db@[e as int].min_tier > max_t,
                t <= max_t + 1,
                forall|a: int, b: int| 0 <= a < b < keys@.len() ==> keys@[a] != keys@[b],
                forall|i: int, tt: usize|
                    0 <= i < e && db@[i].min_tier <= tt <= db@[i].max_tier ==> #[trigger] keys@.contains(
                        (db@[i].life_stage, tt),
                    ),
                forall|tt: usize|
                    db@[e as int].min_tier <= tt < t ==> #[trigger] keys@.contains((stage, tt)),
            decreases max_t + 1 - t,
        {
            let ghost old_keys = keys@;
            if !keys_contain(&keys, stage, t) {
                keys.push((stage, t));
                proof {
                    assert forall|a: int, b: int|
                        0 <= a < b < keys@.len() implies keys@[a] != keys@[b] by {
                        if b == keys@.len() - 1 {
                            if keys@[a] == (stage, t) {
                                assert(old_keys.contains((stage, t)));
                            }
                        }
                    }
                    assert forall|i: int, tt: usize|
                        0 <= i < e && db@[i].min_tier <= tt <= db@[i].max_tier implies #[trigger] keys@.contains(
                        (db@[i].life_stage, tt),
                    ) by {
                        lemma_push_keeps_contains(old_keys, (stage, t), (db@[i].life_stage, tt));
                    }
                    assert forall|tt: usize|
                        db@[e as int].min_tier <= tt < t + 1 implies #[trigger] keys@.contains(
                        (stage, tt),
                    ) by {
                        if tt < t {
                            lemma_push_keeps_contains(old_keys, (stage, t), (stage, tt));
                        } else {
                            assert(keys@[keys@.len() - 1] == (stage, tt));
                        }
                    }
                }
            } else {
                proof {
                    assert forall|tt: usize|
                        db@[e as int].min_tier <= tt < t + 1 implies #[trigger] keys@.contains(
                        (stage, tt),
                    ) by {}
                }
            }
            t = t + 1;
        }
        e = e + 1;
    }

    let mut entries: Vec<FallbackEntry> = Vec::new();
    let mut k: usize = 0;
    while k < keys.len()
        invariant
            k <= keys@.len(),
            entries@.len() == k,
            forall|j: int|
                0 <= j < k ==> (#[trigger] entries@[j]).life_stage == keys@[j].0
                    && entries@[j].tier == keys@[j].1,
            forall|j: int| 0 <= j < k ==> entry_exact(#[trigger] entries@[j], db@),
        decreases keys@.len() - k,
    {
        let stage = keys[k].0;
        let tier = keys[k].1;
        let mut ts: Vec<usize> = Vec::new();
        let mut gen: Vec<usize> = Vec::new();
        let mut i: usize = 0;
        while i < db.len()
            invariant
                i <= db@.len(),
                forall|j: int|
                    0 <= j < ts@.len() ==> event_filed(db@, stage, tier, #[trigger] ts@[j], false),
                forall|ii: usize|
                    ii < i && event_filed(db@, stage, tier, ii, false) ==> #[trigger] ts@.contains(
                        ii,
                    ),
                forall|j: int|
                    0 <= j < gen@.len() ==> event_filed(db@, stage, tier, #[trigger] gen@[j], true),
                forall|ii: usize|
                    ii < i && event_filed(db@, stage, tier, ii, true) ==> #[trigger] gen@.contains(
                        ii,
                    ),
            decreases db@.len() - i,
        {
            let ghost old_ts = ts@;
            let ghost old_gen = gen@;
            if db[i].life_stage == stage && db[i].min_tier <= tier && tier <= db[i].max_tier {
                if db[i].is_generic {
                    gen.push(i);
                } else {
                    ts.push(i);
                }
            }
            proof {
                assert forall|ii: usize|
                    ii < i + 1 && event_filed(db@, stage, tier, ii, false) implies #[trigger] ts@.contains(
                    ii,
                ) by {
                    if ii < i {
                        lemma_push_keeps_contains(old_ts, i, ii);
                        if ts@ == old_ts {
                        } else {
                            assert(ts@ == old_ts.push(i));
                        }
                    } else {
                        assert(ts@[ts@.len() - 1] == ii);
                    }
                }
                assert forall|ii: usize|
                    ii < i + 1 && event_filed(db@, stage, tier, ii, true) implies #[trigger] gen@.contains(
                    ii,
                ) by {
                    if ii < i {
                        lemma_push_keeps_contains(old_gen, i, ii);
                        if gen@ == old_gen {
                        } else {
                            assert(gen@ == old_gen.push(i));
                        }
                    } else {
                        assert(gen@[gen@.len() - 1] == ii);
                    }
                }
            }
            i = i + 1;
        }
        let entry = FallbackEntry { life_stage: stage, tier, tier_specific: ts, generic: gen };
        proof {
            assert forall|ii: usize| #[trigger]
                entry.tier_specific@.contains(ii) implies event_filed(
                db@,
                stage,
                tier,
                ii,
                false,
            ) by {
                let w = choose|w: int|
                    0 <= w < entry.tier_specific@.len() && entry.tier_specific@[w] == ii;
            }
            assert forall|ii: usize| #[trigger] entry.generic@.contains(ii) implies event_filed(
                db@,
                stage,
                tier,
                ii,
                true,
            ) by {
                let w = choose|w: int| 0 <= w < entry.generic@.len() && entry.generic@[w] == ii;
            }
            assert(entry_exact(entry, db@));
        }
        entries.push(entry);
        k = k + 1;
    }

    let r = FallbackIndex { entries };
    proof {
        assert forall|a: int, b: int|
            0 <= a < b < r.entries@.len() implies !(#[trigger] r.entries@[a].life_stage
            == #[trigger] r.entries@[b].life_stage && r.entries@[a].tier
            == r.entries@[b].tier) by {
            if r.entries@[a].life_stage == r.entries@[b].life_stage && r.entries@[a].tier
                == r.entries@[b].tier {
                assert(keys@[a] == keys@[b]);
            }
        }
        assert forall|kk: int|
            0 <= kk < r.entries@.len() implies #[trigger] entry_in_bounds(
            r.entries@[kk],
            db@.len() as int,
        ) by {
            let en = r.entries@[kk];
            assert(entry_exact(en, db@));
            assert forall|j: int|
                0 <= j < en.tier_specific@.len() implies (#[trigger] en.tier_specific@[j])
                < db@.len() by {
                assert(en.tier_specific@.contains(en.tier_specific@[j]));
            }
            assert forall|j: int|
                0 <= j < en.generic@.len() implies (#[trigger] en.generic@[j]) < db@.len() by {
                assert(en.generic@.contains(en.generic@[j]));
            }
        }
        assert forall|stage: usize, tier: usize, ii: usize| #[trigger]
            spec_tier_specific(r, stage as int, tier as int).contains(ii) <==> event_filed(
            db@,
            stage,
            tier,
            ii,
            false,
        ) by {
            lemma_entry_lookup(r.entries@, stage as int, tier as int);
            match entry_lookup(r.entries@, stage as int, tier as int) {
                Some(en) => {
                    let w = choose|w: int| 0 <= w < r.entries@.len() && r.entries@[w] == en;
                    assert(entry_exact(en, db@));
                },
                None => {
                    if event_filed(db@, stage, tier, ii, false) {
                        assert(keys@.contains((stage, tier)));
                        let w = choose|w: int| 0 <= w < keys@.len() && keys@[w] == (stage, tier);
                        assert(r.entries@[w].life_stage as int == stage as int && r.entries@[w].tier
                            as int == tier as int);
                    }
                },
            }
        }
        assert forall|stage: usize, tier: usize, ii: usize| #[trigger]
            spec_generic(r, stage as int, tier as int).contains(ii) <==> event_filed(
            db@,
            stage,
            tier,
            ii,
            true,
        ) by {
            lemma_entry_lookup(r.entries@, stage as int, tier as int);
            match entry_lookup(r.entries@, stage as int, tier as int) {
                Some(en) => {
                    let w = choose|w: int| 0 <= w < r.entries@.len() && r.entries@[w] == en;
                    assert(entry_exact(en, db@));
                },
                None => {
                    if event_filed(db@, stage, tier, ii, true) {
                        assert(keys@.contains((stage, tier)));
                        let w = choose|w: int| 0 <= w < keys@.len() && keys@[w] == (stage, tier);
                        assert(r.entries@[w].life_stage as int == stage as int && r.entries@[w].tier
                            as int == tier as int);
                    }
                },
            }
        }
    }
    r
}

/// Looks up the entry for one (life stage, tier) key.
fn lookup_entry<'a>(index: &'a FallbackIndex, stage: usize, tier: usize) -> (r: Option<
    &'a FallbackEntry,
>)
    ensures
        match r {
            Some(e) => entry_lookup(index.entries@, stage as int, tier as int) == Some(*e),
            None => entry_lookup(index.entries@, stage as int, tier as int) is None,
        },
{
    let entries = &index.entries;
    let mut i: usize = 0;
    proof {
        assert(entries@.skip(0) =~= entries@);
    }
    while i < entries.len()
        invariant
            i <= entries@.len(),
            entries@ == index.entries@,
            entry_lookup(entries@, stage as int, tier as int) == entry_lookup(
                entries@.skip(i as int),
                stage as int,
                tier as int,
            ),
        decreases entries@.len() - i,
    {
        proof {
            assert(entries@.skip(i as int)[0] == entries@[i as int]);
            assert(entries@.skip(i as int).skip(1) =~= entries@.skip(i as int + 1));
        }
        if entries[i].life_stage == stage && entries[i].tier == tier {
            proof {
                assert(entry_lookup(entries@.skip(i as int), stage as int, tier as int) == Some(
                    entries@[i as int],
                ));
            }
            return Some(&entries[i]);
        }
        i = i + 1;
    }
    proof {
        assert(entries@.skip(entries@.len() as int).len() == 0);
    }
    None
}

} // verus!
