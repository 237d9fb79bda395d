use vstd::prelude::*;
use crate::requirements::{Requirement, StatKey};

verus! {

/// The four recognized player stats, as the risk and filtering rules read them.
#[derive(Clone, Copy, Debug)]
pub struct PlayerStats {
    pub guanxi_family: u32,
    pub guanxi_network: u32,
    pub guanxi_party: u32,
    pub career_level: u32,
}

/// The value the player holds for a requirement key; an unrecognized key is
/// read as zero.
pub open spec fn stat_value(p: PlayerStats, key: StatKey) -> int {
    match key {
        StatKey::GuanxiFamily => p.guanxi_family as int,
        StatKey::GuanxiNetwork => p.guanxi_network as int,
        StatKey::GuanxiParty => p.guanxi_party as int,
        StatKey::CareerLevel => p.career_level as int,
        StatKey::Other => 0,
    }
}

/// How far the player falls short of one requirement; never negative. An
/// unrecognized key is always satisfied, so it leaves no gap.
pub open spec fn req_gap(r: Requirement, p: PlayerStats) -> int {
    if r.key is Other {
        0
    } else if r.min_value as int > stat_value(p, r.key) {
        r.min_value as int - stat_value(p, r.key)
    } else {
        0
    }
}

/// Total shortfall over a requirement table.
pub open spec fn gap_sum(reqs: Seq<Requirement>, p: PlayerStats) -> int
    decreases reqs.len(),
{
    if reqs.len() == 0 {
        0
    } else {
        gap_sum(reqs.drop_last(), p) + req_gap(reqs.last(), p)
    }
}

pub open spec fn clamp_risk(x: int) -> int {
    if x < 0 {
        0
    } else if x > 95 {
        95
    } else {
        x
    }
}

/// The failure chance of one choice: the base risk plus five points per point
/// of requirement shortfall, plus the archetype's modifier, clamped to [0, 95].
pub open spec fn spec_risk(base_risk: int, modifier: int, reqs: Seq<Requirement>, p: PlayerStats) -> int {
    clamp_risk(base_risk + 5 * gap_sum(reqs, p) + modifier)
}

/// How far a held stat falls below a required floor; never negative.
fn shortfall(required: u32, held: u32) -> (r: u32)
    ensures
        r as int == if required > held {
            required - held
        } else {
            0int
        },
{
    if required > held {
        required - held
    } else {
        0
    }
}

proof fn lemma_gap_sum_nonneg(reqs: Seq<Requirement>, p: PlayerStats)
    ensures
        gap_sum(reqs, p) >= 0,
    decreases reqs.len(),
{
    if reqs.len() > 0 {
        lemma_gap_sum_nonneg(reqs.drop_last(), p);
    }
}

/// Failure chance for a choice with the given base risk and archetype
/// modifier, against the player's current stats. Exceeding a requirement
/// never lowers the risk below the base; falling short raises it five points
/// per missing stat point; a requirement under an unrecognized key is always
/// satisfied and raises nothing. The result is clamped so no choice ever
/// reaches a certain failure.
pub fn calculate_risk(
    base_risk: u8,
    risk_modifier: i8,
    requirements: &Vec<Requirement>,
    player_state: &PlayerStats,
) -> (r: u8)
    ensures
        r as int == spec_risk(base_risk as int, risk_modifier as int, requirements@, *player_state),
        r <= 95,
{
    let cap: i64 = 1000000;
    let mut risk: i64 = base_risk as i64;
    let mut i: usize = 0;
    while i < requirements.len()
        invariant
            i <= requirements@.len(),
            cap == 1000000,
            risk == if base_risk as int + 5 * gap_sum(requirements@.take(i as int), *player_state) > cap {
                cap as int
            } else {
                base_risk as int + 5 * gap_sum(requirements@.take(i as int), *player_state)
            },
        decreases requirements@.len() - i,
    {
        let req = requirements[i];
        let gap: u32 = match req.key {
            StatKey::GuanxiFamily => shortfall(req.min_value, player_state.guanxi_family),
            StatKey::GuanxiNetwork => shortfall(req.min_value, player_state.guanxi_network),
            StatKey::GuanxiParty => shortfall(req.min_value, player_state.guanxi_party),
            StatKey::CareerLevel => shortfall(req.min_value, player_state.career_level),
            StatKey::Other => 0,
        };
        proof {
            assert(requirements@.take(i as int + 1).drop_last() =~= requirements@.take(i as int));
            assert(requirements@.take(i as int + 1).last() == requirements@[i as int]);
            lemma_gap_sum_nonneg(requirements@.take(i as int), *player_state);
        }
        risk = risk + gap as i64 * 5;
        if risk > cap {
            risk = cap;
        }
        i = i + 1;
    }
    proof {
        assert(requirements@.take(requirements@.len() as int) =~= requirements@);
        lemma_gap_sum_nonneg(requirements@, *player_state);
    }
    risk = risk + risk_modifier as i64;
    if risk < 0 {
        0
    } else if risk > 95 {
        95
    } else {
        risk as u8
    }
}

} // verus!
