use vstd::prelude::*;
use crate::risk_calculator::{stat_value, PlayerStats};

verus! {

/// The player stats that a choice requirement can name. Authored content may
/// use names outside this set; those map to `Other`, which is treated as
/// always satisfied: it never gates a choice and never raises risk.
#[derive(Clone, Copy, Debug, PartialEq, Eq, Structural)]
pub enum StatKey {
    GuanxiFamily,
    GuanxiNetwork,
    GuanxiParty,
    CareerLevel,
    Other,
}

/// One entry of a choice's requirement table: the named stat must be at least
/// `min_value` for the player to see the choice.
#[derive(Clone, Copy, Debug, PartialEq, Eq, Structural)]
pub struct Requirement {
    pub key: StatKey,
    pub min_value: u32,
}

/// One requirement is met: an unrecognized key never gates a choice, a
/// recognized one demands the stat at or above the floor.
pub open spec fn req_satisfied(p: PlayerStats, r: Requirement) -> bool {
    r.key is Other || stat_value(p, r.key) >= r.min_value as int
}

/// Every entry of a requirement table is met.
pub open spec fn spec_meets_requirements(p: PlayerStats, reqs: Seq<Requirement>) -> bool {
    forall|i: int| 0 <= i < reqs.len() ==> req_satisfied(p, #[trigger] reqs[i])
}

/// Whether the player sees a choice with this requirement table: every
/// recognized requirement must be met at or above its floor; unrecognized
/// keys never block.
pub fn player_meets_requirements(
    player_state: &PlayerStats,
    requirements: &Vec<Requirement>,
) -> (r: bool)
    ensures
        r == spec_meets_requirements(*player_state, requirements@),
{
    let mut i: usize = 0;
    while i < requirements.len()
        invariant
            i <= requirements@.len(),
            forall|j: int|
                0 <= j < i ==> req_satisfied(*player_state, #[trigger] requirements@[j]),
        decreases requirements@.len() - i,
    {
        let req = requirements[i];
        let blocked: bool = match req.key {
            StatKey::GuanxiFamily => player_state.guanxi_family < req.min_value,
            StatKey::GuanxiNetwork => player_state.guanxi_network < req.min_value,
            StatKey::GuanxiParty => player_state.guanxi_party < req.min_value,
            StatKey::CareerLevel => player_state.career_level < req.min_value,
            StatKey::Other => false,
        };
        if blocked {
            proof {
                assert(!req_satisfied(*player_state, requirements@[i as int]));
            }
            return false;
        }
        i = i + 1;
    }
    true
}

} // verus!
