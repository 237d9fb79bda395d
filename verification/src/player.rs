use vstd::prelude::*;
use vstd::string::StringExecFns;
use crate::game_data::EventOutcome;
use crate::library::EventDomain;
use crate::risk_calculator::PlayerStats;
use crate::strings::spec_decimal;
use crate::strings::usize_to_decimal;

verus! {

/// Social credit ceilings of the four lower tiers; above the last lies the
/// top tier.
pub const TIER_D_MAX: i32 = 199;

pub const TIER_C_MAX: i32 = 399;

pub const TIER_B_MAX: i32 = 749;

pub const TIER_A_MAX: i32 = 999;

/// First ages of life stages two to four.
pub const AGE_STAGE_2: u32 = 26;

pub const AGE_STAGE_3: u32 = 41;

pub const AGE_STAGE_4: u32 = 56;

/// The slice of player state that event generation reads: standing, stats,
/// and the session's anti-repetition history. Recent domains are ordered most
/// recent first; encountered ids grow for the life of the session.
#[derive(Debug)]
pub struct PlayerSnapshot {
    pub player_tier: usize,
    pub life_stage: usize,
    pub player_age: u32,
    pub social_credit_score: i32,
    pub finances: i32,
    pub career_level: u32,
    pub guanxi_family: u32,
    pub guanxi_network: u32,
    pub guanxi_party: u32,
    pub recent_event_domains: Vec<EventDomain>,
    pub encounter_history: Vec<String>,
}

/// The tier a social credit score earns.
pub open spec fn spec_tier_of_scs(scs: int) -> int {
    if scs <= TIER_D_MAX {
        0
    } else if scs <= TIER_C_MAX {
        1
    } else if scs <= TIER_B_MAX {
        2
    } else if scs <= TIER_A_MAX {
        3
    } else {
        4
    }
}

/// The life stage an age puts the player in.
pub open spec fn spec_stage_of_age(age: int) -> int {
    if age >= AGE_STAGE_4 {
        4
    } else if age >= AGE_STAGE_3 {
        3
    } else if age >= AGE_STAGE_2 {
        2
    } else {
        1
    }
}

/// A u32 stat moved by a signed delta, saturating at both ends.
pub open spec fn sat_add_u32(a: int, d: int) -> int {
    if a + d < 0 {
        0
    } else if a + d > u32::MAX {
        u32::MAX as int
    } else {
        a + d
    }
}

fn saturating_add_u32_i32(a: u32, d: i32) -> (r: u32)
    ensures
        r as int == sat_add_u32(a as int, d as int),
{
    let wide: i64 = a as i64 + d as i64;
    if wide < 0 {
        0
    } else if wide > u32::MAX as i64 {
        u32::MAX
    } else {
        wide as u32
    }
}

/// The message one passed year reports: a plain birthday, or the new life
/// stage when the new age begins one.
pub open spec fn spec_age_up_message(new_age: int, old_stage: int) -> Seq<char> {
    let new_stage = spec_stage_of_age(new_age);
    if new_stage != old_stage {
        "You are "@ + spec_decimal(new_age) + ". You've entered a new Life Stage: "@
            + spec_decimal(new_stage) + "!"@
    } else {
        "Happy Birthday! You are now "@ + spec_decimal(new_age) + "."@
    }
}

impl PlayerSnapshot {
    /// Tier in the small closed range and a real life stage.
    pub open spec fn wf(self) -> bool {
        self.player_tier <= 4 && 1 <= self.life_stage <= 4
    }

    /// The four stats that requirements and risk read.
    pub open spec fn spec_stats(self) -> PlayerStats {
        PlayerStats {
            guanxi_family: self.guanxi_family,
            guanxi_network: self.guanxi_network,
            guanxi_party: self.guanxi_party,
            career_level: self.career_level,
        }
    }

    pub fn stats(&self) -> (r: PlayerStats)
        ensures
            r == self.spec_stats(),
    {
        PlayerStats {
            guanxi_family: self.guanxi_family,
            guanxi_network: self.guanxi_network,
            guanxi_party: self.guanxi_party,
            career_level: self.career_level,
        }
    }

    /// Applies all stat changes of one outcome: the two signed totals move
    /// exactly, the four u32 stats move with saturation at their bounds.
    pub fn apply_outcome(&mut self, outcome: &EventOutcome)
        requires
            i32::MIN <= old(self).social_credit_score + outcome.scs_change <= i32::MAX,
            i32::MIN <= old(self).finances + outcome.finance_change <= i32::MAX,
        ensures
            final(self).social_credit_score == old(self).social_credit_score
                + outcome.scs_change,
            final(self).finances == old(self).finances + outcome.finance_change,
            final(self).career_level as int == sat_add_u32(
                old(self).career_level as int,
                outcome.career_level_change as int,
            ),
            final(self).guanxi_family as int == sat_add_u32(
                old(self).guanxi_family as int,
                outcome.guanxi_family_change as int,
            ),
            final(self).guanxi_network as int == sat_add_u32(
                old(self).guanxi_network as int,
                outcome.guanxi_network_change as int,
            ),
            final(self).guanxi_party as int == sat_add_u32(
                old(self).guanxi_party as int,
                outcome.guanxi_party_change as int,
            ),
            final(self).player_tier == old(self).player_tier,
            final(self).life_stage == old(self).life_stage,
            final(self).player_age == old(self).player_age,
            final(self).recent_event_domains == old(self).recent_event_domains,
            final(self).encounter_history == old(self).encounter_history,
    {
        self.social_credit_score = self.social_credit_score + outcome.scs_change;
        self.finances = self.finances + outcome.finance_change;
        self.career_level = saturating_add_u32_i32(self.career_level, outcome.career_level_change);
        self.guanxi_family = saturating_add_u32_i32(
            self.guanxi_family,
            outcome.guanxi_family_change,
        );
        self.guanxi_network = saturating_add_u32_i32(
            self.guanxi_network,
            outcome.guanxi_network_change,
        );
        self.guanxi_party = saturating_add_u32_i32(
            self.guanxi_party,
            outcome.guanxi_party_change,
        );
    }

    /// Re-derives the tier from the social credit score; true when it moved.
    pub fn update_player_tier_from_scs(&mut self) -> (changed: bool)
        ensures
            final(self).player_tier as int == spec_tier_of_scs(
                old(self).social_credit_score as int,
            ),
            changed == (final(self).player_tier != old(self).player_tier),
            *final(self) == (PlayerSnapshot { player_tier: final(self).player_tier, ..*old(self) }),
    {
        let new_tier: usize = if self.social_credit_score <= TIER_D_MAX {
            0
        } else if self.social_credit_score <= TIER_C_MAX {
            1
        } else if self.social_credit_score <= TIER_B_MAX {
            2
        } else if self.social_credit_score <= TIER_A_MAX {
            3
        } else {
            4
        };
        if new_tier != self.player_tier {
            self.player_tier = new_tier;
            true
        } else {
            false
        }
    }

    /// Re-derives the life stage from the age; true when it moved.
    pub fn update_life_stage(&mut self) -> (changed: bool)
        ensures
            final(self).life_stage as int == spec_stage_of_age(old(self).player_age as int),
            changed == (final(self).life_stage != old(self).life_stage),
            *final(self) == (PlayerSnapshot { life_stage: final(self).life_stage, ..*old(self) }),
    {
        let new_stage: usize = if self.player_age >= AGE_STAGE_4 {
            4
        } else if self.player_age >= AGE_STAGE_3 {
            3
        } else if self.player_age >= AGE_STAGE_2 {
            2
        } else {
            1
        };
        if new_stage != self.life_stage {
            self.life_stage = new_stage;
            true
        } else {
            false
        }
    }

    /// One year passes: the age rises, the life stage follows, and the
    /// message reports the birthday, or the new stage when one begins.
    pub fn age_up(&mut self) -> (msg: String)
        requires
            old(self).player_age < u32::MAX,
        ensures
            final(self).player_age == old(self).player_age + 1,
            final(self).life_stage as int == spec_stage_of_age(final(self).player_age as int),
            *final(self) == (PlayerSnapshot {
                player_age: final(self).player_age,
                life_stage: final(self).life_stage,
                ..*old(self)
            }),
            msg@ == spec_age_up_message(
                old(self).player_age as int + 1,
                old(self).life_stage as int,
            ),
    {
        self.player_age = self.player_age + 1;
        let changed = self.update_life_stage();
        if changed {
            let mut msg = String::from_str("You are ");
            msg.append(usize_to_decimal(self.player_age as usize).as_str());
            msg.append(". You've entered a new Life Stage: ");
            msg.append(usize_to_decimal(self.life_stage).as_str());
            msg.append("!");
            msg
        } else {
            let mut msg = String::from_str("Happy Birthday! You are now ");
            msg.append(usize_to_decimal(self.player_age as usize).as_str());
            msg.append(".");
            msg
        }
    }

    /// Records a resolved event in the session history: a procedural event's
    /// domain enters the front of the recent-domain window, which keeps at
    /// most the last three, and its id joins the encountered set for the life
    /// of the session. Handcrafted events carry no provenance and leave the
    /// history untouched.
    pub fn record_encounter(&mut self, domain: Option<EventDomain>, id: Option<String>)
        ensures
            final(self).recent_event_domains@ == match domain {
                Some(d) => {
                    let grown = old(self).recent_event_domains@.insert(0, d);
                    if grown.len() <= 3 {
                        grown
                    } else {
                        grown.take(3)
                    }
                },
                None => old(self).recent_event_domains@,
            },
            final(self).encounter_history@ == match id {
                Some(s) => old(self).encounter_history@.push(s),
                None => old(self).encounter_history@,
            },
            *final(self) == (PlayerSnapshot {
                recent_event_domains: final(self).recent_event_domains,
                encounter_history: final(self).encounter_history,
                ..*old(self)
            }),
    {
        if let Some(d) = domain {
            self.recent_event_domains.insert(0, d);
            self.recent_event_domains.truncate(3);
        }
        if let Some(s) = id {
            self.encounter_history.push(s);
        }
    }

    /// Whether a board position is one of the review spaces.
    pub fn is_review_petal(&self, petal_index: usize) -> (r: bool)
        ensures
            r == (petal_index == 0 || petal_index == 4 || petal_index == 8),
    {
        petal_index == 0 || petal_index == 4 || petal_index == 8
    }
}

} // verus!
