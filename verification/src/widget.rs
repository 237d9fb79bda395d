use vstd::prelude::*;
use vstd::string::StringExecFns;

verus! {

/// The board widget's drawing inputs: it only receives the layout and the
/// player's position and renders them.
#[derive(Debug)]
pub struct LotusWidget {
    pub num_tiers: usize,
    pub num_petals_per_tier: usize,
    pub player_total_index: usize,
}

/// The glyph shown on one petal: celebration on the first petal, scales on
/// the review petals, and a tier glyph elsewhere.
pub open spec fn spec_petal_text(tier: int, petal: int) -> Seq<char> {
    if petal == 0 {
        "🎉"@
    } else if petal == 4 || petal == 8 {
        "⚖️"@
    } else if tier == 0 {
        "💀"@
    } else if tier == 1 {
        "⚠️"@
    } else if tier == 2 {
        "💼"@
    } else if tier == 3 {
        "🍲"@
    } else if tier == 4 {
        "🏆"@
    } else {
        "??"@
    }
}

impl LotusWidget {
    pub fn new(num_tiers: usize, num_petals_per_tier: usize, player_total_index: usize) -> (r:
        LotusWidget)
        ensures
            r.num_tiers == num_tiers,
            r.num_petals_per_tier == num_petals_per_tier,
            r.player_total_index == player_total_index,
    {
        LotusWidget { num_tiers, num_petals_per_tier, player_total_index }
    }

    /// The text for a specific petal.
    pub fn get_petal_text(tier: usize, petal: usize) -> (r: String)
        ensures
            r@ == spec_petal_text(tier as int, petal as int),
    {
        if petal == 0 {
            return String::from_str("🎉");
        }
        if petal == 4 || petal == 8 {
            return String::from_str("⚖️");
        }
        match tier {
            0 => String::from_str("💀"),
            1 => String::from_str("⚠️"),
            2 => String::from_str("💼"),
            3 => String::from_str("🍲"),
            4 => String::from_str("🏆"),
            _ => String::from_str("??"),
        }
    }
}

} // verus!
