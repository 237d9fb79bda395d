use vstd::prelude::*;
use crate::library::{Severity, StatProfile};
use crate::rng::GameRng;

verus! {

/// Variance draws are permille factors in [0.8, 1.2] of the base multiplier.
pub const VARIANCE_MIN: u32 = 800;

pub const VARIANCE_MAX: u32 = 1200;

/// Largest magnitude `calculate_failure_stats` accepts per field: three times
/// it must still fit an i32.
pub const FAILURE_INPUT_BOUND: i32 = 715827882;

/// Numerator of the outcome multiplier: tier factor (tier+1) x 1.5, severity
/// factor (0.5 / 1.0 / 2.0) and the permille variance, over the common
/// denominator 4000.
pub open spec fn mult_num(tier: int, severity: Severity, variance: int) -> int {
    (tier + 1) * 3 * severity_factor(severity) * variance
}

/// Severity factor in quarters: 1 stands for 0.5x, 2 for 1.0x, 4 for 2.0x.
pub open spec fn severity_factor(severity: Severity) -> int {
    match severity {
        Severity::Low => 1,
        Severity::Medium => 2,
        Severity::High => 4,
    }
}

/// Integer division truncated toward zero, as the scaling rule rounds.
pub open spec fn trunc_div(a: int, b: int) -> int {
    if a >= 0 {
        a / b
    } else {
        -((-a) / b)
    }
}

pub open spec fn clamp_i32(x: int) -> int {
    if x > i32::MAX {
        i32::MAX as int
    } else if x < i32::MIN {
        i32::MIN as int
    } else {
        x
    }
}

/// One scaled outcome delta: the base delta times the tier, severity and
/// variance factors, truncated toward zero and saturated at the i32 range.
pub open spec fn scaled_delta(base: int, tier: int, severity: Severity, variance: int) -> int {
    clamp_i32(trunc_div(base * mult_num(tier, severity, variance), 4000))
}

/// A failure delta: the success delta sign-flipped and amplified by 3/2,
/// truncated toward zero.
pub open spec fn failure_delta(x: int) -> int {
    if x >= 0 {
        -((3 * x) / 2)
    } else {
        (3 * (-x)) / 2
    }
}

/// The multiplier numerator for the given context.
fn mult_num_exec(player_tier: usize, severity: Severity, variance: u32) -> (r: u32)
    requires
        player_tier <= 4,
        VARIANCE_MIN <= variance <= VARIANCE_MAX,
    ensures
        r == mult_num(player_tier as int, severity, variance as int),
        r <= 72000,
{
    let sev: u32 = match severity {
        Severity::Low => 1,
        Severity::Medium => 2,
        Severity::High => 4,
    };
    let head: u32 = (player_tier as u32 + 1) * 3 * sev;
    proof {
        assert(head * variance <= 72000) by (nonlinear_arith)
            requires
                head <= 60,
                variance <= 1200,
        ;
    }
    head * variance
}

/// One field scaled by the multiplier `num / 4000`, truncated toward zero and
/// saturated at the i32 range.
fn scale_field(base: i32, num: u32) -> (r: i32)
    requires
        num <= 72000,
    ensures
        r == clamp_i32(trunc_div(base as int * num as int, 4000)),
{
    if base >= 0 {
        proof {
            assert(0 <= base as int * num as int <= 0x7fffffff * 72000) by (nonlinear_arith)
                requires
                    0 <= base as int <= 0x7fffffff,
                    0 <= num as int <= 72000,
            ;
        }
        let wide: u64 = base as u64 * num as u64;
        let q: u64 = wide / 4000;
        if q > i32::MAX as u64 {
            i32::MAX
        } else {
            q as i32
        }
    } else {
        let mag: u64 = (-(base as i64)) as u64;
        proof {
            assert(0 <= mag as int * num as int <= 0x80000000 * 72000) by (nonlinear_arith)
                requires
                    0 <= mag as int <= 0x80000000,
                    0 <= num as int <= 72000,
            ;
            assert(mag as int * num as int == -(base as int * num as int)) by (nonlinear_arith)
                requires
                    mag as int == -(base as int),
            ;
        }
        let wide: u64 = mag * num as u64;
        let q: u64 = wide / 4000;
        if q >= 2147483648u64 {
            i32::MIN
        } else {
            -(q as i32)
        }
    }
}

/// Synthesizes a concrete success outcome from a template's base profile, for
/// a fixed variance draw: every field is scaled by the same multiplier
/// (tier+1) x 1.5 x severity x variance/1000 and truncated toward zero, so
/// the six deltas move coherently.
pub fn calculate_stats_with_variance(
    base_stats: &StatProfile,
    player_tier: usize,
    severity: Severity,
    variance: u32,
) -> (r: StatProfile)
    requires
        player_tier <= 4,
        VARIANCE_MIN <= variance <= VARIANCE_MAX,
    ensures
        r == spec_stats(*base_stats, player_tier as int, severity, variance as int),
{
    let num = mult_num_exec(player_tier, severity, variance);
    StatProfile {
        scs_change: scale_field(base_stats.scs_change, num),
        finance_change: scale_field(base_stats.finance_change, num),
        career_level_change: scale_field(base_stats.career_level_change, num),
        guanxi_family_change: scale_field(base_stats.guanxi_family_change, num),
        guanxi_network_change: scale_field(base_stats.guanxi_network_change, num),
        guanxi_party_change: scale_field(base_stats.guanxi_party_change, num),
    }
}

/// The whole success profile for one context and variance draw.
pub open spec fn spec_stats(base: StatProfile, tier: int, severity: Severity, variance: int) -> StatProfile {
    StatProfile {
        scs_change: scaled_delta(base.scs_change as int, tier, severity, variance) as i32,
        finance_change: scaled_delta(base.finance_change as int, tier, severity, variance) as i32,
        career_level_change: scaled_delta(base.career_level_change as int, tier, severity, variance) as i32,
        guanxi_family_change: scaled_delta(base.guanxi_family_change as int, tier, severity, variance) as i32,
        guanxi_network_change: scaled_delta(base.guanxi_network_change as int, tier, severity, variance) as i32,
        guanxi_party_change: scaled_delta(base.guanxi_party_change as int, tier, severity, variance) as i32,
    }
}

/// Synthesizes a success outcome with a fresh bounded variance draw.
pub fn calculate_stats(
    base_stats: &StatProfile,
    player_tier: usize,
    severity: Severity,
    rng: &mut GameRng,
) -> (r: StatProfile)
    requires
        player_tier <= 4,
    ensures
        exists|v: int|
            VARIANCE_MIN <= v <= VARIANCE_MAX && r == spec_stats(
                *base_stats,
                player_tier as int,
                severity,
                v,
            ),
{
    let draw = rng.below(401);
    let variance: u32 = VARIANCE_MIN + draw as u32;
    let r = calculate_stats_with_variance(base_stats, player_tier, severity, variance);
    proof {
        assert(VARIANCE_MIN <= variance as int <= VARIANCE_MAX && r == spec_stats(
            *base_stats,
            player_tier as int,
            severity,
            variance as int,
        ));
    }
    r
}

impl StatProfile {
    /// Every field small enough to run through failure derivation.
    pub open spec fn failure_safe(self) -> bool {
        -FAILURE_INPUT_BOUND <= self.scs_change <= FAILURE_INPUT_BOUND && -FAILURE_INPUT_BOUND
            <= self.finance_change <= FAILURE_INPUT_BOUND && -FAILURE_INPUT_BOUND
            <= self.career_level_change <= FAILURE_INPUT_BOUND && -FAILURE_INPUT_BOUND
            <= self.guanxi_family_change <= FAILURE_INPUT_BOUND && -FAILURE_INPUT_BOUND
            <= self.guanxi_network_change <= FAILURE_INPUT_BOUND && -FAILURE_INPUT_BOUND
            <= self.guanxi_party_change <= FAILURE_INPUT_BOUND
    }
}

/// The whole failure profile derived from a success profile.
pub open spec fn spec_failure_stats(s: StatProfile) -> StatProfile {
    StatProfile {
        scs_change: failure_delta(s.scs_change as int) as i32,
        finance_change: failure_delta(s.finance_change as int) as i32,
        career_level_change: failure_delta(s.career_level_change as int) as i32,
        guanxi_family_change: failure_delta(s.guanxi_family_change as int) as i32,
        guanxi_network_change: failure_delta(s.guanxi_network_change as int) as i32,
        guanxi_party_change: failure_delta(s.guanxi_party_change as int) as i32,
    }
}

fn failure_field(x: i32) -> (r: i32)
    requires
        -FAILURE_INPUT_BOUND <= x <= FAILURE_INPUT_BOUND,
    ensures
        r == failure_delta(x as int),
{
    if x >= 0 {
        -((x * 3) / 2)
    } else {
        ((-x) * 3) / 2
    }
}

/// Derives the punitive failure outcome from a success outcome: every field
/// is sign-flipped and amplified by 3/2 with truncation toward zero, so a
/// failure always costs what success would have granted, and half again. A
/// zero field stays zero and every nonzero field changes sign.
pub fn calculate_failure_stats(success_stats: &StatProfile) -> (r: StatProfile)
    requires
        success_stats.failure_safe(),
    ensures
        r == spec_failure_stats(*success_stats),
        success_stats.scs_change > 0 ==> r.scs_change < 0,
        success_stats.scs_change < 0 ==> r.scs_change > 0,
        success_stats.scs_change == 0 ==> r.scs_change == 0,
        success_stats.finance_change > 0 ==> r.finance_change < 0,
        success_stats.finance_change < 0 ==> r.finance_change > 0,
        success_stats.finance_change == 0 ==> r.finance_change == 0,
        success_stats.career_level_change > 0 ==> r.career_level_change < 0,
        success_stats.career_level_change < 0 ==> r.career_level_change > 0,
        success_stats.career_level_change == 0 ==> r.career_level_change == 0,
        success_stats.guanxi_family_change > 0 ==> r.guanxi_family_change < 0,
        success_stats.guanxi_family_change < 0 ==> r.guanxi_family_change > 0,
        success_stats.guanxi_family_change == 0 ==> r.guanxi_family_change == 0,
        success_stats.guanxi_network_change > 0 ==> r.guanxi_network_change < 0,
        success_stats.guanxi_network_change < 0 ==> r.guanxi_network_change > 0,
        success_stats.guanxi_network_change == 0 ==> r.guanxi_network_change == 0,
        success_stats.guanxi_party_change > 0 ==> r.guanxi_party_change < 0,
        success_stats.guanxi_party_change < 0 ==> r.guanxi_party_change > 0,
        success_stats.guanxi_party_change == 0 ==> r.guanxi_party_change == 0,
{
    StatProfile {
        scs_change: failure_field(success_stats.scs_change),
        finance_change: failure_field(success_stats.finance_change),
        career_level_change: failure_field(success_stats.career_level_change),
        guanxi_family_change: failure_field(success_stats.guanxi_family_change),
        guanxi_network_change: failure_field(success_stats.guanxi_network_change),
        guanxi_party_change: failure_field(success_stats.guanxi_party_change),
    }
}

/// A success profile scaled from load-checked base deltas stays inside the
/// range that failure derivation accepts.
pub proof fn lemma_scaled_delta_bound(base: int, tier: int, severity: Severity, variance: int)
    requires
        -crate::library::STAT_DELTA_BOUND <= base <= crate::library::STAT_DELTA_BOUND,
        0 <= tier <= 4,
        VARIANCE_MIN <= variance <= VARIANCE_MAX,
    ensures
        -FAILURE_INPUT_BOUND <= scaled_delta(base, tier, severity, variance) <= FAILURE_INPUT_BOUND,
{
    let num = mult_num(tier, severity, variance);
    assert(0 <= num <= 72000) by (nonlinear_arith)
        requires
            0 <= tier <= 4,
            800 <= variance <= 1200,
            num == (tier + 1) * 3 * severity_factor(severity) * variance,
            1 <= severity_factor(severity) <= 4,
    ;
    assert(-(10000000 * 72000) <= base * num <= 10000000 * 72000) by (nonlinear_arith)
        requires
            -10000000 <= base <= 10000000,
            0 <= num <= 72000,
    ;
    if base * num >= 0 {
        assert(trunc_div(base * num, 4000) == (base * num) / 4000);
        assert(0 <= (base * num) / 4000 <= (10000000int * 72000) / 4000) by (nonlinear_arith)
            requires
                0 <= base * num <= 10000000 * 72000,
        ;
    } else {
        assert(trunc_div(base * num, 4000) == -((-(base * num)) / 4000));
        assert(0 <= (-(base * num)) / 4000 <= (10000000int * 72000) / 4000) by (nonlinear_arith)
            requires
                0 < -(base * num) <= 10000000 * 72000,
        ;
    }
}

} // verus!
