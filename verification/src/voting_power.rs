//! Voting power: linear in the stake up to a knee, growing with the square
//! root beyond it, and scaled by a multiplier that rewards the age of the
//! stake. All of it is integer arithmetic.

use vstd::prelude::*;
use crate::limits::BASE_UNITS_PER_TOKEN;
use crate::parameter_store::TimeMultipliers;

verus! {

/// The stake in whole tokens up to which voting power grows linearly.
pub const POWER_KNEE: u64 = 100_000;

/// The largest number whose square is at most `n`.
pub open spec fn floor_sqrt(n: nat) -> nat
    decreases n,
{
    if n == 0 {
        0
    } else {
        let below = floor_sqrt((n - 1) as nat);
        if (below + 1) * (below + 1) <= n {
            below + 1
        } else {
            below
        }
    }
}

/// `floor_sqrt(n)` squared is at most `n`, and the next number squared is
/// more than `n`.
pub proof fn lemma_floor_sqrt_brackets(n: nat)
    ensures
        floor_sqrt(n) * floor_sqrt(n) <= n,
        n < (floor_sqrt(n) + 1) * (floor_sqrt(n) + 1),
    decreases n,
{
    let root = floor_sqrt(n);
    if n == 0 {
        assert(root == 0);
        assert(n < (root + 1) * (root + 1)) by (nonlinear_arith)
            requires
                root == 0,
                n == 0,
        ;
    } else {
        let below = floor_sqrt((n - 1) as nat);
        lemma_floor_sqrt_brackets((n - 1) as nat);
        if (below + 1) * (below + 1) <= n {
            assert(root == below + 1);
            assert(root * root <= n && n < (root + 1) * (root + 1)) by (nonlinear_arith)
                requires
                    root == below + 1,
                    (below + 1) * (below + 1) <= n,
                    n - 1 < (below + 1) * (below + 1),
            ;
        } else {
            assert(root == below);
        }
    }
}

/// Only one number brackets `n` between its square and the next square.
pub proof fn lemma_floor_sqrt_unique(n: nat, r: nat)
    requires
        r * r <= n,
        n < (r + 1) * (r + 1),
    ensures
        r == floor_sqrt(n),
{
    lemma_floor_sqrt_brackets(n);
    let s = floor_sqrt(n);
    if r < s {
        assert((r + 1) * (r + 1) <= s * s) by (nonlinear_arith)
            requires
                r + 1 <= s,
        ;
    }
    if s < r {
        assert((s + 1) * (s + 1) <= r * r) by (nonlinear_arith)
            requires
                s + 1 <= r,
        ;
    }
}

/// A larger number has no smaller square root.
pub proof fn lemma_floor_sqrt_monotonic(a: nat, b: nat)
    requires
        a <= b,
    ensures
        floor_sqrt(a) <= floor_sqrt(b),
    decreases b,
{
    if a < b {
        lemma_floor_sqrt_monotonic(a, (b - 1) as nat);
    }
}

/// Computes the largest number whose square is at most `n`.
pub fn integer_sqrt(n: u64) -> (r: u64)
    ensures
        r == floor_sqrt(n as nat),
        r <= 0xFFFF_FFFF,
{
    let mut low: u64 = 0;
    let mut high: u64 = 0x1_0000_0000;
    assert(0x1_0000_0000u64 * 0x1_0000_0000u64 > n) by (nonlinear_arith);
    while high - low > 1
        invariant
            low < high <= 0x1_0000_0000,
            low * low <= n,
            n < high * high,
        decreases high - low,
    {
        let middle = low + (high - low) / 2;
        assert(middle * middle <= 0xFFFF_FFFF * 0xFFFF_FFFF) by (nonlinear_arith)
            requires
                middle <= 0xFFFF_FFFF,
        ;
        if middle * middle <= n {
            low = middle;
        } else {
            high = middle;
        }
    }
    proof {
        lemma_floor_sqrt_unique(n as nat, low as nat);
    }
    low
}

/// The power of a stake of `tokens` whole tokens before its age counts: the
/// stake itself up to the knee, and beyond it the knee plus the square root
/// of the excess, rounded down.
pub open spec fn base_power(tokens: nat) -> nat {
    if tokens <= POWER_KNEE {
        tokens
    } else {
        POWER_KNEE as nat + floor_sqrt((tokens - POWER_KNEE) as nat)
    }
}

/// The multiplier, in hundredths, that a stake of this age earns under the
/// fixed tiers: 1.0 up to 30 days, 1.2 up to 90, 1.5 up to 365, 2.0 beyond.
pub open spec fn hybrid_multiplier(stake_duration_days: nat) -> nat {
    if stake_duration_days <= 30 {
        100
    } else if stake_duration_days <= 90 {
        120
    } else if stake_duration_days <= 365 {
        150
    } else {
        200
    }
}

/// The voting power of `stake_amount` base units staked for
/// `stake_duration_days` days, under the fixed tiers.
pub open spec fn hybrid_voting_power(stake_amount: nat, stake_duration_days: nat) -> nat {
    base_power(stake_amount / (BASE_UNITS_PER_TOKEN as nat)) * hybrid_multiplier(
        stake_duration_days,
    ) / 100
}

/// The voting power of `stake_amount` whole tokens staked for
/// `stake_duration_days` days, under the tiers of a configuration.
pub open spec fn configurable_voting_power(
    stake_amount: nat,
    stake_duration_days: nat,
    time_multipliers: TimeMultipliers,
) -> nat {
    base_power(stake_amount) * time_multipliers.multiplier_for(stake_duration_days) / 100
}

/// Computes the power of a stake before its age counts.
pub fn calculate_base_power(tokens: u64) -> (r: u64)
    ensures
        r == base_power(tokens as nat),
        r <= POWER_KNEE + 0xFFFF_FFFF,
{
    if tokens <= POWER_KNEE {
        tokens
    } else {
        POWER_KNEE + integer_sqrt(tokens - POWER_KNEE)
    }
}

/// Computes the voting power of `stake_amount` base units staked for
/// `stake_duration_days` days, under the fixed tiers.
pub fn calculate_hybrid_voting_power(stake_amount: u64, stake_duration_days: u32) -> (r: u64)
    ensures
        r == hybrid_voting_power(stake_amount as nat, stake_duration_days as nat),
{
    let tokens = stake_amount / BASE_UNITS_PER_TOKEN;
    let base = calculate_base_power(tokens);
    let time_multiplier: u64 = if stake_duration_days <= 30 {
        100
    } else if stake_duration_days <= 90 {
        120
    } else if stake_duration_days <= 365 {
        150
    } else {
        200
    };
    base * time_multiplier / 100
}

/// Computes the voting power of `stake_amount` whole tokens staked for
/// `stake_duration_days` days, under the tiers of a configuration.
pub fn calculate_configurable_voting_power(
    stake_amount: u64,
    stake_duration_days: u32,
    time_multipliers: &TimeMultipliers,
) -> (r: u64)
    ensures
        r == configurable_voting_power(
            stake_amount as nat,
            stake_duration_days as nat,
            *time_multipliers,
        ),
{
    let base = calculate_base_power(stake_amount);
    let time_multiplier = if stake_duration_days >= time_multipliers.tier_3_days {
        time_multipliers.tier_4_multiplier
    } else if stake_duration_days >= time_multipliers.tier_2_days {
        time_multipliers.tier_3_multiplier
    } else if stake_duration_days >= time_multipliers.tier_1_days {
        time_multipliers.tier_2_multiplier
    } else {
        time_multipliers.tier_1_multiplier
    };
    assert(base * time_multiplier <= (POWER_KNEE + 0xFFFF_FFFF) * 0xFFFF) by (nonlinear_arith)
        requires
            base <= POWER_KNEE + 0xFFFF_FFFF,
            time_multiplier <= 0xFFFF,
    ;
    base * (time_multiplier as u64) / 100
}

/// More stake never means less power before age counts.
pub proof fn lemma_base_power_monotonic(fewer: nat, more: nat)
    requires
        fewer <= more,
    ensures
        base_power(fewer) <= base_power(more),
{
    if fewer > POWER_KNEE {
        lemma_floor_sqrt_monotonic((fewer - POWER_KNEE) as nat, (more - POWER_KNEE) as nat);
    }
}

/// A product of naturals grows with each factor, and so does its hundredth.
proof fn lemma_scaled_monotonic(base_1: nat, multiplier_1: nat, base_2: nat, multiplier_2: nat)
    requires
        base_1 <= base_2,
        multiplier_1 <= multiplier_2,
    ensures
        base_1 * multiplier_1 / 100 <= base_2 * multiplier_2 / 100,
{
    assert(base_1 * multiplier_1 <= base_2 * multiplier_2) by (nonlinear_arith)
        requires
            base_1 <= base_2,
            multiplier_1 <= multiplier_2,
    ;
}

/// Under the fixed tiers, voting power never falls when the stake grows or
/// ages: a stake that is at least as large and at least as old has at least
/// as much power.
pub proof fn lemma_hybrid_voting_power_monotonic(
    stake_1: nat,
    days_1: nat,
    stake_2: nat,
    days_2: nat,
)
    requires
        stake_1 <= stake_2,
        days_1 <= days_2,
    ensures
        hybrid_voting_power(stake_1, days_1) <= hybrid_voting_power(stake_2, days_2),
{
    let tokens_1 = stake_1 / (BASE_UNITS_PER_TOKEN as nat);
    let tokens_2 = stake_2 / (BASE_UNITS_PER_TOKEN as nat);
    lemma_base_power_monotonic(tokens_1, tokens_2);
    lemma_scaled_monotonic(
        base_power(tokens_1),
        hybrid_multiplier(days_1),
        base_power(tokens_2),
        hybrid_multiplier(days_2),
    );
}

/// Under any tiers, voting power never falls when the stake grows.
pub proof fn lemma_configurable_voting_power_monotonic_in_stake(
    time_multipliers: TimeMultipliers,
    stake_1: nat,
    stake_2: nat,
    days: nat,
)
    requires
        stake_1 <= stake_2,
    ensures
        configurable_voting_power(stake_1, days, time_multipliers) <= configurable_voting_power(
            stake_2,
            days,
            time_multipliers,
        ),
{
    lemma_base_power_monotonic(stake_1, stake_2);
    lemma_scaled_monotonic(
        base_power(stake_1),
        time_multipliers.multiplier_for(days),
        base_power(stake_2),
        time_multipliers.multiplier_for(days),
    );
}

/// Under tiers whose multipliers do not fall from one tier to the next,
/// voting power never falls when the stake ages.
pub proof fn lemma_configurable_voting_power_monotonic_in_duration(
    time_multipliers: TimeMultipliers,
    stake: nat,
    days_1: nat,
    days_2: nat,
)
    requires
        time_multipliers.rewards_age(),
        days_1 <= days_2,
    ensures
        configurable_voting_power(stake, days_1, time_multipliers) <= configurable_voting_power(
            stake,
            days_2,
            time_multipliers,
        ),
{
    lemma_scaled_monotonic(
        base_power(stake),
        time_multipliers.multiplier_for(days_1),
        base_power(stake),
        time_multipliers.multiplier_for(days_2),
    );
}

} // verus!
