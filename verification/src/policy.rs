//! The policy decision function: maps a channel's liquidity ratio and the
//! configured tier table to a target fee policy.

use vstd::prelude::*;

verus! {

/// One liquidity tier's fee settings: a proportional rate in parts-per-million
/// and a base fee in millisatoshis.
#[derive(Clone, Copy, Debug, PartialEq, Eq, Structural)]
pub struct FeeTier {
    pub fee_rate_ppm: u32,
    pub base_fee_msat: i64,
}

/// The three ordered liquidity tiers, fixed for the process lifetime.
#[derive(Clone, Copy, Debug, PartialEq, Eq, Structural)]
pub struct Tiers {
    pub low: FeeTier,
    pub medium: FeeTier,
    pub high: FeeTier,
}

/// Which liquidity tier a channel falls in.
#[derive(Clone, Copy, Debug, PartialEq, Eq, Structural)]
pub enum Tier {
    Low,
    Medium,
    High,
}

/// The tier for a channel with `local` of `cap` millisatoshis on its own side,
/// split at ratios of 60% and 40%; each boundary falls to the lower-fee side.
pub open spec fn spec_tier(local: int, cap: int) -> Tier {
    if 100 * local > 60 * cap {
        Tier::High
    } else if 100 * local > 40 * cap {
        Tier::Medium
    } else {
        Tier::Low
    }
}

/// The liquidity tier of a channel whose local balance is `local_balance`
/// out of a total capacity of `capacity`.
pub fn decide_tier(local_balance: i64, capacity: i64) -> (t: Tier)
    requires
        capacity > 0,
        0 <= local_balance <= capacity,
    ensures
        t == spec_tier(local_balance as int, capacity as int),
{
    let local = local_balance as i128;
    let cap = capacity as i128;
    if 100 * local > 60 * cap {
        Tier::High
    } else if 100 * local > 40 * cap {
        Tier::Medium
    } else {
        Tier::Low
    }
}

/// The fee settings of one tier of the table.
pub open spec fn spec_tier_fees(tiers: Tiers, t: Tier) -> FeeTier {
    match t {
        Tier::Low => tiers.low,
        Tier::Medium => tiers.medium,
        Tier::High => tiers.high,
    }
}

/// The fee policy this node currently advertises for a channel.
#[derive(Clone, Copy, Debug, PartialEq, Eq, Structural)]
pub struct CurrentPolicy {
    pub fee_base_msat: i64,
    pub fee_rate_milli_msat: i64,
    pub time_lock_delta: u32,
    pub max_htlc_msat: u64,
}

/// The fee policy the node should advertise for a channel: the tier's fee
/// fields, with the time-lock delta and max-HTLC carried over unchanged
/// from the current policy.
#[derive(Clone, Copy, Debug, PartialEq, Eq, Structural)]
pub struct TargetPolicy {
    pub base_fee_msat: i64,
    pub fee_rate_ppm: u32,
    pub time_lock_delta: u32,
    pub max_htlc_msat: u64,
}

/// The target policy for a channel: fee fields from the tier that the
/// liquidity ratio selects, non-fee fields from the current policy.
pub open spec fn spec_target_policy(
    tiers: Tiers,
    local: int,
    cap: int,
    current: CurrentPolicy,
) -> TargetPolicy {
    let fees = spec_tier_fees(tiers, spec_tier(local, cap));
    TargetPolicy {
        base_fee_msat: fees.base_fee_msat,
        fee_rate_ppm: fees.fee_rate_ppm,
        time_lock_delta: current.time_lock_delta,
        max_htlc_msat: current.max_htlc_msat,
    }
}

/// Whether the advertised policy differs from the target in either fee field,
/// so that an update must be issued.
pub open spec fn spec_needs_update(current: CurrentPolicy, target: TargetPolicy) -> bool {
    current.fee_base_msat != target.base_fee_msat
        || current.fee_rate_milli_msat != target.fee_rate_ppm as int
}

/// Compute the target policy for a channel from its balances, the tier table
/// and the currently advertised policy. Only the fee fields are
/// tier-controlled; the time-lock delta and max-HTLC are preserved.
pub fn target_policy(
    tiers: &Tiers,
    local_balance: i64,
    capacity: i64,
    current: &CurrentPolicy,
) -> (p: TargetPolicy)
    requires
        capacity > 0,
        0 <= local_balance <= capacity,
    ensures
        p == spec_target_policy(*tiers, local_balance as int, capacity as int, *current),
        p.time_lock_delta == current.time_lock_delta,
        p.max_htlc_msat == current.max_htlc_msat,
{
    let tier = decide_tier(local_balance, capacity);
    let fees = match tier {
        Tier::Low => tiers.low,
        Tier::Medium => tiers.medium,
        Tier::High => tiers.high,
    };
    TargetPolicy {
        base_fee_msat: fees.base_fee_msat,
        fee_rate_ppm: fees.fee_rate_ppm,
        time_lock_delta: current.time_lock_delta,
        max_htlc_msat: current.max_htlc_msat,
    }
}

/// Whether an update must be issued for a channel whose advertised policy is
/// `current` and whose computed target is `target`.
pub fn needs_update(current: &CurrentPolicy, target: &TargetPolicy) -> (b: bool)
    ensures
        b == spec_needs_update(*current, *target),
{
    current.fee_base_msat != target.base_fee_msat
        || current.fee_rate_milli_msat != target.fee_rate_ppm as i64
}

/// Law: every ratio above 60% selects the high tier's fee rate and base fee.
/// `100 * local > 60 * cap` states `local / cap > 60%` exactly, without
/// rounding.
pub proof fn lemma_high_tier(tiers: Tiers, local: int, cap: int, current: CurrentPolicy)
    requires
        cap > 0,
        0 <= local <= cap,
        100 * local > 60 * cap,
    ensures
        spec_target_policy(tiers, local, cap, current).fee_rate_ppm == tiers.high.fee_rate_ppm,
        spec_target_policy(tiers, local, cap, current).base_fee_msat == tiers.high.base_fee_msat,
{
}

/// Law: every ratio in `(40%, 60%]` selects the medium tier, and every ratio
/// in `[0%, 40%]` the low tier; together with `lemma_high_tier` the three
/// ranges cover every ratio of the domain, with no gaps or overlaps.
pub proof fn lemma_medium_low_tier(tiers: Tiers, local: int, cap: int, current: CurrentPolicy)
    requires
        cap > 0,
        0 <= local <= cap,
    ensures
        40 * cap < 100 * local <= 60 * cap ==> spec_tier_fees(tiers, spec_tier(local, cap))
            == tiers.medium,
        100 * local <= 40 * cap ==> spec_tier_fees(tiers, spec_tier(local, cap)) == tiers.low,
        spec_tier(local, cap) == Tier::High || spec_tier(local, cap) == Tier::Medium
            || spec_tier(local, cap) == Tier::Low,
{
}

/// The policy a node advertises once a target policy has been applied to a
/// channel: the target's fields, read back as a current policy.
pub open spec fn spec_applied(target: TargetPolicy) -> CurrentPolicy {
    CurrentPolicy {
        fee_base_msat: target.base_fee_msat,
        fee_rate_milli_msat: target.fee_rate_ppm as i64,
        time_lock_delta: target.time_lock_delta,
        max_htlc_msat: target.max_htlc_msat,
    }
}

/// Law (idempotence at the policy level): once a channel's computed target
/// policy has been applied and the channel's balances are unchanged, the next
/// sweep computes the same target and finds nothing to update.
pub proof fn lemma_policy_idempotent(tiers: Tiers, local: int, cap: int, current: CurrentPolicy)
    requires
        cap > 0,
        0 <= local <= cap,
    ensures
        !spec_needs_update(
            spec_applied(spec_target_policy(tiers, local, cap, current)),
            spec_target_policy(
                tiers,
                local,
                cap,
                spec_applied(spec_target_policy(tiers, local, cap, current)),
            ),
        ),
{
}

} // verus!
