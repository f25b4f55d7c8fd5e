//! Exploration budget and punitive slashing: the two ends of one policy.
//! `fund_scout` gives an unproven forager a bounded chance to prove itself;
//! `slash_forager` makes a forager that broke the rules, went silent or ran
//! past the loss threshold pay for it out of its bond.
//!
//! Bond, principal, deposits, the Risk Cache and every slashed amount are in
//! the one base asset. The burned share of a seized bond goes to a locked
//! incinerator account that nothing in the colony withdraws from: an economic
//! burn, not a token-supply burn.
use vstd::prelude::*;

use crate::constants::{
    PHASE_OPEN, SLASH_REASON_LOSS_THRESHOLD, SLASH_REASON_NON_RESPONSE,
    SLASH_REASON_RULE_VIOLATION, STATUS_RETIRED, STATUS_SCOUT, STATUS_SLASHED,
};
use crate::errors::ColonyError;
use crate::events::{ForagerSlashed, ScoutFunded};
use crate::math::{
    clamp_i64, clamp_to_i64, loss_slash_bps, slash_split, spec_loss_slash_bps, spec_slash_amount,
    spec_slash_burn,
};
use crate::state::{Address, BroodVaultState, ColonyConfig, ForagerState, RiskCacheState};

verus! {

// ---------------------------------------------------------------------------
// fund_scout
// ---------------------------------------------------------------------------

/// The first check `fund_scout` fails, if any.
pub open spec fn spec_scout_refusal(
    config: ColonyConfig,
    brood: BroodVaultState,
    forager: ForagerState,
) -> Option<ColonyError> {
    let ticket = config.scout_ticket_base_units;
    if config.epoch_phase != PHASE_OPEN {
        Some(ColonyError::WrongPhase)
    } else if config.paused {
        Some(ColonyError::Paused)
    } else if forager.status != STATUS_SCOUT {
        Some(ColonyError::ForagerNotScout)
    } else if forager.last_scout_epoch >= config.epoch {
        Some(ColonyError::ScoutTicketAlreadyDrawn)
    } else if ticket == 0 || config.scout_pool < ticket {
        Some(ColonyError::ScoutPoolExhausted)
    } else if brood.idle_base < ticket {
        Some(ColonyError::InsufficientIdleLiquidity)
    } else if brood.outstanding_principal + ticket > u64::MAX || forager.principal + ticket
        > u64::MAX {
        Some(ColonyError::Overflow)
    } else {
        None
    }
}

/// A ticket paid: the scout pool and idle liquidity fall by the ticket, the
/// vault's deployed principal and the forager's principal rise by it, and the
/// forager is stamped as having drawn this epoch.
pub open spec fn spec_scout_ticket(
    config: ColonyConfig,
    brood: BroodVaultState,
    forager: ForagerState,
    forager_key: Address,
) -> (ColonyConfig, BroodVaultState, ForagerState, ScoutFunded) {
    let ticket = config.scout_ticket_base_units;
    (
        ColonyConfig { scout_pool: (config.scout_pool - ticket) as u64, ..config },
        BroodVaultState {
            idle_base: (brood.idle_base - ticket) as u64,
            outstanding_principal: (brood.outstanding_principal + ticket) as u64,
            ..brood
        },
        ForagerState {
            principal: (forager.principal + ticket) as u64,
            last_scout_epoch: config.epoch,
            ..forager
        },
        ScoutFunded {
            forager: forager_key,
            epoch: config.epoch,
            ticket,
            scout_pool_remaining: (config.scout_pool - ticket) as u64,
        },
    )
}

/// Hand a scout one exploration ticket out of the scout pool.
///
/// A new forager has no pheromone and would never receive capital under pure
/// trail weighting; the scout pool pays fixed-size tickets, one per scout per
/// epoch, out of a budget pheromone never touches. The ticket leaves idle
/// liquidity and becomes deployed principal, so the accounting NAV, and with
/// it the share price, does not move. The caller moves `ticket` from the
/// vault to the forager's sub-account.
pub fn fund_scout(
    config: &mut ColonyConfig,
    brood: &mut BroodVaultState,
    forager: &mut ForagerState,
    forager_key: Address,
) -> (r: Result<ScoutFunded, ColonyError>)
    ensures
        spec_scout_refusal(*old(config), *old(brood), *old(forager)) matches Some(e) ==> r == Err::<
            ScoutFunded,
            ColonyError,
        >(e),
        r is Err ==> *final(config) == *old(config) && *final(brood) == *old(brood)
            && *final(forager) == *old(forager),
        spec_scout_refusal(*old(config), *old(brood), *old(forager)) is None ==> {
            let (c, b, f, e) = spec_scout_ticket(*old(config), *old(brood), *old(forager), forager_key);
            &&& *final(config) == c
            &&& *final(brood) == b
            &&& *final(forager) == f
            &&& r == Ok::<ScoutFunded, ColonyError>(e)
        },
        final(brood).spec_nav() == old(brood).spec_nav(),
{
    let epoch = config.epoch;
    let ticket = config.scout_ticket_base_units;

    // Allocation moves only while the colony is Open: during a settlement the
    // pools are being recomputed by the crank.
    if config.epoch_phase != PHASE_OPEN {
        return Err(ColonyError::WrongPhase);
    }
    if config.paused {
        return Err(ColonyError::Paused);
    }
    if forager.status != STATUS_SCOUT {
        return Err(ColonyError::ForagerNotScout);
    }
    // One ticket per scout per epoch.
    if forager.last_scout_epoch >= epoch {
        return Err(ColonyError::ScoutTicketAlreadyDrawn);
    }
    if ticket == 0 || config.scout_pool < ticket {
        return Err(ColonyError::ScoutPoolExhausted);
    }
    // The pool is a reservation; the tokens must also be idle in the vault.
    if brood.idle_base < ticket {
        return Err(ColonyError::InsufficientIdleLiquidity);
    }
    let outstanding = match brood.outstanding_principal.checked_add(ticket) {
        Some(v) => v,
        None => return Err(ColonyError::Overflow),
    };
    let principal = match forager.principal.checked_add(ticket) {
        Some(v) => v,
        None => return Err(ColonyError::Overflow),
    };

    config.scout_pool = config.scout_pool - ticket;
    brood.idle_base = brood.idle_base - ticket;
    brood.outstanding_principal = outstanding;
    forager.principal = principal;
    forager.last_scout_epoch = epoch;

    Ok(ScoutFunded { forager: forager_key, epoch, ticket, scout_pool_remaining: config.scout_pool })
}

// ---------------------------------------------------------------------------
// slash_forager
// ---------------------------------------------------------------------------

/// Bond fraction to seize, decided from the reason code and recorded state
/// alone: a loss past the threshold seizes a graduated share, a rule
/// violation the whole bond, silence past the timeout the whole bond; any
/// other claim is refused.
pub open spec fn spec_punitive_slash_bps(
    reason_code: u8,
    drawdown_bps: u16,
    dd_slash_bps: u16,
    secs_since_heartbeat: i64,
    nonresponse_limit_secs: i64,
) -> Result<u16, ColonyError> {
    if reason_code == SLASH_REASON_LOSS_THRESHOLD {
        let ramped = spec_loss_slash_bps(drawdown_bps, dd_slash_bps);
        if ramped > 0 {
            Ok(ramped)
        } else {
            Err(ColonyError::NotSlashable)
        }
    } else if reason_code == SLASH_REASON_RULE_VIOLATION {
        Ok(10_000)
    } else if reason_code == SLASH_REASON_NON_RESPONSE {
        if secs_since_heartbeat > nonresponse_limit_secs {
            Ok(10_000)
        } else {
            Err(ColonyError::NotSlashable)
        }
    } else {
        Err(ColonyError::NotSlashable)
    }
}

pub fn punitive_slash_bps(
    reason_code: u8,
    drawdown_bps: u16,
    dd_slash_bps: u16,
    secs_since_heartbeat: i64,
    nonresponse_limit_secs: i64,
) -> (r: Result<u16, ColonyError>)
    ensures
        r == spec_punitive_slash_bps(
            reason_code,
            drawdown_bps,
            dd_slash_bps,
            secs_since_heartbeat,
            nonresponse_limit_secs,
        ),
        r matches Ok(bps) ==> 0 < bps <= 10_000,
{
    if reason_code == SLASH_REASON_LOSS_THRESHOLD {
        // At or under the threshold nothing is seizable, and the call is
        // refused rather than recording a slash of zero.
        let ramped = loss_slash_bps(drawdown_bps, dd_slash_bps);
        if ramped > 0 {
            Ok(ramped)
        } else {
            Err(ColonyError::NotSlashable)
        }
    } else if reason_code == SLASH_REASON_RULE_VIOLATION {
        Ok(10_000)
    } else if reason_code == SLASH_REASON_NON_RESPONSE {
        // Measured against the recorded heartbeat, not taken on the
        // authority's word.
        if secs_since_heartbeat > nonresponse_limit_secs {
            Ok(10_000)
        } else {
            Err(ColonyError::NotSlashable)
        }
    } else {
        Err(ColonyError::NotSlashable)
    }
}

/// Silence allowed before a non-response slash: the timeout in epochs times
/// the epoch length, saturating.
pub open spec fn spec_nonresponse_limit(config: ColonyConfig) -> i64 {
    clamp_i64(config.nonresponse_timeout_epochs * config.epoch_duration_secs)
}

/// Seconds since the forager's last heartbeat, saturating.
pub open spec fn spec_silence(forager: ForagerState, now: i64) -> i64 {
    clamp_i64(now - forager.last_heartbeat_ts)
}

/// The slash fraction `slash_forager` settles on for this forager at `now`.
pub open spec fn spec_slash_decision(
    config: ColonyConfig,
    forager: ForagerState,
    now: i64,
    reason_code: u8,
) -> Result<u16, ColonyError> {
    spec_punitive_slash_bps(
        reason_code,
        forager.current_drawdown_bps,
        config.dd_slash_bps,
        spec_silence(forager, now),
        spec_nonresponse_limit(config),
    )
}

fn nonresponse_limit(timeout_epochs: u8, epoch_duration_secs: i64) -> (r: i64)
    ensures
        r == clamp_i64(timeout_epochs * epoch_duration_secs),
{
    assert(-170_141_183_460_469_231_731_687_303_715_884_105_728 <= (timeout_epochs as int)
        * (epoch_duration_secs as int) <= 170_141_183_460_469_231_731_687_303_715_884_105_727)
        by (nonlinear_arith)
        requires
            0 <= timeout_epochs <= 255,
            -9_223_372_036_854_775_808 <= epoch_duration_secs <= 9_223_372_036_854_775_807,
    ;
    clamp_to_i64((timeout_epochs as i128) * (epoch_duration_secs as i128))
}

/// Seize part or all of a forager's bond, split it between the incinerator
/// and the Risk Cache, and demote the forager.
///
/// Authority-only, but the authority cannot invent a cause: the loss ramp
/// comes from the recorded drawdown, the non-response timeout from the
/// recorded heartbeat, and an unknown reason is refused. A slash takes the
/// same amount out of the sub-account and out of `bond`, so the realized
/// figure settlement measures is the one it found; that is why no phase gate
/// is needed. The forager returns to the Scout Sandbox, or is marked Slashed
/// when what is left of its bond no longer clears `min_bond`. The caller moves
/// `burned` to the incinerator and `to_cache` to the cache vault.
pub fn slash_forager(
    config: &ColonyConfig,
    forager: &mut ForagerState,
    cache: &mut RiskCacheState,
    signer: Address,
    forager_key: Address,
    now: i64,
    reason_code: u8,
) -> (r: Result<ForagerSlashed, ColonyError>)
    requires
        signer == config.authority && old(forager).status != STATUS_RETIRED ==> (spec_slash_decision(
            *config,
            *old(forager),
            now,
            reason_code,
        ) matches Ok(bps) ==> spec_slash_burn(old(forager).bond, bps, config.slash_burn_bps)
            <= spec_slash_amount(old(forager).bond, bps)),
    ensures
        signer != config.authority ==> r == Err::<ForagerSlashed, ColonyError>(
            ColonyError::NotAuthority,
        ),
        signer == config.authority && old(forager).status == STATUS_RETIRED ==> r == Err::<
            ForagerSlashed,
            ColonyError,
        >(ColonyError::ForagerInactive),
        signer == config.authority && old(forager).status != STATUS_RETIRED ==> (spec_slash_decision(
            *config,
            *old(forager),
            now,
            reason_code,
        ) matches Err(e) ==> r == Err::<ForagerSlashed, ColonyError>(e)),
        signer == config.authority && old(forager).status != STATUS_RETIRED ==> (spec_slash_decision(
            *config,
            *old(forager),
            now,
            reason_code,
        ) matches Ok(bps) ==> {
            let slashed = spec_slash_amount(old(forager).bond, bps);
            let burned = spec_slash_burn(old(forager).bond, bps, config.slash_burn_bps);
            let to_cache = slashed - burned;
            let bond_after = old(forager).bond - slashed;
            if old(cache).balance + to_cache > u64::MAX || old(cache).total_burned + burned
                > u64::MAX || old(forager).slash_count == u16::MAX {
                r == Err::<ForagerSlashed, ColonyError>(ColonyError::Overflow)
            } else {
                &&& *final(forager) == ForagerState {
                    bond: bond_after as u64,
                    slash_count: (old(forager).slash_count + 1) as u16,
                    status: if bond_after < config.min_bond {
                        STATUS_SLASHED
                    } else {
                        STATUS_SCOUT
                    },
                    ..*old(forager)
                }
                &&& *final(cache) == RiskCacheState {
                    balance: (old(cache).balance + to_cache) as u64,
                    total_burned: (old(cache).total_burned + burned) as u64,
                    ..*old(cache)
                }
                &&& r == Ok::<ForagerSlashed, ColonyError>(
                    ForagerSlashed {
                        forager: forager_key,
                        operator: old(forager).operator,
                        reason_code,
                        slashed,
                        burned: burned as u64,
                        to_cache: to_cache as u64,
                        bond_after: bond_after as u64,
                        slash_count: (old(forager).slash_count + 1) as u16,
                    },
                )
            }
        }),
        r is Err ==> *final(forager) == *old(forager) && *final(cache) == *old(cache),
        r is Ok ==> final(forager).bond <= old(forager).bond && final(forager).bond
            + final(cache).balance + final(cache).total_burned == old(forager).bond
            + old(cache).balance + old(cache).total_burned,
{
    if !signer.same(&config.authority) {
        return Err(ColonyError::NotAuthority);
    }
    if forager.status == STATUS_RETIRED {
        return Err(ColonyError::ForagerInactive);
    }
    let limit = nonresponse_limit(config.nonresponse_timeout_epochs, config.epoch_duration_secs);
    let silence = clamp_to_i64((now as i128) - (forager.last_heartbeat_ts as i128));
    let slash_bps = match punitive_slash_bps(
        reason_code,
        forager.current_drawdown_bps,
        config.dd_slash_bps,
        silence,
        limit,
    ) {
        Ok(bps) => bps,
        Err(e) => return Err(e),
    };

    let bond_before = forager.bond;
    let out = slash_split(bond_before, slash_bps, config.slash_burn_bps);
    // A slash that outran the posted bond would be taking depositor principal.
    if out.slashed > bond_before {
        return Err(ColonyError::SlashTooLarge);
    }
    let cache_balance = match cache.balance.checked_add(out.to_cache) {
        Some(v) => v,
        None => return Err(ColonyError::Overflow),
    };
    let total_burned = match cache.total_burned.checked_add(out.burn) {
        Some(v) => v,
        None => return Err(ColonyError::Overflow),
    };
    let slash_count = match forager.slash_count.checked_add(1) {
        Some(v) => v,
        None => return Err(ColonyError::Overflow),
    };

    let bond_after = bond_before - out.slashed;
    forager.bond = bond_after;
    cache.balance = cache_balance;
    cache.total_burned = total_burned;
    forager.slash_count = slash_count;
    // Out of the main pool either way; the only question is whether enough
    // bond is left to scout again. Settlement counters are left alone.
    forager.status = if bond_after < config.min_bond {
        STATUS_SLASHED
    } else {
        STATUS_SCOUT
    };

    Ok(
        ForagerSlashed {
            forager: forager_key,
            operator: forager.operator,
            reason_code,
            slashed: out.slashed,
            burned: out.burn,
            to_cache: out.to_cache,
            bond_after,
            slash_count,
        },
    )
}

} // verus!
