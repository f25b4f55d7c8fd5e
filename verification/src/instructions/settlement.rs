//! Epoch settlement crank.
//!
//! An epoch closes in phases: `begin_settlement` moves the colony from Open to
//! Settling and clears the accumulators and the trail board; `settle_forager`
//! then runs once per forager, in any order. Every phase is permissionless,
//! and no input to a trail is taken from an operator: each forager is measured
//! from its sub-account balance, its recorded bond and its recorded principal.
use vstd::prelude::*;

use crate::constants::{
    CAP_RELAX_MARGIN_BPS, PHASE_OPEN, PHASE_SETTLING, PHEROMONE_CEIL, STATUS_ACTIVE,
    STATUS_PROBATION, STATUS_RETIRED, STATUS_SCOUT,
};
use crate::errors::ColonyError;
use crate::events::{CacheAccrued, ForagerDemoted, ForagerSettled, LossCovered, SettlementBegan};
use crate::math::{
    cache_accrual, cover_loss, deposit_fp6, effective_max_weight_bps, max_int, min_int,
    realized_epoch_pnl, return_bps, risk_adjusted_perf_bps, sat_sub, spec_cache_accrual,
    spec_deposit_fp6, spec_effective_max_weight_bps, spec_realized_epoch_pnl, spec_return_bps,
    spec_risk_adjusted_perf_bps, spec_top_insert, spec_update_pheromone,
    spec_weight_bps_from_level, top_insert, update_pheromone, weight_bps_from_level, BPS_DENOM,
    CapLevel, TOP_TRAILS_LEN,
};
use crate::state::{
    is_cleared_board, Address, BroodVaultState, ColonyConfig, ForagerState, RiskCacheState,
    TrailBoard,
};

verus! {

// ===========================================================================
// Phase 1: begin
// ===========================================================================

/// Open the settlement window for the epoch that has just ended.
///
/// Anyone may call it once `epoch_end_ts` has passed. Registration and
/// retirement freeze while the colony is Settling, which makes
/// `settleable_forager_count` a stable finish line for the crank. Epoch
/// numbering starts at 1: a forager is admitted while
/// `last_settled_epoch < settling_epoch` and that field starts at 0, so an
/// epoch numbered 0 could never settle anyone.
pub fn begin_settlement(config: &mut ColonyConfig, board: &mut TrailBoard, now: i64) -> (r: Result<
    SettlementBegan,
    ColonyError,
>)
    ensures
        old(config).epoch_phase != PHASE_OPEN ==> r == Err::<SettlementBegan, ColonyError>(
            ColonyError::WrongPhase,
        ),
        old(config).epoch_phase == PHASE_OPEN && now < old(config).epoch_end_ts ==> r == Err::<
            SettlementBegan,
            ColonyError,
        >(ColonyError::EpochNotOver),
        old(config).epoch_phase == PHASE_OPEN && now >= old(config).epoch_end_ts && old(
            config,
        ).settleable_forager_count == 0 ==> r == Err::<SettlementBegan, ColonyError>(
            ColonyError::NoActiveForagers,
        ),
        r is Err ==> *final(config) == *old(config) && *final(board) == *old(board),
        old(config).epoch_phase == PHASE_OPEN && now >= old(config).epoch_end_ts
            && old(config).settleable_forager_count > 0 ==> {
            let epoch: u64 = if old(config).epoch == 0 {
                1
            } else {
                old(config).epoch
            };
            &&& *final(config) == ColonyConfig {
                epoch,
                epoch_phase: PHASE_SETTLING,
                settling_epoch: epoch,
                pheromone_sum_acc: 0,
                active_count_acc: 0,
                settled_count: 0,
                ..*old(config)
            }
            &&& is_cleared_board(final(board).top)
            &&& final(board).count == 0
            &&& final(board).bump == old(board).bump
            &&& r == Ok::<SettlementBegan, ColonyError>(
                SettlementBegan {
                    settling_epoch: epoch,
                    active_forager_count: old(config).settleable_forager_count,
                    started_at: now,
                },
            )
        },
{
    if config.epoch_phase != PHASE_OPEN {
        return Err(ColonyError::WrongPhase);
    }
    if now < config.epoch_end_ts {
        return Err(ColonyError::EpochNotOver);
    }
    if config.settleable_forager_count == 0 {
        return Err(ColonyError::NoActiveForagers);
    }
    if config.epoch == 0 {
        config.epoch = 1;
    }
    config.epoch_phase = PHASE_SETTLING;
    config.settling_epoch = config.epoch;
    config.pheromone_sum_acc = 0;
    config.active_count_acc = 0;
    config.settled_count = 0;

    board.reset();

    Ok(
        SettlementBegan {
            settling_epoch: config.settling_epoch,
            // The population this crank must cover: every forager that is
            // not retired.
            active_forager_count: config.settleable_forager_count,
            started_at: now,
        },
    )
}

// ===========================================================================
// Measurement
// ===========================================================================

/// Rebase an equity high-water mark across a capital flow, scaling it with
/// principal so that capital the colony adds or takes back is not read as
/// performance. A mark rebased from zero principal starts afresh.
pub open spec fn spec_rescale_high_water(
    high_water: u64,
    principal_before: u64,
    principal_after: u64,
) -> u64 {
    if principal_before == 0 {
        principal_after
    } else {
        min_int((high_water * principal_after) / (principal_before as int), u64::MAX as int) as u64
    }
}

pub fn rescale_high_water(high_water: u64, principal_before: u64, principal_after: u64) -> (r: u64)
    ensures
        r == spec_rescale_high_water(high_water, principal_before, principal_after),
        principal_before > 0 && principal_after <= principal_before ==> r <= high_water,
{
    if principal_before == 0 {
        return principal_after;
    }
    assert((high_water as int) * (principal_after as int) <= 18_446_744_073_709_551_615
        * 18_446_744_073_709_551_615) by (nonlinear_arith)
        requires
            high_water <= 18_446_744_073_709_551_615,
            principal_after <= 18_446_744_073_709_551_615,
    ;
    let scaled = (high_water as u128) * (principal_after as u128) / (principal_before as u128);
    proof {
        if principal_after <= principal_before {
            let h = high_water as int;
            let a = principal_after as int;
            let b = principal_before as int;
            assert(h * a <= h * b) by (nonlinear_arith)
                requires
                    0 <= a <= b,
                    h >= 0,
            ;
            assert((h * a) / b <= h) by (nonlinear_arith)
                requires
                    h * a <= h * b,
                    b > 0,
            ;
        }
    }
    if scaled < u64::MAX as u128 {
        scaled as u64
    } else {
        u64::MAX
    }
}

/// Drawdown of `equity` below its high-water mark, in bps of the mark.
pub open spec fn spec_drawdown_bps(high_water: u64, equity: u64) -> u16 {
    if high_water == 0 {
        0
    } else {
        min_int(((high_water - equity) * 10_000) / (high_water as int), 10_000) as u16
    }
}

/// Everything one settlement reads off a forager.
#[derive(Debug, Clone, Copy, PartialEq, Eq, Structural)]
pub struct SettleMeasure {
    /// Sub-account balance above the bond: the colony's claim after the epoch.
    pub equity: u64,
    /// `equity - principal`, the epoch's realized result.
    pub realized: i64,
    pub high_water: u64,
    pub drawdown_bps: u16,
    pub return_bps: i64,
    pub perf_bps: i64,
    pub deposit_fp6: i64,
    /// The trail after this epoch's evaporation and deposit.
    pub pheromone: u64,
}

/// The measurement, from the sub-account balance and the recorded bond,
/// principal, high-water mark and trail alone.
pub open spec fn spec_measure(config: ColonyConfig, forager: ForagerState, vault_balance: u64) -> SettleMeasure {
    let equity = sat_sub(vault_balance as int, forager.bond as int) as u64;
    let realized = spec_realized_epoch_pnl(vault_balance, forager.bond, forager.principal);
    let high_water = max_int(forager.high_water as int, equity as int) as u64;
    let drawdown_bps = spec_drawdown_bps(high_water, equity);
    let ret = spec_return_bps(realized, forager.principal);
    let perf = spec_risk_adjusted_perf_bps(ret, drawdown_bps, config.risk_aversion_bps);
    let deposit = spec_deposit_fp6(perf, config.perf_norm_s_bps, config.deposit_scale_q);
    SettleMeasure {
        equity,
        realized,
        high_water,
        drawdown_bps,
        return_bps: ret,
        perf_bps: perf,
        deposit_fp6: deposit,
        pheromone: spec_update_pheromone(forager.pheromone, deposit, config.rho_bps, PHEROMONE_CEIL),
    }
}

/// Measure a forager for settlement. The bond is taken out of the balance
/// before it is compared against principal, so a bond top-up never reads as
/// trading profit; drawdown is measured from realized equity only.
pub fn measure_forager(config: &ColonyConfig, forager: &ForagerState, vault_balance: u64) -> (m:
    SettleMeasure)
    ensures
        m == spec_measure(*config, *forager, vault_balance),
        m.equity <= m.high_water,
        m.drawdown_bps <= 10_000,
{
    let bond = forager.bond;
    let principal = forager.principal;
    let equity = vault_balance.saturating_sub(bond);
    let realized = realized_epoch_pnl(vault_balance, bond, principal);

    let high_water = if forager.high_water < equity {
        equity
    } else {
        forager.high_water
    };
    let drawdown_bps: u16 = if high_water == 0 {
        0
    } else {
        let gap = (high_water - equity) as u128;
        assert(gap * 10_000 <= 18_446_744_073_709_551_615 * 10_000) by (nonlinear_arith)
            requires
                gap <= 18_446_744_073_709_551_615,
        ;
        let dd = gap * BPS_DENOM / (high_water as u128);
        if dd < BPS_DENOM {
            dd as u16
        } else {
            BPS_DENOM as u16
        }
    };

    let ret = return_bps(realized, principal);
    let perf = risk_adjusted_perf_bps(ret, drawdown_bps, config.risk_aversion_bps);
    let deposit = deposit_fp6(perf, config.perf_norm_s_bps, config.deposit_scale_q);
    let pheromone = update_pheromone(forager.pheromone, deposit, config.rho_bps, PHEROMONE_CEIL);
    SettleMeasure {
        equity,
        realized,
        high_water,
        drawdown_bps,
        return_bps: ret,
        perf_bps: perf,
        deposit_fp6: deposit,
        pheromone,
    }
}

// ===========================================================================
// Phase 2: the stages of one forager's settlement
// ===========================================================================

/// The trail and accounting record after measurement; `None` where a counter
/// would overflow.
pub open spec fn spec_record_trail(forager: ForagerState, m: SettleMeasure) -> Option<ForagerState> {
    let cumulative = forager.realized_pnl_cumulative + m.realized;
    let realized_epochs = if m.realized != 0 {
        forager.realized_epochs + 1
    } else {
        forager.realized_epochs as int
    };
    let scouting = forager.status == STATUS_SCOUT;
    let scout_epochs = if scouting {
        forager.scout_epochs + 1
    } else {
        forager.scout_epochs as int
    };
    let scout_perf = if scouting {
        forager.scout_perf_cum_bps + m.perf_bps
    } else {
        forager.scout_perf_cum_bps as int
    };
    if cumulative < i64::MIN || cumulative > i64::MAX || realized_epochs > u64::MAX
        || scout_epochs > u64::MAX || scout_perf < i64::MIN || scout_perf > i64::MAX {
        None
    } else {
        Some(
            ForagerState {
                high_water: m.high_water,
                current_drawdown_bps: m.drawdown_bps,
                max_drawdown_bps: if m.drawdown_bps > forager.max_drawdown_bps {
                    m.drawdown_bps
                } else {
                    forager.max_drawdown_bps
                },
                pheromone: m.pheromone,
                // The colony's claim on the sub-account is now its equity,
                // whatever the epoch did to it.
                principal: m.equity,
                realized_pnl_cumulative: cumulative as i64,
                realized_epochs: realized_epochs as u64,
                scout_epochs: scout_epochs as u64,
                scout_perf_cum_bps: scout_perf as i64,
                ..forager
            },
        )
    }
}

fn record_trail(forager: &ForagerState, m: &SettleMeasure) -> (r: Option<ForagerState>)
    ensures
        r == spec_record_trail(*forager, *m),
{
    let cumulative = match forager.realized_pnl_cumulative.checked_add(m.realized) {
        Some(v) => v,
        None => return None,
    };
    let mut realized_epochs = forager.realized_epochs;
    if m.realized != 0 {
        realized_epochs = match realized_epochs.checked_add(1) {
            Some(v) => v,
            None => return None,
        };
    }
    let mut scout_epochs = forager.scout_epochs;
    let mut scout_perf = forager.scout_perf_cum_bps;
    if forager.status == STATUS_SCOUT {
        scout_epochs = match scout_epochs.checked_add(1) {
            Some(v) => v,
            None => return None,
        };
        scout_perf = match scout_perf.checked_add(m.perf_bps) {
            Some(v) => v,
            None => return None,
        };
    }
    let mut next = *forager;
    next.high_water = m.high_water;
    next.current_drawdown_bps = m.drawdown_bps;
    if m.drawdown_bps > next.max_drawdown_bps {
        next.max_drawdown_bps = m.drawdown_bps;
    }
    next.pheromone = m.pheromone;
    next.principal = m.equity;
    next.realized_pnl_cumulative = cumulative;
    next.realized_epochs = realized_epochs;
    next.scout_epochs = scout_epochs;
    next.scout_perf_cum_bps = scout_perf;
    Some(next)
}

/// The vault's outstanding claim follows the forager's principal from
/// `principal_before` to `equity`.
pub open spec fn spec_rebase_outstanding(
    brood: BroodVaultState,
    principal_before: u64,
    equity: u64,
) -> Option<BroodVaultState> {
    let outstanding = sat_sub(brood.outstanding_principal as int, principal_before as int) + equity;
    if outstanding > u64::MAX {
        None
    } else {
        Some(BroodVaultState { outstanding_principal: outstanding as u64, ..brood })
    }
}

fn rebase_outstanding(brood: &BroodVaultState, principal_before: u64, equity: u64) -> (r: Option<
    BroodVaultState,
>)
    ensures
        r == spec_rebase_outstanding(*brood, principal_before, equity),
{
    let outstanding = match brood.outstanding_principal.saturating_sub(principal_before).checked_add(
        equity,
    ) {
        Some(v) => v,
        None => return None,
    };
    Some(BroodVaultState { outstanding_principal: outstanding, ..*brood })
}

/// A realized loss, absorbed bond first, then Risk Cache, then depositor NAV.
/// The bond and cache shares are paid into the vault's idle liquidity, and an
/// Active forager whose drawdown reached the probation threshold is put on
/// probation for the grace window.
pub open spec fn spec_absorb_loss(
    config: ColonyConfig,
    forager: ForagerState,
    brood: BroodVaultState,
    cache: RiskCacheState,
    m: SettleMeasure,
    forager_key: Address,
) -> Option<(ForagerState, BroodVaultState, RiskCacheState, LossCovered)> {
    let loss = -m.realized;
    let from_bond = min_int(loss, forager.bond as int);
    let from_cache = min_int(loss - from_bond, cache.balance as int);
    let to_depositors = loss - from_bond - from_cache;
    let probation = forager.status == STATUS_ACTIVE && m.drawdown_bps >= config.dd_probation_bps;
    let probation_until = config.settling_epoch + config.probation_grace_epochs;
    if cache.total_covered + from_cache > u64::MAX || brood.idle_base + from_bond + from_cache
        > u64::MAX || (probation && probation_until > u64::MAX) {
        None
    } else {
        Some(
            (
                ForagerState {
                    bond: (forager.bond - from_bond) as u64,
                    status: if probation {
                        STATUS_PROBATION
                    } else {
                        forager.status
                    },
                    probation_until_epoch: if probation {
                        probation_until as u64
                    } else {
                        forager.probation_until_epoch
                    },
                    ..forager
                },
                BroodVaultState {
                    idle_base: (brood.idle_base + from_bond + from_cache) as u64,
                    ..brood
                },
                RiskCacheState {
                    balance: (cache.balance - from_cache) as u64,
                    total_covered: (cache.total_covered + from_cache) as u64,
                    ..cache
                },
                LossCovered {
                    forager: forager_key,
                    loss: loss as u64,
                    from_bond: from_bond as u64,
                    from_cache: from_cache as u64,
                    to_depositors: to_depositors as u64,
                },
            ),
        )
    }
}

fn absorb_loss(
    config: &ColonyConfig,
    forager: &ForagerState,
    brood: &BroodVaultState,
    cache: &RiskCacheState,
    m: &SettleMeasure,
    forager_key: Address,
) -> (r: Option<(ForagerState, BroodVaultState, RiskCacheState, LossCovered)>)
    requires
        m.realized < 0,
    ensures
        r == spec_absorb_loss(*config, *forager, *brood, *cache, *m, forager_key),
{
    // The sub-account already took the hit; what remains is the waterfall.
    let loss: u64 = (0i128 - (m.realized as i128)) as u64;
    let outcome = cover_loss(loss, forager.bond, cache.balance);

    let total_covered = match cache.total_covered.checked_add(outcome.from_cache) {
        Some(v) => v,
        None => return None,
    };
    let reimbursed = match outcome.from_bond.checked_add(outcome.from_cache) {
        Some(v) => v,
        None => return None,
    };
    let idle_base = match brood.idle_base.checked_add(reimbursed) {
        Some(v) => v,
        None => return None,
    };

    let mut next = *forager;
    next.bond = forager.bond - outcome.from_bond;
    // A milder drawdown freezes new allocation for a grace window instead of
    // seizing anything.
    if next.status == STATUS_ACTIVE && m.drawdown_bps >= config.dd_probation_bps {
        next.status = STATUS_PROBATION;
        next.probation_until_epoch = match config.settling_epoch.checked_add(
            config.probation_grace_epochs as u64,
        ) {
            Some(v) => v,
            None => return None,
        };
    }
    let event = LossCovered {
        forager: forager_key,
        loss,
        from_bond: outcome.from_bond,
        from_cache: outcome.from_cache,
        to_depositors: outcome.to_vault_loss,
    };
    Some(
        (
            next,
            BroodVaultState { idle_base, ..*brood },
            RiskCacheState { balance: cache.balance - outcome.from_cache, total_covered, ..*cache },
            event,
        ),
    )
}

/// A realized profit pays a cut into the Risk Cache, but only while the cache
/// is below its reserve target, and never more than the forager's principal.
/// The cut leaves the sub-account and the vault's claim, and the high-water
/// mark is rebased on the same move so it is not read as a drawdown.
pub open spec fn spec_accrue_profit(
    config: ColonyConfig,
    forager: ForagerState,
    brood: BroodVaultState,
    cache: RiskCacheState,
    m: SettleMeasure,
) -> Option<(ForagerState, BroodVaultState, RiskCacheState, Option<CacheAccrued>)> {
    let reserve_target = ((brood.spec_nav() * config.cache_reserve_target_bps) / 10_000) as u64;
    let accrual = min_int(
        spec_cache_accrual(m.realized as u64, config.cache_accrual_bps) as int,
        forager.principal as int,
    );
    if cache.balance >= reserve_target || accrual == 0 {
        Some((forager, brood, cache, None))
    } else if cache.balance + accrual > u64::MAX || cache.total_accrued + accrual > u64::MAX {
        None
    } else {
        let principal = (forager.principal - accrual) as u64;
        let balance = (cache.balance + accrual) as u64;
        Some(
            (
                ForagerState {
                    principal,
                    high_water: spec_rescale_high_water(
                        forager.high_water,
                        forager.principal,
                        principal,
                    ),
                    ..forager
                },
                BroodVaultState {
                    outstanding_principal: sat_sub(
                        brood.outstanding_principal as int,
                        accrual,
                    ) as u64,
                    ..brood
                },
                RiskCacheState {
                    balance,
                    total_accrued: (cache.total_accrued + accrual) as u64,
                    ..cache
                },
                Some(
                    CacheAccrued { epoch: config.settling_epoch, amount: accrual as u64, cache_balance: balance },
                ),
            ),
        )
    }
}

fn accrue_profit(
    config: &ColonyConfig,
    forager: &ForagerState,
    brood: &BroodVaultState,
    cache: &RiskCacheState,
    m: &SettleMeasure,
) -> (r: Option<(ForagerState, BroodVaultState, RiskCacheState, Option<CacheAccrued>)>)
    requires
        m.realized > 0,
    ensures
        r == spec_accrue_profit(*config, *forager, *brood, *cache, *m),
{
    let nav = brood.nav();
    assert((nav as int) * (config.cache_reserve_target_bps as int) <= 18_446_744_073_709_551_615
        * 65_535) by (nonlinear_arith)
        requires
            nav <= 18_446_744_073_709_551_615,
            config.cache_reserve_target_bps <= 65_535,
    ;
    let reserve_target = ((nav as u128) * (config.cache_reserve_target_bps as u128) / BPS_DENOM) as u64;
    let cut = cache_accrual(m.realized as u64, config.cache_accrual_bps);
    let accrual = if cut < forager.principal {
        cut
    } else {
        forager.principal
    };
    if cache.balance >= reserve_target || accrual == 0 {
        return Some((*forager, *brood, *cache, None));
    }
    let balance = match cache.balance.checked_add(accrual) {
        Some(v) => v,
        None => return None,
    };
    let total_accrued = match cache.total_accrued.checked_add(accrual) {
        Some(v) => v,
        None => return None,
    };
    let before = forager.principal;
    let principal = before - accrual;
    let high_water = rescale_high_water(forager.high_water, before, principal);
    Some(
        (
            ForagerState { principal, high_water, ..*forager },
            BroodVaultState {
                outstanding_principal: brood.outstanding_principal.saturating_sub(accrual),
                ..*brood
            },
            RiskCacheState { balance, total_accrued, ..*cache },
            Some(CacheAccrued { epoch: config.settling_epoch, amount: accrual, cache_balance: balance }),
        ),
    )
}

/// The level the previous finalize solved, as a forager's weight is read from
/// it.
pub open spec fn spec_settled_level(config: ColonyConfig) -> CapLevel {
    CapLevel {
        capped_count: 0,
        remaining_bps: config.alloc_remaining_bps,
        rest_sum: config.alloc_rest_sum,
    }
}

/// A forager's weight under that level at the effective concentration cap.
pub open spec fn spec_settled_weight(config: ColonyConfig, pheromone: u64) -> u16 {
    spec_weight_bps_from_level(
        pheromone,
        spec_settled_level(config),
        spec_effective_max_weight_bps(
            config.w_max_bps,
            config.active_forager_count,
            CAP_RELAX_MARGIN_BPS,
        ),
    )
}

/// Probation recovery, then demotion: a probationary forager whose drawdown
/// is back under the threshold returns to Active, and an Active forager whose
/// weight decayed under `w_drop` returns to the Scout Sandbox. The flag says
/// whether the forager still counts toward the next normalization.
pub open spec fn spec_review_status(
    config: ColonyConfig,
    forager: ForagerState,
    m: SettleMeasure,
    forager_key: Address,
) -> (ForagerState, Option<ForagerDemoted>, bool) {
    let recovered = forager.status == STATUS_PROBATION && m.drawdown_bps < config.dd_probation_bps;
    let reviewed = if recovered {
        ForagerState { status: STATUS_ACTIVE, probation_until_epoch: 0, ..forager }
    } else {
        forager
    };
    let weight = spec_settled_weight(config, m.pheromone);
    if reviewed.status == STATUS_ACTIVE && weight < config.w_drop_bps {
        (
            ForagerState { status: STATUS_SCOUT, ..reviewed },
            Some(
                ForagerDemoted {
                    forager: forager_key,
                    epoch: config.settling_epoch,
                    weight_bps: weight,
                    returned_principal: 0,
                },
            ),
            false,
        )
    } else {
        (reviewed, None, reviewed.status == STATUS_ACTIVE)
    }
}

fn review_status(
    config: &ColonyConfig,
    forager: &ForagerState,
    m: &SettleMeasure,
    forager_key: Address,
) -> (r: (ForagerState, Option<ForagerDemoted>, bool))
    ensures
        r == spec_review_status(*config, *forager, *m, forager_key),
{
    let mut next = *forager;
    // Probation is a grace window, not a sentence. Failing to recover does
    // not slash here: a slash re-derives its cause from chain state.
    if next.status == STATUS_PROBATION && m.drawdown_bps < config.dd_probation_bps {
        next.status = STATUS_ACTIVE;
        next.probation_until_epoch = 0;
    }
    // Weighed against the level solved at the previous finalize. A decayed
    // trail is removed rather than propped up, and its weight is freed for
    // the survivors at the next normalization.
    let eff_max_weight_bps = effective_max_weight_bps(
        config.w_max_bps,
        config.active_forager_count,
        CAP_RELAX_MARGIN_BPS,
    );
    let level = CapLevel {
        capped_count: 0,
        remaining_bps: config.alloc_remaining_bps,
        rest_sum: config.alloc_rest_sum,
    };
    let weight_bps = weight_bps_from_level(m.pheromone, &level, eff_max_weight_bps);
    if next.status == STATUS_ACTIVE && weight_bps < config.w_drop_bps {
        next.status = STATUS_SCOUT;
        // Capital is not moved here; it returns through rebalancing.
        let event = ForagerDemoted {
            forager: forager_key,
            epoch: config.settling_epoch,
            weight_bps,
            returned_principal: 0,
        };
        return (next, Some(event), false);
    }
    let counts_active = next.status == STATUS_ACTIVE;
    (next, None, counts_active)
}

/// The colony's accumulators after one more settled forager: an Active trail
/// joins the pheromone sum, the active count and the trail board, and every
/// settled forager counts toward the crank's finish line.
pub open spec fn spec_accumulate(
    config: ColonyConfig,
    top: Seq<u64>,
    count: u8,
    pheromone: u64,
    counts_active: bool,
) -> Option<(ColonyConfig, Seq<u64>, u8)> {
    let sum = if counts_active {
        config.pheromone_sum_acc + pheromone
    } else {
        config.pheromone_sum_acc as int
    };
    let active = if counts_active {
        config.active_count_acc + 1
    } else {
        config.active_count_acc as int
    };
    let (top_after, count_after) = if counts_active {
        spec_top_insert(top, count, pheromone)
    } else {
        (top, count)
    };
    if sum > u128::MAX || active > u32::MAX || config.settled_count == u32::MAX {
        None
    } else {
        Some(
            (
                ColonyConfig {
                    pheromone_sum_acc: sum as u128,
                    active_count_acc: active as u32,
                    settled_count: (config.settled_count + 1) as u32,
                    ..config
                },
                top_after,
                count_after,
            ),
        )
    }
}

fn accumulate(
    config: &ColonyConfig,
    top: &mut [u64; TOP_TRAILS_LEN],
    count: u8,
    pheromone: u64,
    counts_active: bool,
) -> (r: Option<(ColonyConfig, u8)>)
    ensures
        r matches Some((c, n)) ==> spec_accumulate(*config, old(top)@, count, pheromone, counts_active)
            == Some((c, final(top)@, n)),
        r is None ==> spec_accumulate(*config, old(top)@, count, pheromone, counts_active) is None,
{
    let mut next = *config;
    let mut count_after = count;
    if counts_active {
        next.pheromone_sum_acc = match next.pheromone_sum_acc.checked_add(pheromone as u128) {
            Some(v) => v,
            None => return None,
        };
        next.active_count_acc = match next.active_count_acc.checked_add(1) {
            Some(v) => v,
            None => return None,
        };
    }
    next.settled_count = match next.settled_count.checked_add(1) {
        Some(v) => v,
        None => return None,
    };
    // Only the largest trails can sit at the concentration cap, so the top
    // slots are enough to solve the level at finalize in one pass.
    if counts_active {
        count_after = top_insert(top, count, pheromone);
    }
    Some((next, count_after))
}

/// The loss waterfall or the profit accrual, as the epoch's result calls for;
/// a flat epoch moves nothing.
pub open spec fn spec_apply_result(
    config: ColonyConfig,
    forager: ForagerState,
    brood: BroodVaultState,
    cache: RiskCacheState,
    m: SettleMeasure,
    forager_key: Address,
) -> Option<
    (ForagerState, BroodVaultState, RiskCacheState, Option<LossCovered>, Option<CacheAccrued>),
> {
    if m.realized < 0 {
        match spec_absorb_loss(config, forager, brood, cache, m, forager_key) {
            Some((f, b, c, e)) => Some((f, b, c, Some(e), None)),
            None => None,
        }
    } else if m.realized > 0 {
        match spec_accrue_profit(config, forager, brood, cache, m) {
            Some((f, b, c, a)) => Some((f, b, c, None, a)),
            None => None,
        }
    } else {
        Some((forager, brood, cache, None, None))
    }
}

fn apply_result(
    config: &ColonyConfig,
    forager: &ForagerState,
    brood: &BroodVaultState,
    cache: &RiskCacheState,
    m: &SettleMeasure,
    forager_key: Address,
) -> (r: Option<
    (ForagerState, BroodVaultState, RiskCacheState, Option<LossCovered>, Option<CacheAccrued>),
>)
    ensures
        r == spec_apply_result(*config, *forager, *brood, *cache, *m, forager_key),
{
    if m.realized < 0 {
        match absorb_loss(config, forager, brood, cache, m, forager_key) {
            Some((f, b, c, e)) => Some((f, b, c, Some(e), None)),
            None => None,
        }
    } else if m.realized > 0 {
        match accrue_profit(config, forager, brood, cache, m) {
            Some((f, b, c, a)) => Some((f, b, c, None, a)),
            None => None,
        }
    } else {
        Some((*forager, *brood, *cache, None, None))
    }
}

/// What a settled forager reports: its record and the events the caller
/// emits. A `loss` moves `from_bond` from the forager's sub-account and
/// `from_cache` from the cache vault into the Brood Vault; an `accrued` moves
/// `amount` from the sub-account into the cache vault.
#[derive(Debug, Clone, Copy, PartialEq, Eq, Structural)]
pub struct SettleOutcome {
    pub settled: ForagerSettled,
    pub loss: Option<LossCovered>,
    pub accrued: Option<CacheAccrued>,
    pub demoted: Option<ForagerDemoted>,
}

/// Every account a settlement writes, after it.
pub struct Settled {
    pub config: ColonyConfig,
    pub forager: ForagerState,
    pub brood: BroodVaultState,
    pub cache: RiskCacheState,
    pub top: Seq<u64>,
    pub count: u8,
    pub outcome: SettleOutcome,
}

/// One forager's settlement once the phase, idempotency and lifecycle guards
/// have passed: measure, record the trail, rebase the vault's claim, absorb
/// the loss or accrue the profit, review the status, accumulate. `None` where
/// a counter would overflow.
pub open spec fn spec_settle(
    config: ColonyConfig,
    forager: ForagerState,
    brood: BroodVaultState,
    cache: RiskCacheState,
    top: Seq<u64>,
    count: u8,
    vault_balance: u64,
    forager_key: Address,
) -> Option<Settled> {
    let m = spec_measure(config, forager, vault_balance);
    match spec_record_trail(forager, m) {
        None => None,
        Some(traced) => match spec_rebase_outstanding(brood, forager.principal, m.equity) {
            None => None,
            Some(rebased) => match spec_apply_result(config, traced, rebased, cache, m, forager_key) {
                None => None,
                Some((f, b, c, loss, accrued)) => {
                    let (reviewed, demoted, counts_active) = spec_review_status(
                        config,
                        f,
                        m,
                        forager_key,
                    );
                    match spec_accumulate(config, top, count, m.pheromone, counts_active) {
                        None => None,
                        Some((accumulated, top_after, count_after)) => Some(
                            Settled {
                                config: accumulated,
                                forager: ForagerState {
                                    last_settled_epoch: config.settling_epoch,
                                    ..reviewed
                                },
                                brood: b,
                                cache: c,
                                top: top_after,
                                count: count_after,
                                outcome: SettleOutcome {
                                    settled: ForagerSettled {
                                        forager: forager_key,
                                        settling_epoch: config.settling_epoch,
                                        realized_pnl_epoch: m.realized,
                                        return_bps: m.return_bps,
                                        perf_bps: m.perf_bps,
                                        deposit_fp6: m.deposit_fp6,
                                        pheromone: m.pheromone,
                                        principal_after: reviewed.principal,
                                        drawdown_bps: m.drawdown_bps,
                                    },
                                    loss,
                                    accrued,
                                    demoted,
                                },
                            },
                        ),
                    }
                },
            },
        },
    }
}

/// The first guard `settle_forager` fails, if any.
pub open spec fn spec_settle_refusal(config: ColonyConfig, forager: ForagerState) -> Option<
    ColonyError,
> {
    if config.epoch_phase != PHASE_SETTLING {
        Some(ColonyError::NotSettling)
    } else if forager.last_settled_epoch >= config.settling_epoch {
        Some(ColonyError::AlreadySettledThisEpoch)
    } else if forager.status == STATUS_RETIRED {
        Some(ColonyError::ForagerInactive)
    } else {
        None
    }
}

/// Settle one forager for the epoch under settlement.
///
/// Permissionless and once per forager per epoch. `vault_balance` is the
/// balance of the forager's own sub-account, read by the caller from the
/// account the forager record names; there is no parameter through which an
/// operator could report its own result. The caller carries out the
/// transfers the returned events describe, then emits them.
pub fn settle_forager(
    config: &mut ColonyConfig,
    forager: &mut ForagerState,
    brood: &mut BroodVaultState,
    cache: &mut RiskCacheState,
    board: &mut TrailBoard,
    vault_balance: u64,
    forager_key: Address,
) -> (r: Result<SettleOutcome, ColonyError>)
    ensures
        spec_settle_refusal(*old(config), *old(forager)) matches Some(e) ==> r == Err::<
            SettleOutcome,
            ColonyError,
        >(e),
        spec_settle_refusal(*old(config), *old(forager)) is None ==> match spec_settle(
            *old(config),
            *old(forager),
            *old(brood),
            *old(cache),
            old(board).top@,
            old(board).count,
            vault_balance,
            forager_key,
        ) {
            None => r == Err::<SettleOutcome, ColonyError>(ColonyError::Overflow),
            Some(s) => {
                &&& *final(config) == s.config
                &&& *final(forager) == s.forager
                &&& *final(brood) == s.brood
                &&& *final(cache) == s.cache
                &&& final(board).top@ == s.top
                &&& final(board).count == s.count
                &&& final(board).bump == old(board).bump
                &&& r == Ok::<SettleOutcome, ColonyError>(s.outcome)
            },
        },
        r is Err ==> *final(config) == *old(config) && *final(forager) == *old(forager)
            && *final(brood) == *old(brood) && *final(cache) == *old(cache)
            && *final(board) == *old(board),
        r is Ok ==> {
            &&& final(forager).last_settled_epoch == old(config).settling_epoch
            &&& final(config).settling_epoch == old(config).settling_epoch
            &&& final(config).epoch_phase == PHASE_SETTLING
            &&& final(config).settled_count == old(config).settled_count + 1
        },
{
    if config.epoch_phase != PHASE_SETTLING {
        return Err(ColonyError::NotSettling);
    }
    let settling_epoch = config.settling_epoch;
    // Without this a caller could settle the same forager twice and count it
    // into the accumulators twice.
    if forager.last_settled_epoch >= settling_epoch {
        return Err(ColonyError::AlreadySettledThisEpoch);
    }
    if forager.status == STATUS_RETIRED {
        return Err(ColonyError::ForagerInactive);
    }

    let m = measure_forager(config, forager, vault_balance);
    let traced = match record_trail(forager, &m) {
        Some(f) => f,
        None => return Err(ColonyError::Overflow),
    };
    let rebased = match rebase_outstanding(brood, forager.principal, m.equity) {
        Some(b) => b,
        None => return Err(ColonyError::Overflow),
    };
    let (f, b, c, loss, accrued) = match apply_result(config, &traced, &rebased, cache, &m, forager_key) {
        Some(t) => t,
        None => return Err(ColonyError::Overflow),
    };
    let (reviewed, demoted, counts_active) = review_status(config, &f, &m, forager_key);
    let mut top = board.top;
    let (accumulated, count_after) = match accumulate(
        config,
        &mut top,
        board.count,
        m.pheromone,
        counts_active,
    ) {
        Some(t) => t,
        None => return Err(ColonyError::Overflow),
    };

    let mut settled_record = reviewed;
    settled_record.last_settled_epoch = settling_epoch;
    let settled = ForagerSettled {
        forager: forager_key,
        settling_epoch,
        realized_pnl_epoch: m.realized,
        return_bps: m.return_bps,
        perf_bps: m.perf_bps,
        deposit_fp6: m.deposit_fp6,
        pheromone: m.pheromone,
        principal_after: settled_record.principal,
        drawdown_bps: m.drawdown_bps,
    };

    *config = accumulated;
    *forager = settled_record;
    *brood = b;
    *cache = c;
    board.top = top;
    board.count = count_after;

    Ok(SettleOutcome { settled, loss, accrued, demoted })
}

} // verus!
