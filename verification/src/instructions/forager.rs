//! Forager lifecycle: admission and registration, and the isolated
//! sub-account.
//!
//! A forager's sub-account holds `bond + principal` in one balance, and
//! `ForagerState.bond` is the separate record of how much of it is the
//! operator's own collateral.
use vstd::prelude::*;

use crate::constants::{PHASE_OPEN, STATUS_SCOUT};
use crate::errors::ColonyError;
use crate::events::{ForagerRegistered, ForagerVaultOpened, KolnyBurned};
use crate::state::{Address, ColonyConfig, ForagerState};

verus! {

/// The record registration creates: a Scout with no bond, no principal, no
/// trail and no sub-account yet, provisionally last settled in the current
/// epoch.
pub open spec fn spec_registered_forager(
    config: ColonyConfig,
    operator: Address,
    forager_id: u64,
    strategy_meta: [u8; 32],
    now: i64,
    bump: u8,
) -> ForagerState {
    ForagerState {
        operator,
        forager_id,
        registered_epoch: config.epoch,
        last_settled_epoch: config.epoch,
        last_heartbeat_ts: now,
        status: STATUS_SCOUT,
        bump,
        ..ForagerState::spec_blank(strategy_meta)
    }
}

/// The first admission check that fails, if any: the mint must be bound, the
/// admission must not be free, and the running total must not overflow.
pub open spec fn spec_admission_refusal(config: ColonyConfig) -> Option<ColonyError> {
    if config.kolny_mint == Address::spec_zero() {
        Some(ColonyError::KolnyMintNotSet)
    } else if config.admission_burn_amount == 0 {
        Some(ColonyError::ZeroAmount)
    } else if config.total_kolny_burned + config.admission_burn_amount > u64::MAX {
        Some(ColonyError::Overflow)
    } else {
        None
    }
}

/// Record one admission burn: the running total grows by the configured
/// amount, and the event tells the caller how much $KOLNY to destroy from the
/// operator's account. A zero amount is refused, never recorded as a burn.
pub fn record_admission_burn(config: &mut ColonyConfig, operator: Address, forager: Address) -> (r:
    Result<KolnyBurned, ColonyError>)
    ensures
        spec_admission_refusal(*old(config)) matches Some(e) ==> r == Err::<KolnyBurned, ColonyError>(
            e,
        ) && *final(config) == *old(config),
        spec_admission_refusal(*old(config)) is None ==> {
            let total = (old(config).total_kolny_burned + old(config).admission_burn_amount) as u64;
            &&& *final(config) == ColonyConfig { total_kolny_burned: total, ..*old(config) }
            &&& r == Ok::<KolnyBurned, ColonyError>(
                KolnyBurned {
                    operator,
                    forager,
                    kolny_mint: old(config).kolny_mint,
                    amount: old(config).admission_burn_amount,
                    total_burned: total,
                },
            )
        },
{
    if !config.kolny_mint_is_set() {
        return Err(ColonyError::KolnyMintNotSet);
    }
    let amount = config.admission_burn_amount;
    if amount == 0 {
        return Err(ColonyError::ZeroAmount);
    }
    let total = match config.total_kolny_burned.checked_add(amount) {
        Some(v) => v,
        None => return Err(ColonyError::Overflow),
    };
    config.total_kolny_burned = total;
    Ok(KolnyBurned { operator, forager, kolny_mint: config.kolny_mint, amount, total_burned: total })
}

/// Admit an operator and create its forager record. Admission costs a fixed
/// count of $KOLNY, destroyed outright: the caller burns `amount` of the
/// returned `KolnyBurned` from the operator's account. What was burned buys
/// nothing beyond admission. Registration is frozen while the colony is
/// settling, so the crank's finish line cannot move.
pub fn register_forager(
    config: &mut ColonyConfig,
    operator: Address,
    forager: Address,
    forager_id: u64,
    strategy_meta: [u8; 32],
    now: i64,
    bump: u8,
) -> (r: Result<(ForagerState, ForagerRegistered, KolnyBurned), ColonyError>)
    ensures
        old(config).epoch_phase != PHASE_OPEN ==> r == Err::<
            (ForagerState, ForagerRegistered, KolnyBurned),
            ColonyError,
        >(ColonyError::RegistrationFrozenDuringSettlement),
        old(config).epoch_phase == PHASE_OPEN && old(config).paused ==> r == Err::<
            (ForagerState, ForagerRegistered, KolnyBurned),
            ColonyError,
        >(ColonyError::Paused),
        old(config).epoch_phase == PHASE_OPEN && !old(config).paused ==> (spec_admission_refusal(
            *old(config),
        ) matches Some(e) ==> r == Err::<(ForagerState, ForagerRegistered, KolnyBurned), ColonyError>(
            e,
        )),
        r is Err ==> *final(config) == *old(config),
        old(config).epoch_phase == PHASE_OPEN && !old(config).paused && spec_admission_refusal(
            *old(config),
        ) is None ==> {
            let total = (old(config).total_kolny_burned + old(config).admission_burn_amount) as u64;
            &&& *final(config) == ColonyConfig { total_kolny_burned: total, ..*old(config) }
            &&& r == Ok::<(ForagerState, ForagerRegistered, KolnyBurned), ColonyError>(
                (
                    spec_registered_forager(
                        *old(config),
                        operator,
                        forager_id,
                        strategy_meta,
                        now,
                        bump,
                    ),
                    ForagerRegistered {
                        forager,
                        operator,
                        forager_id,
                        bond: 0,
                        registered_epoch: old(config).epoch,
                    },
                    KolnyBurned {
                        operator,
                        forager,
                        kolny_mint: old(config).kolny_mint,
                        amount: old(config).admission_burn_amount,
                        total_burned: total,
                    },
                ),
            )
        },
        r is Ok ==> final(config).total_kolny_burned > old(config).total_kolny_burned,
{
    if config.epoch_phase != PHASE_OPEN {
        return Err(ColonyError::RegistrationFrozenDuringSettlement);
    }
    if config.paused {
        return Err(ColonyError::Paused);
    }
    // Admission is never free: no burn, no record.
    let burned = match record_admission_burn(config, operator, forager) {
        Ok(b) => b,
        Err(e) => return Err(e),
    };
    let current_epoch = config.epoch;

    let mut record = ForagerState::default();
    record.operator = operator;
    // Set by `open_forager_vault`; there is no sub-account yet.
    record.forager_vault = Address::zero();
    record.forager_id = forager_id;
    record.strategy_meta = strategy_meta;

    record.bond = 0;
    record.principal = 0;
    record.pheromone = 0;
    record.high_water = 0;

    record.registered_epoch = current_epoch;
    // Provisional; `open_forager_vault` resets it.
    record.last_settled_epoch = current_epoch;

    record.realized_epochs = 0;
    record.scout_epochs = 0;
    record.last_scout_epoch = 0;

    record.realized_pnl_cumulative = 0;
    record.scout_perf_cum_bps = 0;
    record.probation_until_epoch = 0;
    record.last_heartbeat_ts = now;

    record.max_drawdown_bps = 0;
    record.current_drawdown_bps = 0;
    record.slash_count = 0;

    // Every forager enters through the Scout Sandbox.
    record.status = STATUS_SCOUT;
    record.bump = bump;
    record.vault_bump = 0;

    // Deliberately not counted as settleable here: a record with no
    // sub-account has no balance to measure.
    let event = ForagerRegistered {
        forager,
        operator,
        forager_id,
        bond: 0,
        registered_epoch: current_epoch,
    };
    Ok((record, event, burned))
}

/// Records the forager's isolated base-asset sub-account. Opening it is what
/// makes the forager settleable: it joins the crank's population, marked as
/// last settled one epoch back so its first settlement can succeed.
pub fn open_forager_vault(
    config: &mut ColonyConfig,
    forager: &mut ForagerState,
    base_mint: Address,
    forager_key: Address,
    forager_vault: Address,
    vault_bump: u8,
) -> (r: Result<ForagerVaultOpened, ColonyError>)
    ensures
        base_mint != old(config).base_mint ==> r == Err::<ForagerVaultOpened, ColonyError>(
            ColonyError::BaseMintMismatch,
        ),
        base_mint == old(config).base_mint && old(config).epoch_phase != PHASE_OPEN ==> r == Err::<
            ForagerVaultOpened,
            ColonyError,
        >(ColonyError::RegistrationFrozenDuringSettlement),
        base_mint == old(config).base_mint && old(config).epoch_phase == PHASE_OPEN
            && old(config).settleable_forager_count == u32::MAX ==> r == Err::<
            ForagerVaultOpened,
            ColonyError,
        >(ColonyError::Overflow),
        r is Err ==> *final(config) == *old(config) && *final(forager) == *old(forager),
        base_mint == old(config).base_mint && old(config).epoch_phase == PHASE_OPEN
            && old(config).settleable_forager_count < u32::MAX ==> {
            &&& r == Ok::<ForagerVaultOpened, ColonyError>(
                ForagerVaultOpened { forager: forager_key, forager_vault },
            )
            &&& *final(forager) == ForagerState {
                forager_vault,
                vault_bump,
                last_settled_epoch: if old(config).epoch >= 1 {
                    (old(config).epoch - 1) as u64
                } else {
                    0
                },
                ..*old(forager)
            }
            &&& *final(config) == ColonyConfig {
                settleable_forager_count: (old(config).settleable_forager_count + 1) as u32,
                ..*old(config)
            }
        },
{
    if !base_mint.same(&config.base_mint) {
        return Err(ColonyError::BaseMintMismatch);
    }
    if config.epoch_phase != PHASE_OPEN {
        return Err(ColonyError::RegistrationFrozenDuringSettlement);
    }
    let settleable = match config.settleable_forager_count.checked_add(1) {
        Some(v) => v,
        None => return Err(ColonyError::Overflow),
    };
    let current_epoch = config.epoch;

    forager.forager_vault = forager_vault;
    forager.vault_bump = vault_bump;
    // The crank admits a forager with `last_settled_epoch < settling_epoch`,
    // and the next settlement runs at the current epoch.
    forager.last_settled_epoch = current_epoch.saturating_sub(1);

    config.settleable_forager_count = settleable;

    Ok(ForagerVaultOpened { forager: forager_key, forager_vault })
}

} // verus!
