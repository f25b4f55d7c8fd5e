//! Colony administration: the tuning parameters and their one range gate,
//! the two-step authority handover, the pause flag, and the creation of the
//! singleton accounts at genesis. Nothing here moves a token.
use vstd::prelude::*;

use crate::constants::{
    check_admission_mint, spec_check_admission_mint, AdmissionMintRejection, BPS_DENOM,
    MAX_LEVERAGE_X, PHASE_OPEN,
    MAX_ADMISSION_BURN_BASE_UNITS,
    MAX_BOND_HAIRCUT_BPS,
    MAX_BOND_RATIO_BPS,
    MAX_CACHE_ACCRUAL_BPS,
    MAX_CACHE_RESERVE_TARGET_BPS,
    MAX_DD_PROBATION_BPS,
    MAX_DD_SLASH_BPS,
    MAX_DEPOSIT_SCALE_Q,
    MAX_EPOCH_DURATION_SECS,
    MAX_EPOCH_LOSS_LIMIT_BPS,
    MAX_MAX_SINGLE_ASSET_BPS,
    MAX_NONRESPONSE_TIMEOUT_EPOCHS,
    MAX_PERF_NORM_S_BPS,
    MAX_PROBATION_GRACE_EPOCHS,
    MAX_PROMOTE_MIN_EPOCHS,
    MAX_PROMOTE_MIN_REALIZED_EPOCHS,
    MAX_PROMOTE_PERF_BAR_BPS,
    MAX_PROMOTE_TAU_SEED_CAP,
    MAX_REBAND_BAND_BPS,
    MAX_RHO_BPS,
    MAX_RISK_AVERSION_BPS,
    MAX_SCOUT_BUDGET_BPS,
    MAX_SLASH_BURN_BPS,
    MAX_TURNOVER_CAP_BPS,
    MAX_W_DROP_BPS,
    MAX_W_MAX_BPS,
    MIN_ADMISSION_BURN_BASE_UNITS,
    MIN_BOND_HAIRCUT_BPS,
    MIN_BOND_RATIO_BPS,
    MIN_CACHE_ACCRUAL_BPS,
    MIN_CACHE_RESERVE_TARGET_BPS,
    MIN_DD_PROBATION_BPS,
    MIN_DD_SLASH_BPS,
    MIN_DEPOSIT_SCALE_Q,
    MIN_EPOCH_DURATION_SECS,
    MIN_EPOCH_LOSS_LIMIT_BPS,
    MIN_MAX_SINGLE_ASSET_BPS,
    MIN_NONRESPONSE_TIMEOUT_EPOCHS,
    MIN_PERF_NORM_S_BPS,
    MIN_PROBATION_GRACE_EPOCHS,
    MIN_PROMOTE_MIN_EPOCHS,
    MIN_PROMOTE_MIN_REALIZED_EPOCHS,
    MIN_PROMOTE_PERF_BAR_BPS,
    MIN_REBAND_BAND_BPS,
    MIN_RHO_BPS,
    MIN_RISK_AVERSION_BPS,
    MIN_SCOUT_BUDGET_BPS,
    MIN_SLASH_BURN_BPS,
    MIN_TURNOVER_CAP_BPS,
    MIN_W_DROP_BPS,
    MIN_W_MAX_BPS,
};
use crate::errors::ColonyError;
use crate::events::{
    AuthorityAccepted, AuthorityProposed, BroodInitialized, ColonyInitialized, ConfigUpdated,
    KolnyMintSet, PausedSet, RiskCacheInitialized,
};
use crate::state::{
    is_cleared_board, Address, BroodVaultState, ColonyConfig, RiskCacheState, TrailBoard,
};

verus! {

/// Every parameter an authority may set at genesis. Leverage, the fixed-point
/// scale, the pheromone floor and ceiling, the minimum deposit and the epoch
/// counters are not among them.
#[derive(Clone, Copy, PartialEq, Eq, Debug, Structural)]
pub struct InitColonyParams {
    // -- epoch
    pub epoch_duration_secs: i64,
    // -- pheromone update
    pub rho_bps: u16,
    pub deposit_scale_q: u64,
    pub perf_norm_s_bps: u16,
    pub risk_aversion_bps: u16,
    // -- weights
    pub w_max_bps: u16,
    pub w_drop_bps: u16,
    pub scout_budget_bps: u16,
    pub reband_band_bps: u16,
    pub turnover_cap_bps: u16,
    // -- scout promotion
    pub promote_min_epochs: u8,
    pub promote_min_realized_epochs: u16,
    pub promote_perf_bar_bps: i32,
    pub scout_ticket_base_units: u64,
    pub promote_tau_seed_cap: u64,
    // -- bond and slashing
    pub min_bond: u64,
    pub bond_ratio_bps: u16,
    pub bond_haircut_bps: u16,
    pub dd_probation_bps: u16,
    pub dd_slash_bps: u16,
    pub epoch_loss_limit_bps: u16,
    pub probation_grace_epochs: u8,
    pub nonresponse_timeout_epochs: u8,
    pub slash_burn_bps: u16,
    pub max_single_asset_bps: u16,
    // -- risk cache
    pub cache_accrual_bps: u16,
    pub cache_reserve_target_bps: u16,
    // -- admission burn
    pub admission_burn_amount: u64,
}

/// A partial edit to the live configuration: `None` leaves a parameter where
/// it is.
#[derive(Clone, Copy, PartialEq, Eq, Debug, Structural)]
pub struct ConfigPatch {
    // -- epoch
    pub epoch_duration_secs: Option<i64>,
    // -- pheromone update
    pub rho_bps: Option<u16>,
    pub deposit_scale_q: Option<u64>,
    pub perf_norm_s_bps: Option<u16>,
    pub risk_aversion_bps: Option<u16>,
    // -- weights
    pub w_max_bps: Option<u16>,
    pub w_drop_bps: Option<u16>,
    pub scout_budget_bps: Option<u16>,
    pub reband_band_bps: Option<u16>,
    pub turnover_cap_bps: Option<u16>,
    // -- scout promotion
    pub promote_min_epochs: Option<u8>,
    pub promote_min_realized_epochs: Option<u16>,
    pub promote_perf_bar_bps: Option<i32>,
    pub scout_ticket_base_units: Option<u64>,
    pub promote_tau_seed_cap: Option<u64>,
    // -- bond and slashing
    pub min_bond: Option<u64>,
    pub bond_ratio_bps: Option<u16>,
    pub bond_haircut_bps: Option<u16>,
    pub dd_probation_bps: Option<u16>,
    pub dd_slash_bps: Option<u16>,
    pub epoch_loss_limit_bps: Option<u16>,
    pub probation_grace_epochs: Option<u8>,
    pub nonresponse_timeout_epochs: Option<u8>,
    pub slash_burn_bps: Option<u16>,
    pub max_single_asset_bps: Option<u16>,
    // -- risk cache
    pub cache_accrual_bps: Option<u16>,
    pub cache_reserve_target_bps: Option<u16>,
    // -- admission burn
    pub admission_burn_amount: Option<u64>,
}

/// The published ranges, and the three orderings the ranges alone cannot
/// express: probation before slash, drop below cap, activity within tenure.
pub open spec fn params_in_range(p: InitColonyParams) -> bool {
    &&& MIN_EPOCH_DURATION_SECS <= p.epoch_duration_secs <= MAX_EPOCH_DURATION_SECS
    &&& MIN_RHO_BPS <= p.rho_bps <= MAX_RHO_BPS
    &&& MIN_DEPOSIT_SCALE_Q <= p.deposit_scale_q <= MAX_DEPOSIT_SCALE_Q
    &&& MIN_PERF_NORM_S_BPS <= p.perf_norm_s_bps <= MAX_PERF_NORM_S_BPS
    &&& MIN_RISK_AVERSION_BPS <= p.risk_aversion_bps <= MAX_RISK_AVERSION_BPS
    &&& MIN_W_MAX_BPS <= p.w_max_bps <= MAX_W_MAX_BPS
    &&& MIN_W_DROP_BPS <= p.w_drop_bps <= MAX_W_DROP_BPS
    &&& MIN_SCOUT_BUDGET_BPS <= p.scout_budget_bps <= MAX_SCOUT_BUDGET_BPS
    &&& MIN_REBAND_BAND_BPS <= p.reband_band_bps <= MAX_REBAND_BAND_BPS
    &&& MIN_TURNOVER_CAP_BPS <= p.turnover_cap_bps <= MAX_TURNOVER_CAP_BPS
    &&& MIN_PROMOTE_MIN_EPOCHS <= p.promote_min_epochs <= MAX_PROMOTE_MIN_EPOCHS
    &&& MIN_PROMOTE_MIN_REALIZED_EPOCHS <= p.promote_min_realized_epochs <= MAX_PROMOTE_MIN_REALIZED_EPOCHS
    &&& MIN_PROMOTE_PERF_BAR_BPS <= p.promote_perf_bar_bps <= MAX_PROMOTE_PERF_BAR_BPS
    &&& p.scout_ticket_base_units > 0
    &&& p.promote_tau_seed_cap <= MAX_PROMOTE_TAU_SEED_CAP
    &&& p.min_bond > 0
    &&& MIN_BOND_RATIO_BPS <= p.bond_ratio_bps <= MAX_BOND_RATIO_BPS
    &&& MIN_BOND_HAIRCUT_BPS <= p.bond_haircut_bps <= MAX_BOND_HAIRCUT_BPS
    &&& MIN_DD_PROBATION_BPS <= p.dd_probation_bps <= MAX_DD_PROBATION_BPS
    &&& MIN_DD_SLASH_BPS <= p.dd_slash_bps <= MAX_DD_SLASH_BPS
    &&& MIN_EPOCH_LOSS_LIMIT_BPS <= p.epoch_loss_limit_bps <= MAX_EPOCH_LOSS_LIMIT_BPS
    &&& MIN_PROBATION_GRACE_EPOCHS <= p.probation_grace_epochs <= MAX_PROBATION_GRACE_EPOCHS
    &&& MIN_NONRESPONSE_TIMEOUT_EPOCHS <= p.nonresponse_timeout_epochs <= MAX_NONRESPONSE_TIMEOUT_EPOCHS
    &&& MIN_SLASH_BURN_BPS <= p.slash_burn_bps <= MAX_SLASH_BURN_BPS
    &&& MIN_MAX_SINGLE_ASSET_BPS <= p.max_single_asset_bps <= MAX_MAX_SINGLE_ASSET_BPS
    &&& MIN_CACHE_ACCRUAL_BPS <= p.cache_accrual_bps <= MAX_CACHE_ACCRUAL_BPS
    &&& MIN_CACHE_RESERVE_TARGET_BPS <= p.cache_reserve_target_bps <= MAX_CACHE_RESERVE_TARGET_BPS
    &&& MIN_ADMISSION_BURN_BASE_UNITS <= p.admission_burn_amount <= MAX_ADMISSION_BURN_BASE_UNITS
    &&& p.dd_probation_bps < p.dd_slash_bps
    &&& p.w_drop_bps < p.w_max_bps
    &&& p.promote_min_realized_epochs <= p.promote_min_epochs
}

/// The parameters currently stored on a colony.
pub open spec fn spec_params_of(c: ColonyConfig) -> InitColonyParams {
    InitColonyParams {
        epoch_duration_secs: c.epoch_duration_secs,
        rho_bps: c.rho_bps,
        deposit_scale_q: c.deposit_scale_q,
        perf_norm_s_bps: c.perf_norm_s_bps,
        risk_aversion_bps: c.risk_aversion_bps,
        w_max_bps: c.w_max_bps,
        w_drop_bps: c.w_drop_bps,
        scout_budget_bps: c.scout_budget_bps,
        reband_band_bps: c.reband_band_bps,
        turnover_cap_bps: c.turnover_cap_bps,
        promote_min_epochs: c.promote_min_epochs,
        promote_min_realized_epochs: c.promote_min_realized_epochs,
        promote_perf_bar_bps: c.promote_perf_bar_bps,
        scout_ticket_base_units: c.scout_ticket_base_units,
        promote_tau_seed_cap: c.promote_tau_seed_cap,
        min_bond: c.min_bond,
        bond_ratio_bps: c.bond_ratio_bps,
        bond_haircut_bps: c.bond_haircut_bps,
        dd_probation_bps: c.dd_probation_bps,
        dd_slash_bps: c.dd_slash_bps,
        epoch_loss_limit_bps: c.epoch_loss_limit_bps,
        probation_grace_epochs: c.probation_grace_epochs,
        nonresponse_timeout_epochs: c.nonresponse_timeout_epochs,
        slash_burn_bps: c.slash_burn_bps,
        max_single_asset_bps: c.max_single_asset_bps,
        cache_accrual_bps: c.cache_accrual_bps,
        cache_reserve_target_bps: c.cache_reserve_target_bps,
        admission_burn_amount: c.admission_burn_amount,
    }
}

/// A colony with `p` written over its parameters and nothing else touched.
pub open spec fn spec_with_params(c: ColonyConfig, p: InitColonyParams) -> ColonyConfig {
    ColonyConfig {
        epoch_duration_secs: p.epoch_duration_secs,
        rho_bps: p.rho_bps,
        deposit_scale_q: p.deposit_scale_q,
        perf_norm_s_bps: p.perf_norm_s_bps,
        risk_aversion_bps: p.risk_aversion_bps,
        w_max_bps: p.w_max_bps,
        w_drop_bps: p.w_drop_bps,
        scout_budget_bps: p.scout_budget_bps,
        reband_band_bps: p.reband_band_bps,
        turnover_cap_bps: p.turnover_cap_bps,
        promote_min_epochs: p.promote_min_epochs,
        promote_min_realized_epochs: p.promote_min_realized_epochs,
        promote_perf_bar_bps: p.promote_perf_bar_bps,
        scout_ticket_base_units: p.scout_ticket_base_units,
        promote_tau_seed_cap: p.promote_tau_seed_cap,
        min_bond: p.min_bond,
        bond_ratio_bps: p.bond_ratio_bps,
        bond_haircut_bps: p.bond_haircut_bps,
        dd_probation_bps: p.dd_probation_bps,
        dd_slash_bps: p.dd_slash_bps,
        epoch_loss_limit_bps: p.epoch_loss_limit_bps,
        probation_grace_epochs: p.probation_grace_epochs,
        nonresponse_timeout_epochs: p.nonresponse_timeout_epochs,
        slash_burn_bps: p.slash_burn_bps,
        max_single_asset_bps: p.max_single_asset_bps,
        cache_accrual_bps: p.cache_accrual_bps,
        cache_reserve_target_bps: p.cache_reserve_target_bps,
        admission_burn_amount: p.admission_burn_amount,
        ..c
    }
}

/// Every field the patch sets, laid over `base`.
pub open spec fn spec_overlay(patch: ConfigPatch, base: InitColonyParams) -> InitColonyParams {
    InitColonyParams {
        epoch_duration_secs: match patch.epoch_duration_secs { Some(v) => v, None => base.epoch_duration_secs },
        rho_bps: match patch.rho_bps { Some(v) => v, None => base.rho_bps },
        deposit_scale_q: match patch.deposit_scale_q { Some(v) => v, None => base.deposit_scale_q },
        perf_norm_s_bps: match patch.perf_norm_s_bps { Some(v) => v, None => base.perf_norm_s_bps },
        risk_aversion_bps: match patch.risk_aversion_bps { Some(v) => v, None => base.risk_aversion_bps },
        w_max_bps: match patch.w_max_bps { Some(v) => v, None => base.w_max_bps },
        w_drop_bps: match patch.w_drop_bps { Some(v) => v, None => base.w_drop_bps },
        scout_budget_bps: match patch.scout_budget_bps { Some(v) => v, None => base.scout_budget_bps },
        reband_band_bps: match patch.reband_band_bps { Some(v) => v, None => base.reband_band_bps },
        turnover_cap_bps: match patch.turnover_cap_bps { Some(v) => v, None => base.turnover_cap_bps },
        promote_min_epochs: match patch.promote_min_epochs { Some(v) => v, None => base.promote_min_epochs },
        promote_min_realized_epochs: match patch.promote_min_realized_epochs { Some(v) => v, None => base.promote_min_realized_epochs },
        promote_perf_bar_bps: match patch.promote_perf_bar_bps { Some(v) => v, None => base.promote_perf_bar_bps },
        scout_ticket_base_units: match patch.scout_ticket_base_units { Some(v) => v, None => base.scout_ticket_base_units },
        promote_tau_seed_cap: match patch.promote_tau_seed_cap { Some(v) => v, None => base.promote_tau_seed_cap },
        min_bond: match patch.min_bond { Some(v) => v, None => base.min_bond },
        bond_ratio_bps: match patch.bond_ratio_bps { Some(v) => v, None => base.bond_ratio_bps },
        bond_haircut_bps: match patch.bond_haircut_bps { Some(v) => v, None => base.bond_haircut_bps },
        dd_probation_bps: match patch.dd_probation_bps { Some(v) => v, None => base.dd_probation_bps },
        dd_slash_bps: match patch.dd_slash_bps { Some(v) => v, None => base.dd_slash_bps },
        epoch_loss_limit_bps: match patch.epoch_loss_limit_bps { Some(v) => v, None => base.epoch_loss_limit_bps },
        probation_grace_epochs: match patch.probation_grace_epochs { Some(v) => v, None => base.probation_grace_epochs },
        nonresponse_timeout_epochs: match patch.nonresponse_timeout_epochs { Some(v) => v, None => base.nonresponse_timeout_epochs },
        slash_burn_bps: match patch.slash_burn_bps { Some(v) => v, None => base.slash_burn_bps },
        max_single_asset_bps: match patch.max_single_asset_bps { Some(v) => v, None => base.max_single_asset_bps },
        cache_accrual_bps: match patch.cache_accrual_bps { Some(v) => v, None => base.cache_accrual_bps },
        cache_reserve_target_bps: match patch.cache_reserve_target_bps { Some(v) => v, None => base.cache_reserve_target_bps },
        admission_burn_amount: match patch.admission_burn_amount { Some(v) => v, None => base.admission_burn_amount },
    }
}

/// The patch that sets nothing.
pub open spec fn spec_empty_patch() -> ConfigPatch {
    ConfigPatch {
        epoch_duration_secs: None,
        rho_bps: None,
        deposit_scale_q: None,
        perf_norm_s_bps: None,
        risk_aversion_bps: None,
        w_max_bps: None,
        w_drop_bps: None,
        scout_budget_bps: None,
        reband_band_bps: None,
        turnover_cap_bps: None,
        promote_min_epochs: None,
        promote_min_realized_epochs: None,
        promote_perf_bar_bps: None,
        scout_ticket_base_units: None,
        promote_tau_seed_cap: None,
        min_bond: None,
        bond_ratio_bps: None,
        bond_haircut_bps: None,
        dd_probation_bps: None,
        dd_slash_bps: None,
        epoch_loss_limit_bps: None,
        probation_grace_epochs: None,
        nonresponse_timeout_epochs: None,
        slash_burn_bps: None,
        max_single_asset_bps: None,
        cache_accrual_bps: None,
        cache_reserve_target_bps: None,
        admission_burn_amount: None,
    }
}

impl InitColonyParams {
    /// The one range gate: genesis runs it on the caller's parameters and every
    /// later edit runs it on the merged result, so no bound can be stepped over
    /// after launch.
    pub fn validate(&self) -> (r: Result<(), ColonyError>)
        ensures
            r == (if params_in_range(*self) {
                Ok(())
            } else {
                Err(ColonyError::ParamOutOfRange)
            }),
    {
        if !(self.epoch_duration_secs >= MIN_EPOCH_DURATION_SECS && self.epoch_duration_secs <= MAX_EPOCH_DURATION_SECS) {
            return Err(ColonyError::ParamOutOfRange);
        }
        if !(self.rho_bps >= MIN_RHO_BPS && self.rho_bps <= MAX_RHO_BPS) {
            return Err(ColonyError::ParamOutOfRange);
        }
        if !(self.deposit_scale_q >= MIN_DEPOSIT_SCALE_Q && self.deposit_scale_q <= MAX_DEPOSIT_SCALE_Q) {
            return Err(ColonyError::ParamOutOfRange);
        }
        if !(self.perf_norm_s_bps >= MIN_PERF_NORM_S_BPS && self.perf_norm_s_bps <= MAX_PERF_NORM_S_BPS) {
            return Err(ColonyError::ParamOutOfRange);
        }
        if !(self.risk_aversion_bps >= MIN_RISK_AVERSION_BPS && self.risk_aversion_bps <= MAX_RISK_AVERSION_BPS) {
            return Err(ColonyError::ParamOutOfRange);
        }
        if !(self.w_max_bps >= MIN_W_MAX_BPS && self.w_max_bps <= MAX_W_MAX_BPS) {
            return Err(ColonyError::ParamOutOfRange);
        }
        if !(self.w_drop_bps >= MIN_W_DROP_BPS && self.w_drop_bps <= MAX_W_DROP_BPS) {
            return Err(ColonyError::ParamOutOfRange);
        }
        if !(self.scout_budget_bps >= MIN_SCOUT_BUDGET_BPS && self.scout_budget_bps <= MAX_SCOUT_BUDGET_BPS) {
            return Err(ColonyError::ParamOutOfRange);
        }
        if !(self.reband_band_bps >= MIN_REBAND_BAND_BPS && self.reband_band_bps <= MAX_REBAND_BAND_BPS) {
            return Err(ColonyError::ParamOutOfRange);
        }
        if !(self.turnover_cap_bps >= MIN_TURNOVER_CAP_BPS && self.turnover_cap_bps <= MAX_TURNOVER_CAP_BPS) {
            return Err(ColonyError::ParamOutOfRange);
        }
        if !(self.promote_min_epochs >= MIN_PROMOTE_MIN_EPOCHS && self.promote_min_epochs <= MAX_PROMOTE_MIN_EPOCHS) {
            return Err(ColonyError::ParamOutOfRange);
        }
        if !(self.promote_min_realized_epochs >= MIN_PROMOTE_MIN_REALIZED_EPOCHS && self.promote_min_realized_epochs <= MAX_PROMOTE_MIN_REALIZED_EPOCHS) {
            return Err(ColonyError::ParamOutOfRange);
        }
        if !(self.promote_perf_bar_bps >= MIN_PROMOTE_PERF_BAR_BPS && self.promote_perf_bar_bps <= MAX_PROMOTE_PERF_BAR_BPS) {
            return Err(ColonyError::ParamOutOfRange);
        }
        if !(self.scout_ticket_base_units > 0) {
            return Err(ColonyError::ParamOutOfRange);
        }
        if !(self.promote_tau_seed_cap <= MAX_PROMOTE_TAU_SEED_CAP) {
            return Err(ColonyError::ParamOutOfRange);
        }
        if !(self.min_bond > 0) {
            return Err(ColonyError::ParamOutOfRange);
        }
        if !(self.bond_ratio_bps >= MIN_BOND_RATIO_BPS && self.bond_ratio_bps <= MAX_BOND_RATIO_BPS) {
            return Err(ColonyError::ParamOutOfRange);
        }
        if !(self.bond_haircut_bps >= MIN_BOND_HAIRCUT_BPS && self.bond_haircut_bps <= MAX_BOND_HAIRCUT_BPS) {
            return Err(ColonyError::ParamOutOfRange);
        }
        if !(self.dd_probation_bps >= MIN_DD_PROBATION_BPS && self.dd_probation_bps <= MAX_DD_PROBATION_BPS) {
            return Err(ColonyError::ParamOutOfRange);
        }
        if !(self.dd_slash_bps >= MIN_DD_SLASH_BPS && self.dd_slash_bps <= MAX_DD_SLASH_BPS) {
            return Err(ColonyError::ParamOutOfRange);
        }
        if !(self.epoch_loss_limit_bps >= MIN_EPOCH_LOSS_LIMIT_BPS && self.epoch_loss_limit_bps <= MAX_EPOCH_LOSS_LIMIT_BPS) {
            return Err(ColonyError::ParamOutOfRange);
        }
        if !(self.probation_grace_epochs >= MIN_PROBATION_GRACE_EPOCHS && self.probation_grace_epochs <= MAX_PROBATION_GRACE_EPOCHS) {
            return Err(ColonyError::ParamOutOfRange);
        }
        if !(self.nonresponse_timeout_epochs >= MIN_NONRESPONSE_TIMEOUT_EPOCHS && self.nonresponse_timeout_epochs <= MAX_NONRESPONSE_TIMEOUT_EPOCHS) {
            return Err(ColonyError::ParamOutOfRange);
        }
        if !(self.slash_burn_bps >= MIN_SLASH_BURN_BPS && self.slash_burn_bps <= MAX_SLASH_BURN_BPS) {
            return Err(ColonyError::ParamOutOfRange);
        }
        if !(self.max_single_asset_bps >= MIN_MAX_SINGLE_ASSET_BPS && self.max_single_asset_bps <= MAX_MAX_SINGLE_ASSET_BPS) {
            return Err(ColonyError::ParamOutOfRange);
        }
        if !(self.cache_accrual_bps >= MIN_CACHE_ACCRUAL_BPS && self.cache_accrual_bps <= MAX_CACHE_ACCRUAL_BPS) {
            return Err(ColonyError::ParamOutOfRange);
        }
        if !(self.cache_reserve_target_bps >= MIN_CACHE_RESERVE_TARGET_BPS && self.cache_reserve_target_bps <= MAX_CACHE_RESERVE_TARGET_BPS) {
            return Err(ColonyError::ParamOutOfRange);
        }
        if !(self.admission_burn_amount >= MIN_ADMISSION_BURN_BASE_UNITS && self.admission_burn_amount <= MAX_ADMISSION_BURN_BASE_UNITS) {
            return Err(ColonyError::ParamOutOfRange);
        }
        // Probation is the milder drawdown threshold and fires first.
        if !(self.dd_probation_bps < self.dd_slash_bps) {
            return Err(ColonyError::ParamOutOfRange);
        }
        // A forager pinned at the cap must not be demoted in the same pass.
        if !(self.w_drop_bps < self.w_max_bps) {
            return Err(ColonyError::ParamOutOfRange);
        }
        // At most one realized epoch accrues per scout epoch.
        if !(self.promote_min_realized_epochs as u64 <= self.promote_min_epochs as u64) {
            return Err(ColonyError::ParamOutOfRange);
        }
        Ok(())
    }

    /// Snapshot the parameters currently stored on a colony.
    pub fn from_config(config: &ColonyConfig) -> (r: Self)
        ensures
            r == spec_params_of(*config),
    {
        InitColonyParams {
            epoch_duration_secs: config.epoch_duration_secs,
            rho_bps: config.rho_bps,
            deposit_scale_q: config.deposit_scale_q,
            perf_norm_s_bps: config.perf_norm_s_bps,
            risk_aversion_bps: config.risk_aversion_bps,
            w_max_bps: config.w_max_bps,
            w_drop_bps: config.w_drop_bps,
            scout_budget_bps: config.scout_budget_bps,
            reband_band_bps: config.reband_band_bps,
            turnover_cap_bps: config.turnover_cap_bps,
            promote_min_epochs: config.promote_min_epochs,
            promote_min_realized_epochs: config.promote_min_realized_epochs,
            promote_perf_bar_bps: config.promote_perf_bar_bps,
            scout_ticket_base_units: config.scout_ticket_base_units,
            promote_tau_seed_cap: config.promote_tau_seed_cap,
            min_bond: config.min_bond,
            bond_ratio_bps: config.bond_ratio_bps,
            bond_haircut_bps: config.bond_haircut_bps,
            dd_probation_bps: config.dd_probation_bps,
            dd_slash_bps: config.dd_slash_bps,
            epoch_loss_limit_bps: config.epoch_loss_limit_bps,
            probation_grace_epochs: config.probation_grace_epochs,
            nonresponse_timeout_epochs: config.nonresponse_timeout_epochs,
            slash_burn_bps: config.slash_burn_bps,
            max_single_asset_bps: config.max_single_asset_bps,
            cache_accrual_bps: config.cache_accrual_bps,
            cache_reserve_target_bps: config.cache_reserve_target_bps,
            admission_burn_amount: config.admission_burn_amount,
        }
    }

    /// Write a parameter set onto the colony. Parameters only: no epoch
    /// counter, pool, accumulator, admission mint or burn total is written.
    pub fn store_into(&self, config: &mut ColonyConfig)
        ensures
            *final(config) == spec_with_params(*old(config), *self),
    {
        config.epoch_duration_secs = self.epoch_duration_secs;
        config.rho_bps = self.rho_bps;
        config.deposit_scale_q = self.deposit_scale_q;
        config.perf_norm_s_bps = self.perf_norm_s_bps;
        config.risk_aversion_bps = self.risk_aversion_bps;
        config.w_max_bps = self.w_max_bps;
        config.w_drop_bps = self.w_drop_bps;
        config.scout_budget_bps = self.scout_budget_bps;
        config.reband_band_bps = self.reband_band_bps;
        config.turnover_cap_bps = self.turnover_cap_bps;
        config.promote_min_epochs = self.promote_min_epochs;
        config.promote_min_realized_epochs = self.promote_min_realized_epochs;
        config.promote_perf_bar_bps = self.promote_perf_bar_bps;
        config.scout_ticket_base_units = self.scout_ticket_base_units;
        config.promote_tau_seed_cap = self.promote_tau_seed_cap;
        config.min_bond = self.min_bond;
        config.bond_ratio_bps = self.bond_ratio_bps;
        config.bond_haircut_bps = self.bond_haircut_bps;
        config.dd_probation_bps = self.dd_probation_bps;
        config.dd_slash_bps = self.dd_slash_bps;
        config.epoch_loss_limit_bps = self.epoch_loss_limit_bps;
        config.probation_grace_epochs = self.probation_grace_epochs;
        config.nonresponse_timeout_epochs = self.nonresponse_timeout_epochs;
        config.slash_burn_bps = self.slash_burn_bps;
        config.max_single_asset_bps = self.max_single_asset_bps;
        config.cache_accrual_bps = self.cache_accrual_bps;
        config.cache_reserve_target_bps = self.cache_reserve_target_bps;
        config.admission_burn_amount = self.admission_burn_amount;
    }
}

/// The patched value of one parameter.
fn patched<T: Copy>(patch: Option<T>, current: T) -> (r: T)
    ensures
        r == (match patch {
            Some(v) => v,
            None => current,
        }),
{
    match patch {
        Some(v) => v,
        None => current,
    }
}

impl ConfigPatch {
    /// Lay every field the caller actually set over a parameter snapshot.
    pub fn overlay(&self, base: &mut InitColonyParams)
        ensures
            *final(base) == spec_overlay(*self, *old(base)),
    {
        base.epoch_duration_secs = patched(self.epoch_duration_secs, base.epoch_duration_secs);
        base.rho_bps = patched(self.rho_bps, base.rho_bps);
        base.deposit_scale_q = patched(self.deposit_scale_q, base.deposit_scale_q);
        base.perf_norm_s_bps = patched(self.perf_norm_s_bps, base.perf_norm_s_bps);
        base.risk_aversion_bps = patched(self.risk_aversion_bps, base.risk_aversion_bps);
        base.w_max_bps = patched(self.w_max_bps, base.w_max_bps);
        base.w_drop_bps = patched(self.w_drop_bps, base.w_drop_bps);
        base.scout_budget_bps = patched(self.scout_budget_bps, base.scout_budget_bps);
        base.reband_band_bps = patched(self.reband_band_bps, base.reband_band_bps);
        base.turnover_cap_bps = patched(self.turnover_cap_bps, base.turnover_cap_bps);
        base.promote_min_epochs = patched(self.promote_min_epochs, base.promote_min_epochs);
        base.promote_min_realized_epochs = patched(self.promote_min_realized_epochs, base.promote_min_realized_epochs);
        base.promote_perf_bar_bps = patched(self.promote_perf_bar_bps, base.promote_perf_bar_bps);
        base.scout_ticket_base_units = patched(self.scout_ticket_base_units, base.scout_ticket_base_units);
        base.promote_tau_seed_cap = patched(self.promote_tau_seed_cap, base.promote_tau_seed_cap);
        base.min_bond = patched(self.min_bond, base.min_bond);
        base.bond_ratio_bps = patched(self.bond_ratio_bps, base.bond_ratio_bps);
        base.bond_haircut_bps = patched(self.bond_haircut_bps, base.bond_haircut_bps);
        base.dd_probation_bps = patched(self.dd_probation_bps, base.dd_probation_bps);
        base.dd_slash_bps = patched(self.dd_slash_bps, base.dd_slash_bps);
        base.epoch_loss_limit_bps = patched(self.epoch_loss_limit_bps, base.epoch_loss_limit_bps);
        base.probation_grace_epochs = patched(self.probation_grace_epochs, base.probation_grace_epochs);
        base.nonresponse_timeout_epochs = patched(self.nonresponse_timeout_epochs, base.nonresponse_timeout_epochs);
        base.slash_burn_bps = patched(self.slash_burn_bps, base.slash_burn_bps);
        base.max_single_asset_bps = patched(self.max_single_asset_bps, base.max_single_asset_bps);
        base.cache_accrual_bps = patched(self.cache_accrual_bps, base.cache_accrual_bps);
        base.cache_reserve_target_bps = patched(self.cache_reserve_target_bps, base.cache_reserve_target_bps);
        base.admission_burn_amount = patched(self.admission_burn_amount, base.admission_burn_amount);
    }
}

/// An empty patch changes nothing.
pub proof fn lemma_empty_patch_changes_nothing(base: InitColonyParams)
    ensures
        spec_overlay(spec_empty_patch(), base) == base,
{
}

/// Storing a parameter snapshot taken from the same colony changes nothing;
/// in particular neither the admission mint nor the burn total is reachable
/// from a parameter round trip.
pub proof fn lemma_parameter_round_trip_is_identity(c: ColonyConfig)
    ensures
        spec_with_params(c, spec_params_of(c)) == c,
{
}


// ---------------------------------------------------------------------------
// Genesis and parameter edits
// ---------------------------------------------------------------------------

/// The configuration genesis writes: the signer becomes the authority, epoch
/// numbering starts at 1, every accumulator and counter starts at zero, the
/// admission mint starts unset, leverage is pinned, and the parameters are
/// stored.
pub open spec fn spec_genesis_config(
    params: InitColonyParams,
    authority: Address,
    base_mint: Address,
    epoch_end_ts: i64,
    bump: u8,
) -> ColonyConfig {
    spec_with_params(
        ColonyConfig {
            authority,
            pending_authority: Address::spec_zero(),
            base_mint,
            kolny_mint: Address::spec_zero(),
            epoch: 1,
            settling_epoch: 0,
            epoch_end_ts,
            alloc_remaining_bps: 10_000,
            max_leverage_x: MAX_LEVERAGE_X,
            epoch_phase: PHASE_OPEN,
            paused: false,
            bump,
            ..ColonyConfig::spec_default()
        },
        params,
    )
}

/// Genesis. Creates the colony configuration and fixes the base asset; the
/// first epoch ends one epoch duration after `now`.
pub fn initialize_colony(
    authority: Address,
    base_mint: Address,
    now: i64,
    bump: u8,
    params: InitColonyParams,
) -> (r: Result<(ColonyConfig, ColonyInitialized), ColonyError>)
    ensures
        !params_in_range(params) ==> r == Err::<(ColonyConfig, ColonyInitialized), ColonyError>(
            ColonyError::ParamOutOfRange,
        ),
        params_in_range(params) && !(i64::MIN <= now + params.epoch_duration_secs <= i64::MAX)
            ==> r == Err::<(ColonyConfig, ColonyInitialized), ColonyError>(ColonyError::Overflow),
        params_in_range(params) && i64::MIN <= now + params.epoch_duration_secs <= i64::MAX ==> r
            == Ok::<(ColonyConfig, ColonyInitialized), ColonyError>(
            (
                spec_genesis_config(
                    params,
                    authority,
                    base_mint,
                    (now + params.epoch_duration_secs) as i64,
                    bump,
                ),
                ColonyInitialized {
                    authority,
                    base_mint,
                    epoch_duration_secs: params.epoch_duration_secs,
                    epoch_end_ts: (now + params.epoch_duration_secs) as i64,
                },
            ),
        ),
{
    params.validate()?;
    let epoch_end_ts = match now.checked_add(params.epoch_duration_secs) {
        Some(v) => v,
        None => return Err(ColonyError::Overflow),
    };

    let mut config = ColonyConfig::default();
    config.authority = authority;
    config.pending_authority = Address::zero();
    config.base_mint = base_mint;

    // Epoch numbering starts at 1: a forager is initialized one epoch behind
    // the current one, and at epoch 0 it could never be settled.
    config.epoch = 1;
    config.settling_epoch = 0;
    config.epoch_end_ts = epoch_end_ts;

    config.pheromone_sum = 0;
    config.pheromone_sum_acc = 0;
    config.alloc_rest_sum = 0;
    config.alloc_remaining_bps = BPS_DENOM;

    config.allocatable_pool = 0;
    config.scout_pool = 0;
    config.epoch_turnover_used = 0;

    config.settleable_forager_count = 0;
    config.active_forager_count = 0;
    config.active_count_acc = 0;
    config.settled_count = 0;

    // Pinned by policy, not settable through params or a patch.
    config.max_leverage_x = MAX_LEVERAGE_X;

    // Unset until `set_kolny_mint` names it.
    config.kolny_mint = Address::zero();
    config.total_kolny_burned = 0;

    config.epoch_phase = PHASE_OPEN;
    config.paused = false;
    config.bump = bump;

    params.store_into(&mut config);

    let event = ColonyInitialized {
        authority: config.authority,
        base_mint: config.base_mint,
        epoch_duration_secs: config.epoch_duration_secs,
        epoch_end_ts: config.epoch_end_ts,
    };
    Ok((config, event))
}

/// Move one or more parameters. The patch is merged onto the live parameters
/// and the merged set goes through the genesis gate, so every changed value is
/// range-checked against the values it will sit beside. `epoch_end_ts` does
/// not move.
pub fn update_config(config: &mut ColonyConfig, signer: Address, patch: ConfigPatch) -> (r: Result<
    ConfigUpdated,
    ColonyError,
>)
    ensures
        signer != old(config).authority ==> r == Err::<ConfigUpdated, ColonyError>(
            ColonyError::NotAuthority,
        ),
        signer == old(config).authority && !params_in_range(
            spec_overlay(patch, spec_params_of(*old(config))),
        ) ==> r == Err::<ConfigUpdated, ColonyError>(ColonyError::ParamOutOfRange),
        r is Err ==> *final(config) == *old(config),
        signer == old(config).authority && params_in_range(
            spec_overlay(patch, spec_params_of(*old(config))),
        ) ==> {
            &&& r == Ok::<ConfigUpdated, ColonyError>(
                ConfigUpdated { authority: old(config).authority, epoch: old(config).epoch },
            )
            &&& *final(config) == spec_with_params(
                *old(config),
                spec_overlay(patch, spec_params_of(*old(config))),
            )
        },
{
    if !signer.same(&config.authority) {
        return Err(ColonyError::NotAuthority);
    }
    let mut merged = InitColonyParams::from_config(config);
    patch.overlay(&mut merged);
    merged.validate()?;
    merged.store_into(config);

    Ok(ConfigUpdated { authority: config.authority, epoch: config.epoch })
}

/// The error a rejected admission mint is reported with.
pub open spec fn spec_mint_rejection_error(rejection: AdmissionMintRejection) -> ColonyError {
    match rejection {
        AdmissionMintRejection::Decimals => ColonyError::KolnyMintDecimalsMismatch,
        AdmissionMintRejection::MintAuthorityLive => ColonyError::KolnyMintAuthorityNotRevoked,
        AdmissionMintRejection::FreezeAuthorityLive => ColonyError::KolnyMintFreezeAuthorityNotRevoked,
    }
}

/// Name the mint that admission destroys, once. Only a mint with the expected
/// decimals and with both its mint and freeze authority revoked is accepted.
pub fn set_kolny_mint(
    config: &mut ColonyConfig,
    signer: Address,
    kolny_mint: Address,
    decimals: u8,
    mint_authority_is_none: bool,
    freeze_authority_is_none: bool,
) -> (r: Result<KolnyMintSet, ColonyError>)
    ensures
        signer != old(config).authority ==> r == Err::<KolnyMintSet, ColonyError>(
            ColonyError::NotAuthority,
        ),
        signer == old(config).authority && old(config).kolny_mint != Address::spec_zero() ==> r
            == Err::<KolnyMintSet, ColonyError>(ColonyError::KolnyMintAlreadySet),
        signer == old(config).authority && old(config).kolny_mint == Address::spec_zero() ==> match
            spec_check_admission_mint(decimals, mint_authority_is_none, freeze_authority_is_none) {
            Some(rejection) => r == Err::<KolnyMintSet, ColonyError>(
                spec_mint_rejection_error(rejection),
            ),
            None => {
                &&& r == Ok::<KolnyMintSet, ColonyError>(
                    KolnyMintSet {
                        authority: old(config).authority,
                        kolny_mint,
                        decimals,
                        mint_authority_is_none,
                        freeze_authority_is_none,
                    },
                )
                &&& *final(config) == ColonyConfig { kolny_mint, ..*old(config) }
            },
        },
        r is Err ==> *final(config) == *old(config),
{
    if !signer.same(&config.authority) {
        return Err(ColonyError::NotAuthority);
    }
    if config.kolny_mint_is_set() {
        return Err(ColonyError::KolnyMintAlreadySet);
    }
    if let Some(rejection) = check_admission_mint(
        decimals,
        mint_authority_is_none,
        freeze_authority_is_none,
    ) {
        return Err(
            match rejection {
                AdmissionMintRejection::Decimals => ColonyError::KolnyMintDecimalsMismatch,
                AdmissionMintRejection::MintAuthorityLive => ColonyError::KolnyMintAuthorityNotRevoked,
                AdmissionMintRejection::FreezeAuthorityLive => {
                    ColonyError::KolnyMintFreezeAuthorityNotRevoked
                },
            },
        );
    }
    config.kolny_mint = kolny_mint;
    Ok(
        KolnyMintSet {
            authority: config.authority,
            kolny_mint,
            decimals,
            mint_authority_is_none,
            freeze_authority_is_none,
        },
    )
}

// ---------------------------------------------------------------------------
// Authority handover and pause
// ---------------------------------------------------------------------------

/// Nominate the next authority; nothing changes until the nominee accepts.
/// Proposing the zero address clears a pending nomination.
pub fn propose_authority(config: &mut ColonyConfig, signer: Address, new_authority: Address) -> (r:
    Result<AuthorityProposed, ColonyError>)
    ensures
        signer != old(config).authority ==> {
            &&& r == Err::<AuthorityProposed, ColonyError>(ColonyError::NotAuthority)
            &&& *final(config) == *old(config)
        },
        signer == old(config).authority ==> {
            &&& r == Ok::<AuthorityProposed, ColonyError>(
                AuthorityProposed { current: old(config).authority, pending: new_authority },
            )
            &&& *final(config) == ColonyConfig { pending_authority: new_authority, ..*old(config) }
        },
{
    if !signer.same(&config.authority) {
        return Err(ColonyError::NotAuthority);
    }
    config.pending_authority = new_authority;
    Ok(AuthorityProposed { current: config.authority, pending: new_authority })
}

/// The pending authority takes over by signing; the nomination is cleared.
pub fn accept_authority(config: &mut ColonyConfig, signer: Address) -> (r: Result<
    AuthorityAccepted,
    ColonyError,
>)
    ensures
        old(config).pending_authority == Address::spec_zero() ==> r == Err::<
            AuthorityAccepted,
            ColonyError,
        >(ColonyError::NoPendingAuthority),
        old(config).pending_authority != Address::spec_zero() && old(config).pending_authority
            != signer ==> r == Err::<AuthorityAccepted, ColonyError>(ColonyError::NotAuthority),
        r is Err ==> *final(config) == *old(config),
        old(config).pending_authority != Address::spec_zero() && old(config).pending_authority
            == signer ==> {
            &&& r == Ok::<AuthorityAccepted, ColonyError>(
                AuthorityAccepted { previous: old(config).authority, current: signer },
            )
            &&& *final(config) == ColonyConfig {
                authority: signer,
                pending_authority: Address::spec_zero(),
                ..*old(config)
            }
        },
{
    if config.pending_authority.is_zero() {
        return Err(ColonyError::NoPendingAuthority);
    }
    if !config.pending_authority.same(&signer) {
        return Err(ColonyError::NotAuthority);
    }
    let previous = config.authority;
    config.authority = signer;
    config.pending_authority = Address::zero();
    Ok(AuthorityAccepted { previous, current: config.authority })
}

/// Halt the instructions that push capital outward. Not gated on the flag
/// itself, so a paused colony can always be unpaused.
pub fn set_paused(config: &mut ColonyConfig, signer: Address, paused: bool) -> (r: Result<
    PausedSet,
    ColonyError,
>)
    ensures
        signer != old(config).authority ==> {
            &&& r == Err::<PausedSet, ColonyError>(ColonyError::NotAuthority)
            &&& *final(config) == *old(config)
        },
        signer == old(config).authority ==> {
            &&& r == Ok::<PausedSet, ColonyError>(
                PausedSet { authority: old(config).authority, paused },
            )
            &&& *final(config) == ColonyConfig { paused, ..*old(config) }
        },
{
    if !signer.same(&config.authority) {
        return Err(ColonyError::NotAuthority);
    }
    config.paused = paused;
    Ok(PausedSet { authority: config.authority, paused })
}

// ---------------------------------------------------------------------------
// Singleton accounts
// ---------------------------------------------------------------------------

/// Create the share-accounting state, in the colony's base mint.
pub fn initialize_brood(config: &ColonyConfig, signer: Address, bump: u8) -> (r: Result<
    BroodVaultState,
    ColonyError,
>)
    ensures
        signer != config.authority ==> r == Err::<BroodVaultState, ColonyError>(
            ColonyError::NotAuthority,
        ),
        signer == config.authority ==> r == Ok::<BroodVaultState, ColonyError>(
            BroodVaultState {
                base_mint: config.base_mint,
                vault_base: Address::spec_zero(),
                total_shares: 0,
                pending_redemption_shares: 0,
                idle_base: 0,
                outstanding_principal: 0,
                next_redemption_id: 0,
                bump,
                vault_bump: 0,
            },
        ),
{
    if !signer.same(&config.authority) {
        return Err(ColonyError::NotAuthority);
    }
    let mut brood = BroodVaultState::default();
    brood.base_mint = config.base_mint;
    brood.vault_base = Address::zero();
    brood.total_shares = 0;
    brood.pending_redemption_shares = 0;
    brood.idle_base = 0;
    brood.outstanding_principal = 0;
    brood.next_redemption_id = 0;
    brood.bump = bump;
    brood.vault_bump = 0;
    Ok(brood)
}

/// Record the colony's custody account for idle base asset.
pub fn open_vault_base(
    config: &ColonyConfig,
    brood: &mut BroodVaultState,
    signer: Address,
    base_mint: Address,
    vault_base: Address,
    vault_bump: u8,
) -> (r: Result<BroodInitialized, ColonyError>)
    ensures
        signer != config.authority ==> r == Err::<BroodInitialized, ColonyError>(
            ColonyError::NotAuthority,
        ),
        signer == config.authority && (config.base_mint != base_mint || old(brood).base_mint
            != base_mint) ==> r == Err::<BroodInitialized, ColonyError>(
            ColonyError::BaseMintMismatch,
        ),
        r is Err ==> *final(brood) == *old(brood),
        signer == config.authority && config.base_mint == base_mint && old(brood).base_mint
            == base_mint ==> {
            &&& r == Ok::<BroodInitialized, ColonyError>(
                BroodInitialized { base_mint: old(brood).base_mint, vault_base },
            )
            &&& *final(brood) == BroodVaultState { vault_base, vault_bump, ..*old(brood) }
        },
{
    if !signer.same(&config.authority) {
        return Err(ColonyError::NotAuthority);
    }
    if !config.base_mint.same(&base_mint) || !brood.base_mint.same(&base_mint) {
        return Err(ColonyError::BaseMintMismatch);
    }
    brood.vault_base = vault_base;
    brood.vault_bump = vault_bump;
    Ok(BroodInitialized { base_mint: brood.base_mint, vault_base: brood.vault_base })
}

/// Create the insurance cache state.
pub fn initialize_risk_cache(config: &ColonyConfig, signer: Address, bump: u8) -> (r: Result<
    RiskCacheState,
    ColonyError,
>)
    ensures
        signer != config.authority ==> r == Err::<RiskCacheState, ColonyError>(
            ColonyError::NotAuthority,
        ),
        signer == config.authority ==> r == Ok::<RiskCacheState, ColonyError>(
            RiskCacheState {
                cache_vault: Address::spec_zero(),
                incinerator_vault: Address::spec_zero(),
                balance: 0,
                total_covered: 0,
                total_burned: 0,
                total_accrued: 0,
                bump,
                vault_bump: 0,
                incinerator_bump: 0,
            },
        ),
{
    if !signer.same(&config.authority) {
        return Err(ColonyError::NotAuthority);
    }
    let mut cache = RiskCacheState::default();
    cache.cache_vault = Address::zero();
    cache.incinerator_vault = Address::zero();
    cache.balance = 0;
    cache.total_covered = 0;
    cache.total_burned = 0;
    cache.total_accrued = 0;
    cache.bump = bump;
    cache.vault_bump = 0;
    cache.incinerator_bump = 0;
    Ok(cache)
}

/// Record the account holding the insurance reserve.
pub fn open_cache_vault(
    config: &ColonyConfig,
    cache: &mut RiskCacheState,
    signer: Address,
    base_mint: Address,
    cache_vault: Address,
    vault_bump: u8,
) -> (r: Result<(), ColonyError>)
    ensures
        signer != config.authority ==> r == Err::<(), ColonyError>(ColonyError::NotAuthority),
        signer == config.authority && config.base_mint != base_mint ==> r == Err::<(), ColonyError>(
            ColonyError::BaseMintMismatch,
        ),
        r is Err ==> *final(cache) == *old(cache),
        signer == config.authority && config.base_mint == base_mint ==> {
            &&& r == Ok::<(), ColonyError>(())
            &&& *final(cache) == RiskCacheState { cache_vault, vault_bump, ..*old(cache) }
        },
{
    if !signer.same(&config.authority) {
        return Err(ColonyError::NotAuthority);
    }
    if !config.base_mint.same(&base_mint) {
        return Err(ColonyError::BaseMintMismatch);
    }
    cache.cache_vault = cache_vault;
    cache.vault_bump = vault_bump;
    Ok(())
}

/// Record the one-way sink for the burned share of a seized bond. It opens
/// second, after the cache vault, because its event publishes both addresses.
pub fn open_incinerator_vault(
    config: &ColonyConfig,
    cache: &mut RiskCacheState,
    signer: Address,
    base_mint: Address,
    incinerator_vault: Address,
    incinerator_bump: u8,
) -> (r: Result<RiskCacheInitialized, ColonyError>)
    ensures
        signer != config.authority ==> r == Err::<RiskCacheInitialized, ColonyError>(
            ColonyError::NotAuthority,
        ),
        signer == config.authority && config.base_mint != base_mint ==> r == Err::<
            RiskCacheInitialized,
            ColonyError,
        >(ColonyError::BaseMintMismatch),
        signer == config.authority && config.base_mint == base_mint && old(cache).cache_vault
            == Address::spec_zero() ==> r == Err::<RiskCacheInitialized, ColonyError>(
            ColonyError::VaultMismatch,
        ),
        r is Err ==> *final(cache) == *old(cache),
        signer == config.authority && config.base_mint == base_mint && old(cache).cache_vault
            != Address::spec_zero() ==> {
            &&& r == Ok::<RiskCacheInitialized, ColonyError>(
                RiskCacheInitialized { cache_vault: old(cache).cache_vault, incinerator_vault },
            )
            &&& *final(cache) == RiskCacheState {
                incinerator_vault,
                incinerator_bump,
                ..*old(cache)
            }
        },
{
    if !signer.same(&config.authority) {
        return Err(ColonyError::NotAuthority);
    }
    if !config.base_mint.same(&base_mint) {
        return Err(ColonyError::BaseMintMismatch);
    }
    if cache.cache_vault.is_zero() {
        return Err(ColonyError::VaultMismatch);
    }
    cache.incinerator_vault = incinerator_vault;
    cache.incinerator_bump = incinerator_bump;
    Ok(
        RiskCacheInitialized {
            cache_vault: cache.cache_vault,
            incinerator_vault: cache.incinerator_vault,
        },
    )
}

/// Create the scratch board the settlement crank fills with the largest
/// trails; it starts empty.
pub fn initialize_trail_board(config: &ColonyConfig, signer: Address, bump: u8) -> (r: Result<
    TrailBoard,
    ColonyError,
>)
    ensures
        signer != config.authority ==> r == Err::<TrailBoard, ColonyError>(
            ColonyError::NotAuthority,
        ),
        signer == config.authority ==> (r matches Ok(board) && is_cleared_board(board.top)
            && board.count == 0 && board.bump == bump),
{
    if !signer.same(&config.authority) {
        return Err(ColonyError::NotAuthority);
    }
    let mut board = TrailBoard::default();
    board.reset();
    board.bump = bump;
    Ok(board)
}

} // verus!
