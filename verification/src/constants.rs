//! Tuning parameters for the colony: published defaults and the inclusive
//! ranges every mutable parameter is checked against.
use vstd::prelude::*;

verus! {

pub const BPS_DENOM: u16 = 10_000;

// -- Epoch -------------------------------------------------------------------
/// 7 days.
pub const DEFAULT_EPOCH_DURATION_SECS: i64 = 604_800;
/// 1 day.
pub const MIN_EPOCH_DURATION_SECS: i64 = 86_400;
/// 30 days.
pub const MAX_EPOCH_DURATION_SECS: i64 = 2_592_000;

// -- Pheromone update --------------------------------------------------------
/// Evaporation rate. 1600 = 0.16, a half-life of about 4 epochs.
pub const DEFAULT_RHO_BPS: u16 = 1_600;
pub const MIN_RHO_BPS: u16 = 100;
pub const MAX_RHO_BPS: u16 = 5_000;

/// Deposit scale `Q` in FP6: the largest change one epoch can make to a trail.
pub const DEFAULT_DEPOSIT_SCALE_Q: u64 = 1_000_000;
pub const MIN_DEPOSIT_SCALE_Q: u64 = 100_000;
pub const MAX_DEPOSIT_SCALE_Q: u64 = 10_000_000;

/// Performance normalization scale `s`. 1000 = 10%.
pub const DEFAULT_PERF_NORM_S_BPS: u16 = 1_000;
pub const MIN_PERF_NORM_S_BPS: u16 = 100;
pub const MAX_PERF_NORM_S_BPS: u16 = 5_000;

/// Risk aversion `lambda`. 10000 = 1.0x drawdown penalty.
pub const DEFAULT_RISK_AVERSION_BPS: u16 = 10_000;
pub const MIN_RISK_AVERSION_BPS: u16 = 0;
pub const MAX_RISK_AVERSION_BPS: u16 = 50_000;

/// Fixed-point scale for pheromone and deposits.
pub const FP6_SCALE: u64 = 1_000_000;

/// Pheromone floor. Stays 0 so a dead trail can actually evaporate away.
pub const PHEROMONE_FLOOR: u64 = 0;
/// Overflow bound on a trail, far above any economically reachable value.
pub const PHEROMONE_CEIL: u64 = 1_000_000_000_000;

// -- Weights -----------------------------------------------------------------
/// Single-forager concentration cap. 2000 = 20%.
pub const DEFAULT_W_MAX_BPS: u16 = 2_000;
pub const MIN_W_MAX_BPS: u16 = 500;
pub const MAX_W_MAX_BPS: u16 = 4_000;

/// Demotion threshold, not a floor. 300 = 3%.
pub const DEFAULT_W_DROP_BPS: u16 = 300;
pub const MIN_W_DROP_BPS: u16 = 0;
pub const MAX_W_DROP_BPS: u16 = 1_000;

/// Margin added when the cap has to relax because `n_active * w_max < 1`.
pub const CAP_RELAX_MARGIN_BPS: u16 = 100;

/// Exploration reserve. 1000 = 10% of value under colony.
pub const DEFAULT_SCOUT_BUDGET_BPS: u16 = 1_000;
pub const MIN_SCOUT_BUDGET_BPS: u16 = 500;
pub const MAX_SCOUT_BUDGET_BPS: u16 = 2_000;

/// No-trade band. 200 = 2%.
pub const DEFAULT_REBAND_BAND_BPS: u16 = 200;
pub const MIN_REBAND_BAND_BPS: u16 = 0;
pub const MAX_REBAND_BAND_BPS: u16 = 1_000;

/// Turnover cap. 2500 = 25% of the pool per epoch.
pub const DEFAULT_TURNOVER_CAP_BPS: u16 = 2_500;
pub const MIN_TURNOVER_CAP_BPS: u16 = 500;
pub const MAX_TURNOVER_CAP_BPS: u16 = 10_000;

// -- Scout promotion ---------------------------------------------------------
pub const DEFAULT_PROMOTE_MIN_EPOCHS: u8 = 4;
pub const MIN_PROMOTE_MIN_EPOCHS: u8 = 1;
pub const MAX_PROMOTE_MIN_EPOCHS: u8 = 52;

/// Scout epochs that must have closed with a non-zero realized result.
pub const DEFAULT_PROMOTE_MIN_REALIZED_EPOCHS: u16 = 3;
pub const MIN_PROMOTE_MIN_REALIZED_EPOCHS: u16 = 1;
pub const MAX_PROMOTE_MIN_REALIZED_EPOCHS: u16 = 52;

pub const DEFAULT_PROMOTE_PERF_BAR_BPS: i32 = 0;
pub const MIN_PROMOTE_PERF_BAR_BPS: i32 = -5_000;
pub const MAX_PROMOTE_PERF_BAR_BPS: i32 = 20_000;

/// Cap on the pheromone a scout carries into the main pool at promotion. FP6.
pub const DEFAULT_PROMOTE_TAU_SEED_CAP: u64 = 1_000_000;
pub const MAX_PROMOTE_TAU_SEED_CAP: u64 = 5_000_000;

// -- Bond and slashing -------------------------------------------------------
/// Bond as a fraction of allocation. 1000 = 10%.
pub const DEFAULT_BOND_RATIO_BPS: u16 = 1_000;
pub const MIN_BOND_RATIO_BPS: u16 = 500;
pub const MAX_BOND_RATIO_BPS: u16 = 5_000;

/// Share of a posted bond not recognized as allocation capacity. 3000 = 30%.
pub const DEFAULT_BOND_HAIRCUT_BPS: u16 = 3_000;
pub const MIN_BOND_HAIRCUT_BPS: u16 = 1_000;
pub const MAX_BOND_HAIRCUT_BPS: u16 = 7_000;

/// Current drawdown that puts a forager on probation. 1500 = 15%.
pub const DEFAULT_DD_PROBATION_BPS: u16 = 1_500;
pub const MIN_DD_PROBATION_BPS: u16 = 500;
pub const MAX_DD_PROBATION_BPS: u16 = 4_000;

/// Current drawdown that makes a forager slashable. 3000 = 30%.
pub const DEFAULT_DD_SLASH_BPS: u16 = 3_000;
pub const MIN_DD_SLASH_BPS: u16 = 1_000;
pub const MAX_DD_SLASH_BPS: u16 = 6_000;

/// Per-epoch realized loss that pauses a forager. 1000 = 10%.
pub const DEFAULT_EPOCH_LOSS_LIMIT_BPS: u16 = 1_000;
pub const MIN_EPOCH_LOSS_LIMIT_BPS: u16 = 300;
pub const MAX_EPOCH_LOSS_LIMIT_BPS: u16 = 3_000;

pub const DEFAULT_PROBATION_GRACE_EPOCHS: u8 = 1;
pub const MIN_PROBATION_GRACE_EPOCHS: u8 = 1;
pub const MAX_PROBATION_GRACE_EPOCHS: u8 = 8;

pub const DEFAULT_NONRESPONSE_TIMEOUT_EPOCHS: u8 = 2;
pub const MIN_NONRESPONSE_TIMEOUT_EPOCHS: u8 = 1;
pub const MAX_NONRESPONSE_TIMEOUT_EPOCHS: u8 = 8;

/// Share of a seized bond that is burned; the rest goes to the Risk Cache.
pub const DEFAULT_SLASH_BURN_BPS: u16 = 5_000;
pub const MIN_SLASH_BURN_BPS: u16 = 0;
pub const MAX_SLASH_BURN_BPS: u16 = 10_000;

/// Unlevered only. Fixed at 1 by policy.
pub const MAX_LEVERAGE_X: u8 = 1;

/// Largest single asset inside a sub-account. 4000 = 40%.
pub const DEFAULT_MAX_SINGLE_ASSET_BPS: u16 = 4_000;
pub const MIN_MAX_SINGLE_ASSET_BPS: u16 = 1_000;
pub const MAX_MAX_SINGLE_ASSET_BPS: u16 = 10_000;

// -- Risk Cache --------------------------------------------------------------
/// Realized profit routed to the cache. 1000 = 10%.
pub const DEFAULT_CACHE_ACCRUAL_BPS: u16 = 1_000;
pub const MIN_CACHE_ACCRUAL_BPS: u16 = 0;
pub const MAX_CACHE_ACCRUAL_BPS: u16 = 5_000;

/// Target cache balance as a fraction of value under colony. 400 = 4%.
pub const DEFAULT_CACHE_RESERVE_TARGET_BPS: u16 = 400;
pub const MIN_CACHE_RESERVE_TARGET_BPS: u16 = 100;
pub const MAX_CACHE_RESERVE_TARGET_BPS: u16 = 1_000;

// -- Deposits ----------------------------------------------------------------
/// Smallest accepted deposit.
pub const MINIMUM_DEPOSIT: u64 = 1_000;

// -- Admission burn ----------------------------------------------------------
// `*_KOLNY` constants are whole tokens; `*_BASE_UNITS` constants are what the
// token program moves and the only unit ever stored. Every base-unit constant
// is derived from its whole-token constant.

/// Decimals the admission constants were computed at; checked against the
/// real mint when it is bound.
pub const KOLNY_DECIMALS: u8 = 6;

/// One whole $KOLNY in base units: `10^KOLNY_DECIMALS`.
pub const ONE_KOLNY_BASE_UNITS: u64 = 1_000_000;

/// Total $KOLNY supply, in whole tokens. Fixed at issuance.
pub const KOLNY_TOTAL_SUPPLY_KOLNY: u64 = 1_000_000_000;

/// Admission per registration, in whole $KOLNY. 0.01 percent of supply.
pub const DEFAULT_ADMISSION_BURN_KOLNY: u64 = 100_000;

/// Floor on admission, in whole $KOLNY. 0.001 percent of supply.
pub const MIN_ADMISSION_BURN_KOLNY: u64 = 10_000;

/// Ceiling on admission, in whole $KOLNY. 0.1 percent of supply. A constant
/// rather than a parameter, so the authority cannot raise its own limit.
pub const MAX_ADMISSION_BURN_KOLNY: u64 = 1_000_000;

pub const DEFAULT_ADMISSION_BURN_BASE_UNITS: u64 = DEFAULT_ADMISSION_BURN_KOLNY
    * ONE_KOLNY_BASE_UNITS;
pub const MIN_ADMISSION_BURN_BASE_UNITS: u64 = MIN_ADMISSION_BURN_KOLNY * ONE_KOLNY_BASE_UNITS;
pub const MAX_ADMISSION_BURN_BASE_UNITS: u64 = MAX_ADMISSION_BURN_KOLNY * ONE_KOLNY_BASE_UNITS;

/// Total byte length of a colony configuration account written before the
/// admission burn existed: discriminator plus a 304-byte body.
pub const LEGACY_COLONY_CONFIG_ACCOUNT_LEN: usize = 8 + 304;

/// Whether a mint's decimals match what the admission constants assume.
pub fn admission_decimals_match(mint_decimals: u8) -> (r: bool)
    ensures
        r == (mint_decimals == KOLNY_DECIMALS),
{
    mint_decimals == KOLNY_DECIMALS
}

/// Why the colony refused to bind to a mint.
#[derive(Clone, Copy, PartialEq, Eq, Debug, Structural)]
pub enum AdmissionMintRejection {
    /// The constants would mean a different number of tokens.
    Decimals,
    /// Someone can still mint more, so a burn is not a permanent reduction.
    MintAuthorityLive,
    /// Someone can still freeze holders, so admission is not open to everyone.
    FreezeAuthorityLive,
}

pub open spec fn spec_check_admission_mint(
    decimals: u8,
    mint_authority_is_none: bool,
    freeze_authority_is_none: bool,
) -> Option<AdmissionMintRejection> {
    if decimals != KOLNY_DECIMALS {
        Some(AdmissionMintRejection::Decimals)
    } else if !mint_authority_is_none {
        Some(AdmissionMintRejection::MintAuthorityLive)
    } else if !freeze_authority_is_none {
        Some(AdmissionMintRejection::FreezeAuthorityLive)
    } else {
        None
    }
}

/// The properties the $KOLNY mint must have before the colony binds to it:
/// the expected decimals, then no mint authority, then no freeze authority,
/// reported in that order. Exactly one shape of mint is accepted.
pub fn check_admission_mint(
    decimals: u8,
    mint_authority_is_none: bool,
    freeze_authority_is_none: bool,
) -> (r: Option<AdmissionMintRejection>)
    ensures
        r == spec_check_admission_mint(decimals, mint_authority_is_none, freeze_authority_is_none),
        r is None <==> (decimals == KOLNY_DECIMALS && mint_authority_is_none
            && freeze_authority_is_none),
{
    if !admission_decimals_match(decimals) {
        return Some(AdmissionMintRejection::Decimals);
    }
    if !mint_authority_is_none {
        return Some(AdmissionMintRejection::MintAuthorityLive);
    }
    if !freeze_authority_is_none {
        return Some(AdmissionMintRejection::FreezeAuthorityLive);
    }
    None
}

// -- Lifecycle values, stored as u8 ------------------------------------------
/// Settlement phase of the colony.
pub const PHASE_OPEN: u8 = 0;
pub const PHASE_SETTLING: u8 = 1;

/// Forager lifecycle state.
pub const STATUS_SCOUT: u8 = 0;
pub const STATUS_ACTIVE: u8 = 1;
pub const STATUS_PROBATION: u8 = 2;
pub const STATUS_SLASHED: u8 = 3;
pub const STATUS_RETIRED: u8 = 4;

/// Slash reason codes, recorded on the slash event.
pub const SLASH_REASON_LOSS_THRESHOLD: u8 = 0;
pub const SLASH_REASON_RULE_VIOLATION: u8 = 1;
pub const SLASH_REASON_NON_RESPONSE: u8 = 2;

} // verus!
