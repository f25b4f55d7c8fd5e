//! Events: the record an indexer rebuilds the public history from.
use vstd::prelude::*;

use crate::state::Address;

verus! {

#[derive(Clone, Copy, PartialEq, Eq, Debug, Structural)]
pub struct ColonyInitialized {
    pub authority: Address,
    pub base_mint: Address,
    pub epoch_duration_secs: i64,
    pub epoch_end_ts: i64,
}

#[derive(Clone, Copy, PartialEq, Eq, Debug, Structural)]
pub struct ConfigUpdated {
    pub authority: Address,
    pub epoch: u64,
}

#[derive(Clone, Copy, PartialEq, Eq, Debug, Structural)]
pub struct KolnyMintSet {
    pub authority: Address,
    pub kolny_mint: Address,
    pub decimals: u8,
    pub mint_authority_is_none: bool,
    pub freeze_authority_is_none: bool,
}

#[derive(Clone, Copy, PartialEq, Eq, Debug, Structural)]
pub struct AuthorityProposed {
    pub current: Address,
    pub pending: Address,
}

#[derive(Clone, Copy, PartialEq, Eq, Debug, Structural)]
pub struct AuthorityAccepted {
    pub previous: Address,
    pub current: Address,
}

#[derive(Clone, Copy, PartialEq, Eq, Debug, Structural)]
pub struct PausedSet {
    pub authority: Address,
    pub paused: bool,
}

#[derive(Clone, Copy, PartialEq, Eq, Debug, Structural)]
pub struct BroodInitialized {
    pub base_mint: Address,
    pub vault_base: Address,
}

#[derive(Clone, Copy, PartialEq, Eq, Debug, Structural)]
pub struct RiskCacheInitialized {
    pub cache_vault: Address,
    pub incinerator_vault: Address,
}

#[derive(Clone, Copy, PartialEq, Eq, Debug, Structural)]
pub struct ForagerRegistered {
    pub forager: Address,
    pub operator: Address,
    pub forager_id: u64,
    pub bond: u64,
    pub registered_epoch: u64,
}

/// $KOLNY destroyed to admit an operator: `amount` leaves the operator's
/// account for good.
#[derive(Clone, Copy, PartialEq, Eq, Debug, Structural)]
pub struct KolnyBurned {
    pub operator: Address,
    pub forager: Address,
    pub kolny_mint: Address,
    pub amount: u64,
    pub total_burned: u64,
}

#[derive(Clone, Copy, PartialEq, Eq, Debug, Structural)]
pub struct ForagerVaultOpened {
    pub forager: Address,
    pub forager_vault: Address,
}

#[derive(Clone, Copy, PartialEq, Eq, Debug, Structural)]
pub struct ForagerPromoted {
    pub forager: Address,
    pub epoch: u64,
    pub seeded_pheromone: u64,
}

#[derive(Clone, Copy, PartialEq, Eq, Debug, Structural)]
pub struct ForagerDemoted {
    pub forager: Address,
    pub epoch: u64,
    pub weight_bps: u16,
    pub returned_principal: u64,
}

#[derive(Clone, Copy, PartialEq, Eq, Debug, Structural)]
pub struct ForagerRetired {
    pub forager: Address,
    pub operator: Address,
    pub returned_bond: u64,
    pub swept_base: u64,
}

#[derive(Clone, Copy, PartialEq, Eq, Debug, Structural)]
pub struct BondToppedUp {
    pub forager: Address,
    pub amount: u64,
    pub bond: u64,
}

#[derive(Clone, Copy, PartialEq, Eq, Debug, Structural)]
pub struct Deposited {
    pub depositor: Address,
    pub assets: u64,
    pub shares: u128,
    pub nav_after: u64,
    pub total_shares_after: u128,
}

#[derive(Clone, Copy, PartialEq, Eq, Debug, Structural)]
pub struct Withdrawn {
    pub depositor: Address,
    pub shares: u128,
    pub assets: u64,
    pub nav_after: u64,
    pub total_shares_after: u128,
}

#[derive(Clone, Copy, PartialEq, Eq, Debug, Structural)]
pub struct RedemptionRequested {
    pub depositor: Address,
    pub request_id: u64,
    pub shares: u128,
    pub requested_epoch: u64,
}

#[derive(Clone, Copy, PartialEq, Eq, Debug, Structural)]
pub struct RedemptionFulfilled {
    pub depositor: Address,
    pub request_id: u64,
    pub shares_burned: u128,
    pub assets_paid: u64,
    pub fully_settled: bool,
}

#[derive(Clone, Copy, PartialEq, Eq, Debug, Structural)]
pub struct SettlementBegan {
    pub settling_epoch: u64,
    pub active_forager_count: u32,
    pub started_at: i64,
}

#[derive(Clone, Copy, PartialEq, Eq, Debug, Structural)]
pub struct ForagerSettled {
    pub forager: Address,
    pub settling_epoch: u64,
    pub realized_pnl_epoch: i64,
    pub return_bps: i64,
    pub perf_bps: i64,
    pub deposit_fp6: i64,
    pub pheromone: u64,
    pub principal_after: u64,
    pub drawdown_bps: u16,
}

#[derive(Clone, Copy, PartialEq, Eq, Debug, Structural)]
pub struct LossCovered {
    pub forager: Address,
    pub loss: u64,
    pub from_bond: u64,
    pub from_cache: u64,
    pub to_depositors: u64,
}

#[derive(Clone, Copy, PartialEq, Eq, Debug, Structural)]
pub struct SettlementFinalized {
    pub epoch: u64,
    pub pheromone_sum: u128,
    pub alloc_divisor: u128,
    pub allocatable_pool: u64,
    pub scout_pool: u64,
    pub nav: u64,
}

#[derive(Clone, Copy, PartialEq, Eq, Debug, Structural)]
pub struct ForagerRebalanced {
    pub forager: Address,
    pub epoch: u64,
    pub target: u64,
    pub principal_before: u64,
    pub principal_after: u64,
    pub weight_bps: u16,
}

#[derive(Clone, Copy, PartialEq, Eq, Debug, Structural)]
pub struct ScoutFunded {
    pub forager: Address,
    pub epoch: u64,
    pub ticket: u64,
    pub scout_pool_remaining: u64,
}

#[derive(Clone, Copy, PartialEq, Eq, Debug, Structural)]
pub struct ForagerSlashed {
    pub forager: Address,
    pub operator: Address,
    pub reason_code: u8,
    pub slashed: u64,
    pub burned: u64,
    pub to_cache: u64,
    pub bond_after: u64,
    pub slash_count: u16,
}

#[derive(Clone, Copy, PartialEq, Eq, Debug, Structural)]
pub struct CacheFunded {
    pub funder: Address,
    pub amount: u64,
    pub cache_balance: u64,
}

#[derive(Clone, Copy, PartialEq, Eq, Debug, Structural)]
pub struct CacheAccrued {
    pub epoch: u64,
    pub amount: u64,
    pub cache_balance: u64,
}

} // verus!
