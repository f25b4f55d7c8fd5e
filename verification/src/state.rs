//! Account state of the colony, as the plain values the logic reads and
//! writes. Addresses are carried as four little-endian 64-bit words.
use vstd::prelude::*;

use crate::math::TOP_TRAILS_LEN;

verus! {

/// A 32-byte account address.
#[derive(Clone, Copy, PartialEq, Eq, Debug, Structural)]
pub struct Address {
    pub w0: u64,
    pub w1: u64,
    pub w2: u64,
    pub w3: u64,
}

impl Address {
    /// The all-zero address, used as "unset".
    pub open spec fn spec_zero() -> Address {
        Address { w0: 0, w1: 0, w2: 0, w3: 0 }
    }

    pub fn zero() -> (r: Address)
        ensures
            r == Address::spec_zero(),
    {
        Address { w0: 0, w1: 0, w2: 0, w3: 0 }
    }

    pub fn is_zero(&self) -> (r: bool)
        ensures
            r == (*self == Address::spec_zero()),
    {
        self.w0 == 0 && self.w1 == 0 && self.w2 == 0 && self.w3 == 0
    }

    pub fn same(&self, other: &Address) -> (r: bool)
        ensures
            r == (*self == *other),
    {
        self.w0 == other.w0 && self.w1 == other.w1 && self.w2 == other.w2 && self.w3 == other.w3
    }
}

/// Global colony configuration and epoch state.
#[derive(Clone, Copy, PartialEq, Eq, Debug)]
pub struct ColonyConfig {
    // -- identity
    pub authority: Address,
    pub pending_authority: Address,
    pub base_mint: Address,
    /// The mint admission destroys; zero until `set_kolny_mint` names it.
    pub kolny_mint: Address,
    // -- epoch
    pub epoch: u64,
    pub settling_epoch: u64,
    pub epoch_end_ts: i64,
    pub epoch_duration_secs: i64,
    // -- allocation accumulators
    /// Normalization denominator confirmed at the end of the last settlement.
    pub pheromone_sum: u128,
    /// Running sum during a settlement.
    pub pheromone_sum_acc: u128,
    /// Total pheromone of the foragers left uncapped by the solved level.
    pub alloc_rest_sum: u128,
    // -- pools and sizes
    pub allocatable_pool: u64,
    pub scout_pool: u64,
    pub min_bond: u64,
    pub deposit_scale_q: u64,
    pub scout_ticket_base_units: u64,
    pub promote_tau_seed_cap: u64,
    /// Capital moved so far this epoch, against the turnover cap.
    pub epoch_turnover_used: u64,
    // -- admission
    /// $KOLNY destroyed per registration, in base units.
    pub admission_burn_amount: u64,
    /// Total $KOLNY destroyed by admission so far.
    pub total_kolny_burned: u64,
    // -- counters
    /// Foragers that must be settled this epoch.
    pub settleable_forager_count: u32,
    /// Foragers that were Active at the last finalize.
    pub active_forager_count: u32,
    /// Running count of Active foragers during a settlement.
    pub active_count_acc: u32,
    pub settled_count: u32,
    pub promote_perf_bar_bps: i32,
    // -- bps parameters
    pub rho_bps: u16,
    pub perf_norm_s_bps: u16,
    pub risk_aversion_bps: u16,
    pub w_max_bps: u16,
    pub w_drop_bps: u16,
    pub scout_budget_bps: u16,
    pub reband_band_bps: u16,
    pub turnover_cap_bps: u16,
    pub promote_min_realized_epochs: u16,
    pub bond_ratio_bps: u16,
    pub bond_haircut_bps: u16,
    pub dd_probation_bps: u16,
    pub dd_slash_bps: u16,
    pub epoch_loss_limit_bps: u16,
    pub slash_burn_bps: u16,
    pub max_single_asset_bps: u16,
    pub cache_accrual_bps: u16,
    pub cache_reserve_target_bps: u16,
    /// Share of the pool left for uncapped foragers at the solved level.
    pub alloc_remaining_bps: u16,
    // -- small scalars
    pub promote_min_epochs: u8,
    pub probation_grace_epochs: u8,
    pub nonresponse_timeout_epochs: u8,
    /// Fixed at 1 by policy.
    pub max_leverage_x: u8,
    pub epoch_phase: u8,
    pub paused: bool,
    pub bump: u8,
}

impl ColonyConfig {
    pub open spec fn spec_default() -> ColonyConfig {
        ColonyConfig {
            authority: Address::spec_zero(),
            pending_authority: Address::spec_zero(),
            base_mint: Address::spec_zero(),
            kolny_mint: Address::spec_zero(),
            epoch: 0,
            settling_epoch: 0,
            epoch_end_ts: 0,
            epoch_duration_secs: 0,
            pheromone_sum: 0,
            pheromone_sum_acc: 0,
            alloc_rest_sum: 0,
            allocatable_pool: 0,
            scout_pool: 0,
            min_bond: 0,
            deposit_scale_q: 0,
            scout_ticket_base_units: 0,
            promote_tau_seed_cap: 0,
            epoch_turnover_used: 0,
            admission_burn_amount: 0,
            total_kolny_burned: 0,
            settleable_forager_count: 0,
            active_forager_count: 0,
            active_count_acc: 0,
            settled_count: 0,
            promote_perf_bar_bps: 0,
            rho_bps: 0,
            perf_norm_s_bps: 0,
            risk_aversion_bps: 0,
            w_max_bps: 0,
            w_drop_bps: 0,
            scout_budget_bps: 0,
            reband_band_bps: 0,
            turnover_cap_bps: 0,
            promote_min_realized_epochs: 0,
            bond_ratio_bps: 0,
            bond_haircut_bps: 0,
            dd_probation_bps: 0,
            dd_slash_bps: 0,
            epoch_loss_limit_bps: 0,
            slash_burn_bps: 0,
            max_single_asset_bps: 0,
            cache_accrual_bps: 0,
            cache_reserve_target_bps: 0,
            alloc_remaining_bps: 0,
            promote_min_epochs: 0,
            probation_grace_epochs: 0,
            nonresponse_timeout_epochs: 0,
            max_leverage_x: 0,
            epoch_phase: 0,
            paused: false,
            bump: 0,
        }
    }

    /// Whether `set_kolny_mint` has already named the admission mint.
    pub fn kolny_mint_is_set(&self) -> (r: bool)
        ensures
            r == (self.kolny_mint != Address::spec_zero()),
    {
        !self.kolny_mint.is_zero()
    }
}

impl Default for ColonyConfig {
    fn default() -> (r: Self)
        ensures
            r == ColonyConfig::spec_default(),
    {
        ColonyConfig {
            authority: Address::zero(),
            pending_authority: Address::zero(),
            base_mint: Address::zero(),
            kolny_mint: Address::zero(),
            epoch: 0,
            settling_epoch: 0,
            epoch_end_ts: 0,
            epoch_duration_secs: 0,
            pheromone_sum: 0,
            pheromone_sum_acc: 0,
            alloc_rest_sum: 0,
            allocatable_pool: 0,
            scout_pool: 0,
            min_bond: 0,
            deposit_scale_q: 0,
            scout_ticket_base_units: 0,
            promote_tau_seed_cap: 0,
            epoch_turnover_used: 0,
            admission_burn_amount: 0,
            total_kolny_burned: 0,
            settleable_forager_count: 0,
            active_forager_count: 0,
            active_count_acc: 0,
            settled_count: 0,
            promote_perf_bar_bps: 0,
            rho_bps: 0,
            perf_norm_s_bps: 0,
            risk_aversion_bps: 0,
            w_max_bps: 0,
            w_drop_bps: 0,
            scout_budget_bps: 0,
            reband_band_bps: 0,
            turnover_cap_bps: 0,
            promote_min_realized_epochs: 0,
            bond_ratio_bps: 0,
            bond_haircut_bps: 0,
            dd_probation_bps: 0,
            dd_slash_bps: 0,
            epoch_loss_limit_bps: 0,
            slash_burn_bps: 0,
            max_single_asset_bps: 0,
            cache_accrual_bps: 0,
            cache_reserve_target_bps: 0,
            alloc_remaining_bps: 0,
            promote_min_epochs: 0,
            probation_grace_epochs: 0,
            nonresponse_timeout_epochs: 0,
            max_leverage_x: 0,
            epoch_phase: 0,
            paused: false,
            bump: 0,
        }
    }
}

/// One forager: an operator-run trail the colony can send capital down.
#[derive(Clone, Copy, PartialEq, Eq, Debug)]
pub struct ForagerState {
    // -- identity
    pub operator: Address,
    pub forager_vault: Address,
    // -- accounting
    pub forager_id: u64,
    /// Posted bond, held inside the sub-account but accounted separately.
    pub bond: u64,
    /// Colony capital currently deployed to this forager.
    pub principal: u64,
    /// Trail strength, FP6.
    pub pheromone: u64,
    /// Highest principal-relative equity seen, for drawdown.
    pub high_water: u64,
    pub last_settled_epoch: u64,
    pub registered_epoch: u64,
    /// Epochs this forager closed with a non-zero realized result.
    pub realized_epochs: u64,
    pub scout_epochs: u64,
    pub last_scout_epoch: u64,
    // -- signed / temporal
    pub realized_pnl_cumulative: i64,
    /// Cumulative risk-adjusted realized performance, for the promotion bar.
    pub scout_perf_cum_bps: i64,
    pub probation_until_epoch: u64,
    pub last_heartbeat_ts: i64,
    // -- opaque strategy tag
    pub strategy_meta: [u8; 32],
    // -- bps
    pub max_drawdown_bps: u16,
    pub current_drawdown_bps: u16,
    pub slash_count: u16,
    // -- small
    pub status: u8,
    pub bump: u8,
    pub vault_bump: u8,
}

impl ForagerState {
    /// A zeroed forager record carrying `tag` as its strategy tag.
    pub open spec fn spec_blank(tag: [u8; 32]) -> ForagerState {
        ForagerState {
            operator: Address::spec_zero(),
            forager_vault: Address::spec_zero(),
            forager_id: 0,
            bond: 0,
            principal: 0,
            pheromone: 0,
            high_water: 0,
            last_settled_epoch: 0,
            registered_epoch: 0,
            realized_epochs: 0,
            scout_epochs: 0,
            last_scout_epoch: 0,
            realized_pnl_cumulative: 0,
            scout_perf_cum_bps: 0,
            probation_until_epoch: 0,
            last_heartbeat_ts: 0,
            strategy_meta: tag,
            max_drawdown_bps: 0,
            current_drawdown_bps: 0,
            slash_count: 0,
            status: 0,
            bump: 0,
            vault_bump: 0,
        }
    }
}

pub open spec fn is_zero_tag(tag: [u8; 32]) -> bool {
    forall|i: int| 0 <= i < 32 ==> #[trigger] tag@[i] == 0
}

impl Default for ForagerState {
    fn default() -> (r: Self)
        ensures
            r == ForagerState::spec_blank(r.strategy_meta),
            is_zero_tag(r.strategy_meta),
    {
        let tag = [0u8; 32];
        ForagerState {
            operator: Address::zero(),
            forager_vault: Address::zero(),
            forager_id: 0,
            bond: 0,
            principal: 0,
            pheromone: 0,
            high_water: 0,
            last_settled_epoch: 0,
            registered_epoch: 0,
            realized_epochs: 0,
            scout_epochs: 0,
            last_scout_epoch: 0,
            realized_pnl_cumulative: 0,
            scout_perf_cum_bps: 0,
            probation_until_epoch: 0,
            last_heartbeat_ts: 0,
            strategy_meta: tag,
            max_drawdown_bps: 0,
            current_drawdown_bps: 0,
            slash_count: 0,
            status: 0,
            bump: 0,
            vault_bump: 0,
        }
    }
}

/// Brood Vault share accounting. `nav = idle_base + outstanding_principal`,
/// both accounting counters that move only through credited deposits,
/// withdrawals and settlement, never by reading a live token balance.
#[derive(Clone, Copy, PartialEq, Eq, Debug, Structural)]
pub struct BroodVaultState {
    pub base_mint: Address,
    pub vault_base: Address,
    pub total_shares: u128,
    pub pending_redemption_shares: u128,
    pub idle_base: u64,
    pub outstanding_principal: u64,
    pub next_redemption_id: u64,
    pub bump: u8,
    pub vault_bump: u8,
}

impl BroodVaultState {
    pub open spec fn spec_nav(&self) -> u64 {
        if self.idle_base + self.outstanding_principal > u64::MAX {
            u64::MAX
        } else {
            (self.idle_base + self.outstanding_principal) as u64
        }
    }

    /// Net asset value. Realized only: an open position that has not been
    /// closed and settled contributes nothing here.
    pub fn nav(&self) -> (r: u64)
        ensures
            r == self.spec_nav(),
    {
        self.idle_base.saturating_add(self.outstanding_principal)
    }

    /// Capital the concentration cap left unplaceable, which stays in the
    /// vault rather than being forced into an over-concentrated position.
    pub fn undeployed_reserve(&self, allocatable_pool: u64) -> (r: u64)
        ensures
            r == (if allocatable_pool >= self.outstanding_principal {
                allocatable_pool - self.outstanding_principal
            } else {
                0
            }),
    {
        allocatable_pool.saturating_sub(self.outstanding_principal)
    }
}

impl Default for BroodVaultState {
    fn default() -> (r: Self)
        ensures
            r == (BroodVaultState {
                base_mint: Address::spec_zero(),
                vault_base: Address::spec_zero(),
                total_shares: 0,
                pending_redemption_shares: 0,
                idle_base: 0,
                outstanding_principal: 0,
                next_redemption_id: 0,
                bump: 0,
                vault_bump: 0,
            }),
    {
        BroodVaultState {
            base_mint: Address::zero(),
            vault_base: Address::zero(),
            total_shares: 0,
            pending_redemption_shares: 0,
            idle_base: 0,
            outstanding_principal: 0,
            next_redemption_id: 0,
            bump: 0,
            vault_bump: 0,
        }
    }
}

/// A depositor's share balance.
#[derive(Clone, Copy, PartialEq, Eq, Debug, Structural)]
pub struct DepositorPosition {
    pub owner: Address,
    pub shares: u128,
    pub bump: u8,
}

impl Default for DepositorPosition {
    fn default() -> (r: Self)
        ensures
            r == (DepositorPosition { owner: Address::spec_zero(), shares: 0, bump: 0 }),
    {
        DepositorPosition { owner: Address::zero(), shares: 0, bump: 0 }
    }
}

/// Insurance cache.
#[derive(Clone, Copy, PartialEq, Eq, Debug, Structural)]
pub struct RiskCacheState {
    pub cache_vault: Address,
    /// Locked sink. No instruction ever withdraws from it.
    pub incinerator_vault: Address,
    pub balance: u64,
    pub total_covered: u64,
    pub total_burned: u64,
    pub total_accrued: u64,
    pub bump: u8,
    pub vault_bump: u8,
    pub incinerator_bump: u8,
}

impl Default for RiskCacheState {
    fn default() -> (r: Self)
        ensures
            r == (RiskCacheState {
                cache_vault: Address::spec_zero(),
                incinerator_vault: Address::spec_zero(),
                balance: 0,
                total_covered: 0,
                total_burned: 0,
                total_accrued: 0,
                bump: 0,
                vault_bump: 0,
                incinerator_bump: 0,
            }),
    {
        RiskCacheState {
            cache_vault: Address::zero(),
            incinerator_vault: Address::zero(),
            balance: 0,
            total_covered: 0,
            total_burned: 0,
            total_accrued: 0,
            bump: 0,
            vault_bump: 0,
            incinerator_bump: 0,
        }
    }
}

/// A queued redemption, for a withdrawal larger than idle liquidity.
#[derive(Clone, Copy, PartialEq, Eq, Debug, Structural)]
pub struct RedemptionRequest {
    pub owner: Address,
    pub shares: u128,
    pub request_id: u64,
    pub requested_epoch: u64,
    pub assets_paid: u64,
    pub bump: u8,
}

impl Default for RedemptionRequest {
    fn default() -> (r: Self)
        ensures
            r == (RedemptionRequest {
                owner: Address::spec_zero(),
                shares: 0,
                request_id: 0,
                requested_epoch: 0,
                assets_paid: 0,
                bump: 0,
            }),
    {
        RedemptionRequest {
            owner: Address::zero(),
            shares: 0,
            request_id: 0,
            requested_epoch: 0,
            assets_paid: 0,
            bump: 0,
        }
    }
}

/// The largest trails seen during the current settlement, in descending order.
#[derive(Clone, Copy, PartialEq, Eq, Debug)]
pub struct TrailBoard {
    pub top: [u64; TOP_TRAILS_LEN],
    pub count: u8,
    pub bump: u8,
}

pub open spec fn is_cleared_board(top: [u64; TOP_TRAILS_LEN]) -> bool {
    forall|i: int| 0 <= i < TOP_TRAILS_LEN ==> #[trigger] top@[i] == 0
}

impl TrailBoard {
    /// Empty the board, keeping its bump.
    pub fn reset(&mut self)
        ensures
            is_cleared_board(final(self).top),
            final(self).count == 0,
            final(self).bump == old(self).bump,
    {
        self.top = [0u64; TOP_TRAILS_LEN];
        self.count = 0;
    }
}

impl Default for TrailBoard {
    fn default() -> (r: Self)
        ensures
            is_cleared_board(r.top),
            r.count == 0,
            r.bump == 0,
    {
        TrailBoard { top: [0u64; TOP_TRAILS_LEN], count: 0, bump: 0 }
    }
}

} // verus!
