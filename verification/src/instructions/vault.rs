//! Depositor flows: deposit, withdraw and the redemption queue.
//!
//! Share accounting runs over the accounting net asset value
//! `nav = idle_base + outstanding_principal`; no path here reads a live token
//! balance, so tokens sent straight to a vault account are uncredited and
//! cannot move the share price. Every handler keeps
//! `sum(position.shares) + pending_redemption_shares == total_shares`.
use vstd::prelude::*;

use crate::constants::MINIMUM_DEPOSIT;
use crate::errors::ColonyError;
use crate::events::{Deposited, RedemptionRequested, Withdrawn};
use crate::math::{
    assets_for_shares, shares_for_deposit, spec_assets_for_shares, spec_shares_for_deposit,
    VIRTUAL_ASSETS, VIRTUAL_SHARES,
};
use crate::state::{Address, BroodVaultState, ColonyConfig, DepositorPosition, RedemptionRequest};

verus! {

/// Shares outside this position and outside the redemption queue; every
/// handler below leaves it unchanged, so the conservation invariant holds
/// across any sequence of them.
pub open spec fn shares_held_elsewhere(brood: BroodVaultState, position: DepositorPosition) -> int {
    brood.total_shares - brood.pending_redemption_shares - position.shares
}

/// Shares a deposit of `assets` mints at the vault's current accounting price.
pub open spec fn spec_deposit_shares(brood: BroodVaultState, assets: u64) -> int {
    spec_shares_for_deposit(assets, brood.total_shares, brood.spec_nav())
}

/// Deposit base asset and mint shares at the accounting NAV, rounding down.
/// The caller moves `assets` from the depositor into the vault.
pub fn deposit(
    config: &ColonyConfig,
    brood: &mut BroodVaultState,
    position: &mut DepositorPosition,
    depositor: Address,
    base_mint: Address,
    position_bump: u8,
    assets: u64,
) -> (r: Result<Deposited, ColonyError>)
    requires
        base_mint == config.base_mint && base_mint == old(brood).base_mint && !config.paused
            && assets >= MINIMUM_DEPOSIT ==> old(brood).total_shares + VIRTUAL_SHARES <= u128::MAX
            && assets * (old(brood).total_shares + VIRTUAL_SHARES) <= u128::MAX,
    ensures
        base_mint != config.base_mint || base_mint != old(brood).base_mint ==> r == Err::<
            Deposited,
            ColonyError,
        >(ColonyError::BaseMintMismatch),
        base_mint == config.base_mint && base_mint == old(brood).base_mint ==> {
            &&& config.paused ==> r == Err::<Deposited, ColonyError>(ColonyError::Paused)
            &&& !config.paused && assets < MINIMUM_DEPOSIT ==> r == Err::<Deposited, ColonyError>(
                ColonyError::BelowMinimumDeposit,
            )
            &&& !config.paused && assets >= MINIMUM_DEPOSIT && spec_deposit_shares(*old(brood), assets)
                == 0 ==> r == Err::<Deposited, ColonyError>(ColonyError::ZeroAmount)
            &&& !config.paused && assets >= MINIMUM_DEPOSIT && spec_deposit_shares(*old(brood), assets)
                > 0 ==> {
                let shares = spec_deposit_shares(*old(brood), assets);
                if old(brood).idle_base + assets > u64::MAX || old(brood).total_shares + shares
                    > u128::MAX || old(position).shares + shares > u128::MAX {
                    r == Err::<Deposited, ColonyError>(ColonyError::Overflow)
                } else {
                    let after = BroodVaultState {
                        idle_base: (old(brood).idle_base + assets) as u64,
                        total_shares: (old(brood).total_shares + shares) as u128,
                        ..*old(brood)
                    };
                    &&& *final(brood) == after
                    &&& *final(position) == DepositorPosition {
                        owner: depositor,
                        shares: (old(position).shares + shares) as u128,
                        bump: position_bump,
                    }
                    &&& r == Ok::<Deposited, ColonyError>(
                        Deposited {
                            depositor,
                            assets,
                            shares: shares as u128,
                            nav_after: after.spec_nav(),
                            total_shares_after: after.total_shares,
                        },
                    )
                }
            }
        },
        r is Err ==> *final(brood) == *old(brood) && *final(position) == *old(position),
        r is Ok ==> shares_held_elsewhere(*final(brood), *final(position)) == shares_held_elsewhere(
            *old(brood),
            *old(position),
        ),
{
    if !base_mint.same(&config.base_mint) || !base_mint.same(&brood.base_mint) {
        return Err(ColonyError::BaseMintMismatch);
    }
    if config.paused {
        return Err(ColonyError::Paused);
    }
    if assets < MINIMUM_DEPOSIT {
        return Err(ColonyError::BelowMinimumDeposit);
    }
    // Accounting NAV, never the vault's token balance.
    let nav = brood.nav();
    let total_shares = brood.total_shares;
    let shares = shares_for_deposit(assets, total_shares, nav);

    // Crediting assets for zero shares would hand them to existing holders.
    if shares == 0 {
        return Err(ColonyError::ZeroAmount);
    }
    let idle_base = match brood.idle_base.checked_add(assets) {
        Some(v) => v,
        None => return Err(ColonyError::Overflow),
    };
    let total_after = match brood.total_shares.checked_add(shares) {
        Some(v) => v,
        None => return Err(ColonyError::Overflow),
    };
    let position_shares = match position.shares.checked_add(shares) {
        Some(v) => v,
        None => return Err(ColonyError::Overflow),
    };

    brood.idle_base = idle_base;
    brood.total_shares = total_after;
    let nav_after = brood.nav();

    position.owner = depositor;
    position.shares = position_shares;
    position.bump = position_bump;

    Ok(Deposited { depositor, assets, shares, nav_after, total_shares_after: total_after })
}

/// Assets a withdrawal of `shares` pays out at the current accounting price.
pub open spec fn spec_withdraw_assets(brood: BroodVaultState, shares: u128) -> int {
    spec_assets_for_shares(shares, brood.total_shares, brood.spec_nav())
}

/// Burn shares for base asset out of idle liquidity, rounding down. A
/// withdrawal larger than idle liquidity is refused; the depositor queues a
/// redemption instead. Not blocked while the colony is paused. The caller
/// moves the returned assets from the vault to the depositor.
pub fn withdraw(
    brood: &mut BroodVaultState,
    position: &mut DepositorPosition,
    depositor: Address,
    base_mint: Address,
    shares: u128,
) -> (r: Result<Withdrawn, ColonyError>)
    requires
        base_mint == old(brood).base_mint && shares > 0 && old(position).shares >= shares ==> old(
            brood,
        ).total_shares + VIRTUAL_SHARES <= u128::MAX && shares * (old(brood).spec_nav()
            + VIRTUAL_ASSETS) <= u128::MAX,
    ensures
        base_mint != old(brood).base_mint ==> r == Err::<Withdrawn, ColonyError>(
            ColonyError::BaseMintMismatch,
        ),
        base_mint == old(brood).base_mint ==> {
            &&& shares == 0 ==> r == Err::<Withdrawn, ColonyError>(ColonyError::ZeroAmount)
            &&& shares > 0 && old(position).shares < shares ==> r == Err::<Withdrawn, ColonyError>(
                ColonyError::InsufficientShares,
            )
            &&& shares > 0 && old(position).shares >= shares && spec_withdraw_assets(
                *old(brood),
                shares,
            ) > old(brood).idle_base ==> r == Err::<Withdrawn, ColonyError>(
                ColonyError::InsufficientIdleLiquidity,
            )
            &&& shares > 0 && old(position).shares >= shares && spec_withdraw_assets(
                *old(brood),
                shares,
            ) <= old(brood).idle_base ==> {
                let assets = spec_withdraw_assets(*old(brood), shares);
                let after = BroodVaultState {
                    idle_base: (old(brood).idle_base - assets) as u64,
                    total_shares: if old(brood).total_shares >= shares {
                        (old(brood).total_shares - shares) as u128
                    } else {
                        0
                    },
                    ..*old(brood)
                };
                &&& *final(brood) == after
                &&& *final(position) == DepositorPosition {
                    shares: (old(position).shares - shares) as u128,
                    ..*old(position)
                }
                &&& r == Ok::<Withdrawn, ColonyError>(
                    Withdrawn {
                        depositor,
                        shares,
                        assets: assets as u64,
                        nav_after: after.spec_nav(),
                        total_shares_after: after.total_shares,
                    },
                )
            }
        },
        r is Err ==> *final(brood) == *old(brood) && *final(position) == *old(position),
        r is Ok && old(brood).total_shares >= old(brood).pending_redemption_shares + old(
            position,
        ).shares ==> shares_held_elsewhere(*final(brood), *final(position))
            == shares_held_elsewhere(*old(brood), *old(position)),
{
    if !base_mint.same(&brood.base_mint) {
        return Err(ColonyError::BaseMintMismatch);
    }
    if shares == 0 {
        return Err(ColonyError::ZeroAmount);
    }
    if position.shares < shares {
        return Err(ColonyError::InsufficientShares);
    }
    let nav = brood.nav();
    let total_shares = brood.total_shares;
    // Rounds down, so any residual atom stays with the depositors who remain.
    let assets = assets_for_shares(shares, total_shares, nav);

    // Deployed capital cannot be recalled by this program; idle liquidity is
    // the honest limit.
    if assets > brood.idle_base {
        return Err(ColonyError::InsufficientIdleLiquidity);
    }
    brood.idle_base = brood.idle_base - assets;
    brood.total_shares = brood.total_shares.saturating_sub(shares);
    let nav_after = brood.nav();
    let total_shares_after = brood.total_shares;

    position.shares = position.shares - shares;

    Ok(Withdrawn { depositor, shares, assets, nav_after, total_shares_after })
}

/// Queue a redemption for later payout. The shares leave the position now, so
/// they cannot be queued twice or withdrawn as well, but they are not burned:
/// the depositor keeps the exposure until paid, and no share price moves.
pub fn request_redemption(
    config: &ColonyConfig,
    brood: &mut BroodVaultState,
    position: &mut DepositorPosition,
    depositor: Address,
    request_bump: u8,
    shares: u128,
) -> (r: Result<(RedemptionRequest, RedemptionRequested), ColonyError>)
    ensures
        shares == 0 ==> r == Err::<(RedemptionRequest, RedemptionRequested), ColonyError>(
            ColonyError::ZeroAmount,
        ),
        shares > 0 && old(position).shares < shares ==> r == Err::<
            (RedemptionRequest, RedemptionRequested),
            ColonyError,
        >(ColonyError::InsufficientShares),
        shares > 0 && old(position).shares >= shares && (old(brood).pending_redemption_shares
            + shares > u128::MAX || old(brood).next_redemption_id == u64::MAX) ==> r == Err::<
            (RedemptionRequest, RedemptionRequested),
            ColonyError,
        >(ColonyError::Overflow),
        r is Err ==> *final(brood) == *old(brood) && *final(position) == *old(position),
        shares > 0 && old(position).shares >= shares && old(brood).pending_redemption_shares
            + shares <= u128::MAX && old(brood).next_redemption_id < u64::MAX ==> {
            let request_id = old(brood).next_redemption_id;
            &&& *final(position) == DepositorPosition {
                shares: (old(position).shares - shares) as u128,
                ..*old(position)
            }
            &&& *final(brood) == BroodVaultState {
                pending_redemption_shares: (old(brood).pending_redemption_shares + shares) as u128,
                next_redemption_id: (request_id + 1) as u64,
                ..*old(brood)
            }
            &&& r == Ok::<(RedemptionRequest, RedemptionRequested), ColonyError>(
                (
                    RedemptionRequest {
                        owner: depositor,
                        shares,
                        request_id,
                        requested_epoch: config.epoch,
                        assets_paid: 0,
                        bump: request_bump,
                    },
                    RedemptionRequested {
                        depositor,
                        request_id,
                        shares,
                        requested_epoch: config.epoch,
                    },
                ),
            )
        },
        r is Ok ==> shares_held_elsewhere(*final(brood), *final(position)) == shares_held_elsewhere(
            *old(brood),
            *old(position),
        ),
{
    if shares == 0 {
        return Err(ColonyError::ZeroAmount);
    }
    if position.shares < shares {
        return Err(ColonyError::InsufficientShares);
    }
    let requested_epoch = config.epoch;
    let request_id = brood.next_redemption_id;
    let pending = match brood.pending_redemption_shares.checked_add(shares) {
        Some(v) => v,
        None => return Err(ColonyError::Overflow),
    };
    let next_id = match request_id.checked_add(1) {
        Some(v) => v,
        None => return Err(ColonyError::Overflow),
    };

    position.shares = position.shares - shares;
    brood.pending_redemption_shares = pending;
    brood.next_redemption_id = next_id;

    let request = RedemptionRequest {
        owner: depositor,
        shares,
        request_id,
        requested_epoch,
        assets_paid: 0,
        bump: request_bump,
    };
    Ok((request, RedemptionRequested { depositor, request_id, shares, requested_epoch }))
}

} // verus!
