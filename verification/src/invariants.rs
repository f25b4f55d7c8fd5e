//! Properties that span instructions, stated over the specifications the
//! instructions' own contracts use.
//!
//! The claim the colony rests on comes first: the admission burn is a binary
//! eligibility gate and nothing more. What an operator burned to be admitted
//! buys no pheromone, no weight, no larger scout ticket and no lighter slash;
//! capital follows realized performance alone.
use vstd::prelude::*;

use crate::constants::{STATUS_ACTIVE, STATUS_PROBATION};
use crate::constants::{
    PHASE_OPEN, SLASH_REASON_LOSS_THRESHOLD, SLASH_REASON_NON_RESPONSE,
    SLASH_REASON_RULE_VIOLATION, STATUS_SCOUT, STATUS_SLASHED,
};
use crate::errors::ColonyError;
use crate::instructions::forager::{spec_admission_refusal, spec_registered_forager};
use crate::instructions::risk::spec_punitive_slash_bps;
use crate::instructions::admin::{spec_overlay, spec_params_of, spec_with_params, ConfigPatch};
use crate::instructions::risk::{spec_scout_refusal, spec_scout_ticket, spec_slash_decision};
use crate::instructions::settlement::{
    spec_measure, spec_settle, spec_settle_refusal, spec_settled_weight, Settled,
};
use crate::math::{
    lemma_bond_moves_are_not_performance, lemma_bounded_insertions_commute,
    lemma_top_insert_is_bounded_insert, sorted_desc, spec_realized_epoch_pnl, spec_slash_amount,
    spec_top_insert, TOP_TRAILS_LEN,
};
use crate::instructions::vault::{spec_deposit_shares, spec_withdraw_assets};
use crate::math::spec_slash_burn;
use crate::state::{Address, BroodVaultState, ColonyConfig, ForagerState, RiskCacheState};

verus! {

/// Two configurations that differ at most in the admission fields: the burn
/// amount, the running burn total and the admission mint.
pub open spec fn same_but_admission(a: ColonyConfig, b: ColonyConfig) -> bool {
    a == ColonyConfig {
        admission_burn_amount: a.admission_burn_amount,
        total_kolny_burned: a.total_kolny_burned,
        kolny_mint: a.kolny_mint,
        ..b
    }
}

/// Settling a forager never reads the admission fields: under two
/// configurations that differ only there, the same forager is refused for the
/// same reason or settles to the same trail, record, vault, cache, board and
/// events, and the configurations still differ only there.
pub proof fn lemma_admission_never_prices_a_settlement(
    a: ColonyConfig,
    b: ColonyConfig,
    forager: ForagerState,
    brood: BroodVaultState,
    cache: RiskCacheState,
    top: Seq<u64>,
    count: u8,
    vault_balance: u64,
    forager_key: Address,
)
    requires
        same_but_admission(a, b),
    ensures
        spec_settle_refusal(a, forager) == spec_settle_refusal(b, forager),
        ({
            let ra = spec_settle(a, forager, brood, cache, top, count, vault_balance, forager_key);
            let rb = spec_settle(b, forager, brood, cache, top, count, vault_balance, forager_key);
            &&& ra is Some <==> rb is Some
            &&& ra is Some ==> {
                let (sa, sb) = (ra.unwrap(), rb.unwrap());
                &&& sa.forager == sb.forager
                &&& sa.brood == sb.brood
                &&& sa.cache == sb.cache
                &&& sa.top == sb.top
                &&& sa.count == sb.count
                &&& sa.outcome == sb.outcome
                &&& same_but_admission(sa.config, sb.config)
            }
        }),
{
}

/// Drawing a scout ticket never reads the admission fields: the same refusal,
/// or the same ticket out of the same pool.
pub proof fn lemma_admission_never_buys_a_scout_ticket(
    a: ColonyConfig,
    b: ColonyConfig,
    brood: BroodVaultState,
    forager: ForagerState,
    forager_key: Address,
)
    requires
        same_but_admission(a, b),
    ensures
        spec_scout_refusal(a, brood, forager) == spec_scout_refusal(b, brood, forager),
        ({
            let (ca, ba, fa, ea) = spec_scout_ticket(a, brood, forager, forager_key);
            let (cb, bb, fb, eb) = spec_scout_ticket(b, brood, forager, forager_key);
            &&& ba == bb
            &&& fa == fb
            &&& ea == eb
            &&& same_but_admission(ca, cb)
        }),
{
}

/// The slash a forager is exposed to never reads the admission fields.
pub proof fn lemma_admission_never_softens_a_slash(
    a: ColonyConfig,
    b: ColonyConfig,
    forager: ForagerState,
    now: i64,
    reason_code: u8,
)
    requires
        same_but_admission(a, b),
    ensures
        spec_slash_decision(a, forager, now, reason_code) == spec_slash_decision(
            b,
            forager,
            now,
            reason_code,
        ),
{
}

/// A settled forager cannot be settled again in the same epoch: whatever its
/// sub-account holds by then, it is refused as already settled, so it is
/// never counted into the accumulators twice.
pub proof fn lemma_a_forager_settles_once_per_epoch(
    config: ColonyConfig,
    forager: ForagerState,
    brood: BroodVaultState,
    cache: RiskCacheState,
    top: Seq<u64>,
    count: u8,
    vault_balance: u64,
    forager_key: Address,
)
    requires
        spec_settle_refusal(config, forager) is None,
        spec_settle(config, forager, brood, cache, top, count, vault_balance, forager_key) is Some,
    ensures
        ({
            let s = spec_settle(config, forager, brood, cache, top, count, vault_balance, forager_key).unwrap();
            spec_settle_refusal(s.config, s.forager) == Some(ColonyError::AlreadySettledThisEpoch)
        }),
{
}

/// Settling the next forager on top of a settlement's results.
pub open spec fn spec_settle_next(
    s: Settled,
    forager: ForagerState,
    vault_balance: u64,
    forager_key: Address,
) -> Option<Settled> {
    spec_settle(s.config, forager, s.brood, s.cache, s.top, s.count, vault_balance, forager_key)
}

/// The crank may settle foragers in any order: each forager is measured from
/// its own state and the accumulators are sums, so two foragers settled in
/// either order leave the colony's accumulators, and every other field of its
/// configuration, the same.
pub proof fn lemma_settlement_order_does_not_move_the_accumulators(
    config: ColonyConfig,
    first: ForagerState,
    second: ForagerState,
    brood: BroodVaultState,
    cache: RiskCacheState,
    top: Seq<u64>,
    count: u8,
    first_balance: u64,
    second_balance: u64,
    first_key: Address,
    second_key: Address,
)
    requires
        spec_settle(config, first, brood, cache, top, count, first_balance, first_key) is Some,
        spec_settle(config, second, brood, cache, top, count, second_balance, second_key) is Some,
        spec_settle_next(
            spec_settle(config, first, brood, cache, top, count, first_balance, first_key).unwrap(),
            second,
            second_balance,
            second_key,
        ) is Some,
        spec_settle_next(
            spec_settle(config, second, brood, cache, top, count, second_balance, second_key).unwrap(),
            first,
            first_balance,
            first_key,
        ) is Some,
    ensures
        spec_settle_next(
            spec_settle(config, first, brood, cache, top, count, first_balance, first_key).unwrap(),
            second,
            second_balance,
            second_key,
        ).unwrap().config == spec_settle_next(
            spec_settle(config, second, brood, cache, top, count, second_balance, second_key).unwrap(),
            first,
            first_balance,
            first_key,
        ).unwrap().config,
{
}

/// A slash takes the same amount out of the forager's sub-account and out of
/// its recorded bond, so the realized figure the next settlement measures is
/// the one the slash found.
pub proof fn lemma_a_slash_leaves_the_realized_figure(
    vault_balance: u64,
    bond: u64,
    principal: u64,
    slash_bps: u16,
)
    requires
        vault_balance >= bond,
        slash_bps <= 10_000,
    ensures
        spec_slash_amount(bond, slash_bps) <= bond,
        spec_realized_epoch_pnl(
            (vault_balance - spec_slash_amount(bond, slash_bps)) as u64,
            (bond - spec_slash_amount(bond, slash_bps)) as u64,
            principal,
        ) == spec_realized_epoch_pnl(vault_balance, bond, principal),
{
    let slashed = spec_slash_amount(bond, slash_bps);
    assert((bond as int) * (slash_bps as int) <= (bond as int) * 10_000) by (nonlinear_arith)
        requires
            0 <= slash_bps <= 10_000,
            bond >= 0,
    ;
    lemma_bond_moves_are_not_performance(
        (vault_balance - slashed) as u64,
        (bond - slashed) as u64,
        principal,
        slashed,
    );
}

/// A trail board as settlement keeps it: its occupied prefix in descending
/// order.
pub open spec fn well_formed_board(top: Seq<u64>, count: u8) -> bool {
    &&& top.len() == TOP_TRAILS_LEN
    &&& count <= TOP_TRAILS_LEN
    &&& sorted_desc(top.take(count as int))
}

/// The trail a settlement offers the board and whether the forager counts as
/// Active afterwards; read from the forager, its balance and the colony's
/// parameters alone.
pub open spec fn spec_contribution(config: ColonyConfig, forager: ForagerState, vault_balance: u64) -> (
    u64,
    bool,
) {
    let m = spec_measure(config, forager, vault_balance);
    let after_loss = if m.realized < 0 && forager.status == STATUS_ACTIVE && m.drawdown_bps
        >= config.dd_probation_bps {
        STATUS_PROBATION
    } else {
        forager.status
    };
    let reviewed = if after_loss == STATUS_PROBATION && m.drawdown_bps < config.dd_probation_bps {
        STATUS_ACTIVE
    } else {
        after_loss
    };
    (
        m.pheromone,
        reviewed == STATUS_ACTIVE && spec_settled_weight(config, m.pheromone) >= config.w_drop_bps,
    )
}

proof fn lemma_settlement_board_step(
    config: ColonyConfig,
    forager: ForagerState,
    brood: BroodVaultState,
    cache: RiskCacheState,
    top: Seq<u64>,
    count: u8,
    vault_balance: u64,
    forager_key: Address,
)
    requires
        spec_settle(config, forager, brood, cache, top, count, vault_balance, forager_key) is Some,
    ensures
        ({
            let s = spec_settle(config, forager, brood, cache, top, count, vault_balance, forager_key).unwrap();
            let (pheromone, active) = spec_contribution(config, forager, vault_balance);
            &&& active ==> (s.top, s.count) == spec_top_insert(top, count, pheromone)
            &&& !active ==> s.top == top && s.count == count
            &&& s.config == ColonyConfig {
                pheromone_sum_acc: s.config.pheromone_sum_acc,
                active_count_acc: s.config.active_count_acc,
                settled_count: s.config.settled_count,
                ..config
            }
        }),
{
}

/// The trail board does not depend on the order the crank settles foragers
/// in either: two foragers settled in either order leave the same tracked
/// trails, in the same order, on a well-formed board.
pub proof fn lemma_settlement_order_does_not_move_the_board(
    config: ColonyConfig,
    first: ForagerState,
    second: ForagerState,
    brood: BroodVaultState,
    cache: RiskCacheState,
    top: Seq<u64>,
    count: u8,
    first_balance: u64,
    second_balance: u64,
    first_key: Address,
    second_key: Address,
)
    requires
        well_formed_board(top, count),
        spec_settle(config, first, brood, cache, top, count, first_balance, first_key) is Some,
        spec_settle(config, second, brood, cache, top, count, second_balance, second_key) is Some,
        spec_settle_next(
            spec_settle(config, first, brood, cache, top, count, first_balance, first_key).unwrap(),
            second,
            second_balance,
            second_key,
        ) is Some,
        spec_settle_next(
            spec_settle(config, second, brood, cache, top, count, second_balance, second_key).unwrap(),
            first,
            first_balance,
            first_key,
        ) is Some,
    ensures
        ({
            let sa = spec_settle(config, first, brood, cache, top, count, first_balance, first_key).unwrap();
            let sb = spec_settle(config, second, brood, cache, top, count, second_balance, second_key).unwrap();
            let sab = spec_settle_next(sa, second, second_balance, second_key).unwrap();
            let sba = spec_settle_next(sb, first, first_balance, first_key).unwrap();
            &&& sab.count == sba.count
            &&& sab.top.take(sab.count as int) == sba.top.take(sba.count as int)
            &&& well_formed_board(sab.top, sab.count)
        }),
{
    let sa = spec_settle(config, first, brood, cache, top, count, first_balance, first_key).unwrap();
    let sb = spec_settle(config, second, brood, cache, top, count, second_balance, second_key).unwrap();
    lemma_settlement_board_step(config, first, brood, cache, top, count, first_balance, first_key);
    lemma_settlement_board_step(config, second, brood, cache, top, count, second_balance, second_key);
    lemma_settlement_board_step(
        sa.config,
        second,
        sa.brood,
        sa.cache,
        sa.top,
        sa.count,
        second_balance,
        second_key,
    );
    lemma_settlement_board_step(
        sb.config,
        first,
        sb.brood,
        sb.cache,
        sb.top,
        sb.count,
        first_balance,
        first_key,
    );
    let (pa, act_a) = spec_contribution(config, first, first_balance);
    let (pb, act_b) = spec_contribution(config, second, second_balance);
    assert(spec_contribution(sa.config, second, second_balance) == (pb, act_b));
    assert(spec_contribution(sb.config, first, first_balance) == (pa, act_a));
    let prefix = top.take(count as int);
    if act_a {
        lemma_top_insert_is_bounded_insert(top, count, pa);
    }
    if act_b {
        lemma_top_insert_is_bounded_insert(top, count, pb);
    }
    if act_a && act_b {
        lemma_top_insert_is_bounded_insert(sa.top, sa.count, pb);
        lemma_top_insert_is_bounded_insert(sb.top, sb.count, pa);
        lemma_bounded_insertions_commute(prefix, pa, pb);
    }
}

/// Settlement keeps the trail board well formed: its tracked trails stay in
/// descending order and never exceed its capacity.
pub proof fn lemma_settlement_keeps_the_board_well_formed(
    config: ColonyConfig,
    forager: ForagerState,
    brood: BroodVaultState,
    cache: RiskCacheState,
    top: Seq<u64>,
    count: u8,
    vault_balance: u64,
    forager_key: Address,
)
    requires
        well_formed_board(top, count),
        spec_settle(config, forager, brood, cache, top, count, vault_balance, forager_key) is Some,
    ensures
        well_formed_board(
            spec_settle(config, forager, brood, cache, top, count, vault_balance, forager_key).unwrap().top,
            spec_settle(config, forager, brood, cache, top, count, vault_balance, forager_key).unwrap().count,
        ),
{
    lemma_settlement_board_step(config, forager, brood, cache, top, count, vault_balance, forager_key);
    let (pheromone, active) = spec_contribution(config, forager, vault_balance);
    if active {
        lemma_top_insert_is_bounded_insert(top, count, pheromone);
    }
}

/// A board cleared for a new settlement is well formed.
pub proof fn lemma_a_cleared_board_is_well_formed(top: Seq<u64>)
    requires
        top.len() == TOP_TRAILS_LEN,
    ensures
        well_formed_board(top, 0),
{
    assert(top.take(0).len() == 0);
}

/// One ticket per scout per epoch: right after a ticket is paid, the same
/// scout is refused a second one until the epoch advances.
pub proof fn lemma_one_scout_ticket_per_epoch(
    config: ColonyConfig,
    brood: BroodVaultState,
    forager: ForagerState,
    forager_key: Address,
)
    requires
        spec_scout_refusal(config, brood, forager) is None,
    ensures
        ({
            let (c, b, f, e) = spec_scout_ticket(config, brood, forager, forager_key);
            spec_scout_refusal(c, b, f) == Some(ColonyError::ScoutTicketAlreadyDrawn)
        }),
{
}

/// No parameter patch reaches the admission mint or the running burn total:
/// the only writer of the mint is `set_kolny_mint`.
pub proof fn lemma_a_patch_never_reaches_the_admission_state(config: ColonyConfig, patch: ConfigPatch)
    ensures
        spec_with_params(config, spec_overlay(patch, spec_params_of(config))).kolny_mint
            == config.kolny_mint,
        spec_with_params(config, spec_overlay(patch, spec_params_of(config))).total_kolny_burned
            == config.total_kolny_burned,
{
}

/// What a settlement does to the depositors' accounting NAV: it moves by the
/// realized result, plus what the bond and the Risk Cache paid in against a
/// loss, minus the cache's cut of a profit. So a loss costs depositors exactly
/// what the cushion could not absorb, and a profit reaches them less the cut.
pub proof fn lemma_settlement_moves_nav_by_the_realized_result(
    config: ColonyConfig,
    forager: ForagerState,
    brood: BroodVaultState,
    cache: RiskCacheState,
    top: Seq<u64>,
    count: u8,
    vault_balance: u64,
    forager_key: Address,
)
    requires
        spec_settle(config, forager, brood, cache, top, count, vault_balance, forager_key) is Some,
        brood.outstanding_principal >= forager.principal,
        brood.idle_base + brood.outstanding_principal <= u64::MAX,
        spec_measure(config, forager, vault_balance).realized == spec_measure(
            config,
            forager,
            vault_balance,
        ).equity - forager.principal,
        ({
            let s = spec_settle(config, forager, brood, cache, top, count, vault_balance, forager_key).unwrap();
            s.brood.idle_base + s.brood.outstanding_principal <= u64::MAX
        }),
    ensures
        ({
            let s = spec_settle(config, forager, brood, cache, top, count, vault_balance, forager_key).unwrap();
            let realized = spec_measure(config, forager, vault_balance).realized;
            &&& s.brood.spec_nav() == brood.spec_nav() + realized + (match s.outcome.loss {
                Some(l) => l.from_bond + l.from_cache,
                None => 0,
            }) - (match s.outcome.accrued {
                Some(a) => a.amount as int,
                None => 0,
            })
            &&& s.outcome.loss matches Some(l) ==> s.brood.spec_nav() == brood.spec_nav()
                - l.to_depositors
        }),
{
}

// ---------------------------------------------------------------------------
// What the share, slash and waterfall operations are for
// ---------------------------------------------------------------------------

/// A deposit is priced at the whole accounting NAV, idle liquidity plus
/// deployed principal, with the virtual offsets: `assets * (shares + 1e6) /
/// (idle + outstanding + 1)`. Deploying idle capital to a forager, which moves
/// value from one counter to the other, does not change what a deposit mints.
pub proof fn lemma_deposits_are_priced_at_the_whole_nav(
    brood: BroodVaultState,
    assets: u64,
    deployed: u64,
)
    requires
        brood.idle_base + brood.outstanding_principal <= u64::MAX,
        deployed <= brood.idle_base,
    ensures
        spec_deposit_shares(brood, assets) == (assets * (brood.total_shares + 1_000_000)) / (
        brood.idle_base + brood.outstanding_principal + 1),
        spec_deposit_shares(
            BroodVaultState {
                idle_base: (brood.idle_base - deployed) as u64,
                outstanding_principal: (brood.outstanding_principal + deployed) as u64,
                ..brood
            },
            assets,
        ) == spec_deposit_shares(brood, assets),
{
}

/// A withdrawal pays `shares * (idle + outstanding + 1) / (total_shares + 1e6)`
/// (capped at the largest amount), where `total_shares` still counts the
/// shares queued for redemption: queued shares are not burned until paid, so
/// how many are queued never changes what a withdrawal pays.
pub proof fn lemma_withdrawals_count_the_queued_shares(
    brood: BroodVaultState,
    shares: u128,
    queued: u128,
)
    requires
        brood.idle_base + brood.outstanding_principal <= u64::MAX,
    ensures
        ({
            let exact = (shares * (brood.idle_base + brood.outstanding_principal + 1)) / (
            brood.total_shares + 1_000_000);
            spec_withdraw_assets(brood, shares) == if exact <= u64::MAX {
                exact
            } else {
                u64::MAX as int
            }
        }),
        spec_withdraw_assets(BroodVaultState { pending_redemption_shares: queued, ..brood }, shares)
            == spec_withdraw_assets(brood, shares),
{
}

/// The burned share of a seized bond is `slashed * slash_burn_bps / 10_000`:
/// nothing at zero, all of it at the whole, and never less for a larger burn
/// share; the rest goes to the Risk Cache.
pub proof fn lemma_the_burn_share_burns(bond: u64, slash_bps: u16, lower: u16, higher: u16)
    requires
        lower <= higher,
    ensures
        spec_slash_burn(bond, slash_bps, lower) == (spec_slash_amount(bond, slash_bps) * lower)
            / 10_000,
        spec_slash_burn(bond, slash_bps, lower) <= spec_slash_burn(bond, slash_bps, higher),
        spec_slash_burn(bond, slash_bps, 0) == 0,
        spec_slash_burn(bond, slash_bps, 10_000) == spec_slash_amount(bond, slash_bps),
        spec_slash_amount(bond, slash_bps) == ((bond * slash_bps) / 10_000) as u64,
{
    let slashed = spec_slash_amount(bond, slash_bps) as int;
    assert(slashed * lower <= slashed * higher) by (nonlinear_arith)
        requires
            lower <= higher,
            slashed >= 0,
    ;
    assert(0 <= slashed * lower) by (nonlinear_arith)
        requires
            lower >= 0,
            slashed >= 0,
    ;
    vstd::arithmetic::div_mod::lemma_div_is_ordered(slashed * lower, slashed * higher, 10_000);
    assert(slashed * 10_000 == 10_000 * slashed) by (nonlinear_arith);
    vstd::arithmetic::div_mod::lemma_div_multiples_vanish(slashed, 10_000);
}

/// A realized loss is absorbed in waterfall order: the operator's bond first,
/// up to all of it, then the Risk Cache, up to all of it, and only the rest
/// reaches depositors. The cache is never touched while the bond could still
/// pay, and what the bond and the cache pay lands in the vault.
pub proof fn lemma_losses_run_bond_then_cache_then_depositors(
    config: ColonyConfig,
    forager: ForagerState,
    brood: BroodVaultState,
    cache: RiskCacheState,
    top: Seq<u64>,
    count: u8,
    vault_balance: u64,
    forager_key: Address,
)
    requires
        spec_settle_refusal(config, forager) is None,
        spec_settle(config, forager, brood, cache, top, count, vault_balance, forager_key) is Some,
        ({
            let equity = if vault_balance >= forager.bond {
                vault_balance - forager.bond
            } else {
                0
            };
            0 < forager.principal - equity <= 9_223_372_036_854_775_808
        }),
    ensures
        ({
            let s = spec_settle(config, forager, brood, cache, top, count, vault_balance, forager_key).unwrap();
            let equity = if vault_balance >= forager.bond {
                vault_balance - forager.bond
            } else {
                0
            };
            let loss = forager.principal - equity;
            &&& s.outcome.accrued is None
            &&& s.outcome.loss is Some
            &&& s.outcome.loss.unwrap().loss == loss
            &&& s.outcome.loss.unwrap().from_bond <= forager.bond
            &&& s.outcome.loss.unwrap().from_bond <= loss
            &&& s.outcome.loss.unwrap().from_bond < loss ==> s.outcome.loss.unwrap().from_bond
                == forager.bond
            &&& s.outcome.loss.unwrap().from_cache <= cache.balance
            &&& s.outcome.loss.unwrap().from_bond + s.outcome.loss.unwrap().from_cache <= loss
            &&& s.outcome.loss.unwrap().from_bond + s.outcome.loss.unwrap().from_cache < loss
                ==> s.outcome.loss.unwrap().from_cache == cache.balance
            &&& s.outcome.loss.unwrap().from_cache > 0 ==> s.outcome.loss.unwrap().from_bond
                == forager.bond
            &&& s.outcome.loss.unwrap().to_depositors == loss - s.outcome.loss.unwrap().from_bond
                - s.outcome.loss.unwrap().from_cache
            &&& s.forager.bond == forager.bond - s.outcome.loss.unwrap().from_bond
            &&& s.cache.balance == cache.balance - s.outcome.loss.unwrap().from_cache
            &&& s.brood.idle_base == brood.idle_base + s.outcome.loss.unwrap().from_bond
                + s.outcome.loss.unwrap().from_cache
        }),
{
}

/// A realized profit pays the Risk Cache its cut exactly while the cache is
/// below its reserve target, a share of the whole accounting NAV (idle
/// liquidity plus the deployed principal after this settlement): the cut is
/// `profit * cache_accrual_bps / 10_000`, never more than the forager's
/// equity, and it leaves the forager's principal and the vault's claim. At or
/// above target, or with a zero cut, nothing moves.
pub proof fn lemma_profits_feed_the_cache_while_it_is_under_target(
    config: ColonyConfig,
    forager: ForagerState,
    brood: BroodVaultState,
    cache: RiskCacheState,
    top: Seq<u64>,
    count: u8,
    vault_balance: u64,
    forager_key: Address,
)
    requires
        spec_settle_refusal(config, forager) is None,
        spec_settle(config, forager, brood, cache, top, count, vault_balance, forager_key) is Some,
        config.cache_accrual_bps <= 10_000,
        config.cache_reserve_target_bps <= 10_000,
        vault_balance >= forager.bond,
        0 < vault_balance - forager.bond - forager.principal <= i64::MAX,
        brood.outstanding_principal >= forager.principal,
        brood.idle_base + brood.outstanding_principal - forager.principal + (vault_balance
            - forager.bond) <= u64::MAX,
    ensures
        ({
            let s = spec_settle(config, forager, brood, cache, top, count, vault_balance, forager_key).unwrap();
            let equity = vault_balance - forager.bond;
            let profit = equity - forager.principal;
            let outstanding = brood.outstanding_principal - forager.principal + equity;
            let target = ((brood.idle_base + outstanding) * config.cache_reserve_target_bps)
                / 10_000;
            let cut = if (profit * config.cache_accrual_bps) / 10_000 <= equity {
                (profit * config.cache_accrual_bps) / 10_000
            } else {
                equity
            };
            &&& s.outcome.loss is None
            &&& cache.balance < target && cut > 0 ==> {
                &&& s.outcome.accrued is Some
                &&& s.outcome.accrued.unwrap().amount == cut
                &&& s.outcome.accrued.unwrap().cache_balance == cache.balance + cut
                &&& s.cache.balance == cache.balance + cut
                &&& s.cache.total_accrued == cache.total_accrued + cut
                &&& s.forager.principal == equity - cut
                &&& s.brood.outstanding_principal == outstanding - cut
            }
            &&& !(cache.balance < target && cut > 0) ==> {
                &&& s.outcome.accrued is None
                &&& s.cache == cache
                &&& s.forager.principal == equity
                &&& s.brood.outstanding_principal == outstanding
            }
        }),
{
    let equity = vault_balance - forager.bond;
    let profit = equity - forager.principal;
    assert(0 <= profit * config.cache_accrual_bps <= profit * 10_000) by (nonlinear_arith)
        requires
            profit > 0,
            0 <= config.cache_accrual_bps <= 10_000,
    ;
    vstd::arithmetic::div_mod::lemma_div_is_ordered(
        profit * config.cache_accrual_bps,
        profit * 10_000,
        10_000,
    );
    assert(profit * 10_000 == 10_000 * profit) by (nonlinear_arith);
    vstd::arithmetic::div_mod::lemma_div_multiples_vanish(profit, 10_000);
    let nav = brood.idle_base + brood.outstanding_principal - forager.principal + equity;
    assert(0 <= nav * config.cache_reserve_target_bps <= nav * 10_000) by (nonlinear_arith)
        requires
            nav >= 0,
            0 <= config.cache_reserve_target_bps <= 10_000,
    ;
    vstd::arithmetic::div_mod::lemma_div_is_ordered(
        nav * config.cache_reserve_target_bps,
        nav * 10_000,
        10_000,
    );
    assert(nav * 10_000 == 10_000 * nav) by (nonlinear_arith);
    vstd::arithmetic::div_mod::lemma_div_multiples_vanish(nav, 10_000);
}

/// What a slash may seize, by reason: a rule violation the whole bond; silence
/// the whole bond, but only once the silence outlasts the limit; a loss past
/// the threshold `(drawdown - threshold) / threshold` of the bond, capped at
/// the whole and refused at or under the threshold; any other reason nothing.
/// A deeper drawdown never seizes less.
pub proof fn lemma_what_a_slash_may_seize(
    drawdown_bps: u16,
    deeper_bps: u16,
    dd_slash_bps: u16,
    silence: i64,
    limit: i64,
    reason_code: u8,
)
    requires
        drawdown_bps <= deeper_bps,
    ensures
        spec_punitive_slash_bps(SLASH_REASON_RULE_VIOLATION, drawdown_bps, dd_slash_bps, silence, limit)
            == Ok::<u16, ColonyError>(10_000),
        spec_punitive_slash_bps(SLASH_REASON_NON_RESPONSE, drawdown_bps, dd_slash_bps, silence, limit)
            == if silence > limit {
            Ok::<u16, ColonyError>(10_000)
        } else {
            Err(ColonyError::NotSlashable)
        },
        dd_slash_bps > 0 && drawdown_bps > dd_slash_bps ==> ({
            let ramp = if (drawdown_bps - dd_slash_bps) * 10_000 / (dd_slash_bps as int)
                <= 10_000 {
                (drawdown_bps - dd_slash_bps) * 10_000 / (dd_slash_bps as int)
            } else {
                10_000
            };
            spec_punitive_slash_bps(
                SLASH_REASON_LOSS_THRESHOLD,
                drawdown_bps,
                dd_slash_bps,
                silence,
                limit,
            ) == if ramp > 0 {
                Ok::<u16, ColonyError>(ramp as u16)
            } else {
                Err(ColonyError::NotSlashable)
            }
        }),
        drawdown_bps <= dd_slash_bps ==> spec_punitive_slash_bps(
            SLASH_REASON_LOSS_THRESHOLD,
            drawdown_bps,
            dd_slash_bps,
            silence,
            limit,
        ) == Err::<u16, ColonyError>(ColonyError::NotSlashable),
        reason_code > 2 ==> spec_punitive_slash_bps(
            reason_code,
            drawdown_bps,
            dd_slash_bps,
            silence,
            limit,
        ) == Err::<u16, ColonyError>(ColonyError::NotSlashable),
        spec_punitive_slash_bps(SLASH_REASON_LOSS_THRESHOLD, drawdown_bps, dd_slash_bps, silence, limit)
            matches Ok(a) ==> (spec_punitive_slash_bps(
            SLASH_REASON_LOSS_THRESHOLD,
            deeper_bps,
            dd_slash_bps,
            silence,
            limit,
        ) matches Ok(b) && a <= b),
{
    if dd_slash_bps > 0 && drawdown_bps > dd_slash_bps {
        let t = dd_slash_bps as int;
        assert((drawdown_bps - t) * 10_000 <= (deeper_bps - t) * 10_000);
        vstd::arithmetic::div_mod::lemma_div_is_ordered(
            (drawdown_bps - t) * 10_000,
            (deeper_bps - t) * 10_000,
            t,
        );
        vstd::arithmetic::div_mod::lemma_div_is_ordered(0, (drawdown_bps - t) * 10_000, t);
    }
}

/// A scout ticket is a fixed-size draw from the scout pool: the pool and idle
/// liquidity each fall by exactly the ticket, deployed principal and the
/// scout's principal each rise by it, and the scout is stamped for this
/// epoch. A ticket is refused unless the colony is open and unpaused, the
/// forager is a scout that has not drawn this epoch, the ticket is non-zero
/// and covered by both the pool and idle liquidity, and the counters fit.
pub proof fn lemma_a_scout_ticket_is_a_fixed_draw(
    config: ColonyConfig,
    brood: BroodVaultState,
    forager: ForagerState,
    forager_key: Address,
)
    ensures
        ({
            let ticket = config.scout_ticket_base_units;
            spec_scout_refusal(config, brood, forager) is None <==> {
                &&& config.epoch_phase == PHASE_OPEN
                &&& !config.paused
                &&& forager.status == STATUS_SCOUT
                &&& forager.last_scout_epoch < config.epoch
                &&& 0 < ticket <= config.scout_pool
                &&& ticket <= brood.idle_base
                &&& brood.outstanding_principal + ticket <= u64::MAX
                &&& forager.principal + ticket <= u64::MAX
            }
        }),
        spec_scout_refusal(config, brood, forager) is None ==> {
            let ticket = config.scout_ticket_base_units;
            let (c, b, f, e) = spec_scout_ticket(config, brood, forager, forager_key);
            &&& c.scout_pool + ticket == config.scout_pool
            &&& b.idle_base + ticket == brood.idle_base
            &&& b.outstanding_principal == brood.outstanding_principal + ticket
            &&& f.principal == forager.principal + ticket
            &&& f.last_scout_epoch == config.epoch
            &&& e.ticket == ticket
            &&& b.spec_nav() == brood.spec_nav()
        },
{
}

/// Registration admits for a fixed burn and grants nothing else: the new
/// record is a Scout with no bond, principal, trail or sub-account, and the
/// burn is refused while no admission mint is bound, while it is zero, or
/// when the running total would overflow.
pub proof fn lemma_registration_grants_nothing_but_admission(
    config: ColonyConfig,
    operator: Address,
    forager_id: u64,
    strategy_meta: [u8; 32],
    now: i64,
    bump: u8,
)
    ensures
        ({
            let f = spec_registered_forager(config, operator, forager_id, strategy_meta, now, bump);
            &&& f.status == STATUS_SCOUT
            &&& f.bond == 0 && f.principal == 0 && f.pheromone == 0 && f.high_water == 0
            &&& f.forager_vault == Address::spec_zero()
            &&& f.operator == operator && f.forager_id == forager_id
            &&& f.registered_epoch == config.epoch
            &&& f.last_heartbeat_ts == now
            &&& f.realized_epochs == 0 && f.scout_epochs == 0 && f.slash_count == 0
        }),
        spec_admission_refusal(config) is None <==> {
            &&& config.kolny_mint != Address::spec_zero()
            &&& config.admission_burn_amount > 0
            &&& config.total_kolny_burned + config.admission_burn_amount <= u64::MAX
        },
{
}

/// Settlement measures performance with the bond taken out: posting more bond
/// into the sub-account (the balance and the recorded bond rising together)
/// changes neither the realized result, the performance nor the trail it
/// lays down.
pub proof fn lemma_settlement_never_reads_bond_as_performance(
    config: ColonyConfig,
    forager: ForagerState,
    vault_balance: u64,
    top_up: u64,
)
    requires
        vault_balance >= forager.bond,
        vault_balance + top_up <= u64::MAX,
    ensures
        ({
            let m = spec_measure(config, forager, vault_balance);
            let n = spec_measure(
                config,
                ForagerState { bond: (forager.bond + top_up) as u64, ..forager },
                (vault_balance + top_up) as u64,
            );
            &&& n == m
            &&& m.equity == vault_balance - forager.bond
            &&& m.high_water == if forager.high_water >= m.equity {
                forager.high_water
            } else {
                m.equity
            }
            &&& forager.high_water <= m.equity ==> m.drawdown_bps == 0
        }),
{
}

/// How one settlement moves a forager through its lifecycle and the crank's
/// accumulators. The trail and the counters follow the measurement; an Active
/// forager whose loss reached the probation threshold goes on probation for
/// the grace window; a probationary forager back under the threshold is
/// reinstated; an Active trail under `w_drop` is demoted to the Scout Sandbox
/// and left out of the normalization, and every other Active trail joins it
/// with its new pheromone. Scouts and slashed foragers are never counted.
pub proof fn lemma_settlement_moves_the_lifecycle(
    config: ColonyConfig,
    forager: ForagerState,
    brood: BroodVaultState,
    cache: RiskCacheState,
    top: Seq<u64>,
    count: u8,
    vault_balance: u64,
    forager_key: Address,
)
    requires
        spec_settle_refusal(config, forager) is None,
        spec_settle(config, forager, brood, cache, top, count, vault_balance, forager_key) is Some,
    ensures
        ({
            let s = spec_settle(config, forager, brood, cache, top, count, vault_balance, forager_key).unwrap();
            let m = spec_measure(config, forager, vault_balance);
            let weight = spec_settled_weight(config, m.pheromone);
            let on_probation = forager.status == STATUS_ACTIVE && m.realized < 0 && m.drawdown_bps
                >= config.dd_probation_bps;
            let reinstated = forager.status == STATUS_PROBATION && m.drawdown_bps
                < config.dd_probation_bps;
            &&& s.forager.pheromone == m.pheromone
            &&& s.forager.current_drawdown_bps == m.drawdown_bps
            &&& s.forager.max_drawdown_bps == if m.drawdown_bps > forager.max_drawdown_bps {
                m.drawdown_bps
            } else {
                forager.max_drawdown_bps
            }
            &&& s.forager.realized_pnl_cumulative == forager.realized_pnl_cumulative + m.realized
            &&& s.forager.realized_epochs == forager.realized_epochs + if m.realized != 0 {
                1int
            } else {
                0int
            }
            &&& forager.status == STATUS_SCOUT ==> {
                &&& s.forager.status == STATUS_SCOUT
                &&& s.forager.scout_epochs == forager.scout_epochs + 1
                &&& s.forager.scout_perf_cum_bps == forager.scout_perf_cum_bps + m.perf_bps
            }
            &&& forager.status != STATUS_SCOUT ==> s.forager.scout_epochs == forager.scout_epochs
                && s.forager.scout_perf_cum_bps == forager.scout_perf_cum_bps
            &&& forager.status == STATUS_SLASHED ==> s.forager.status == STATUS_SLASHED
            &&& on_probation ==> {
                &&& s.forager.status == STATUS_PROBATION
                &&& s.forager.probation_until_epoch == config.settling_epoch
                    + config.probation_grace_epochs
            }
            &&& (forager.status == STATUS_ACTIVE && !on_probation) || reinstated ==> {
                &&& weight < config.w_drop_bps ==> s.forager.status == STATUS_SCOUT
                    && s.outcome.demoted is Some
                &&& weight >= config.w_drop_bps ==> s.forager.status == STATUS_ACTIVE
                    && s.outcome.demoted is None
            }
            &&& reinstated ==> s.forager.probation_until_epoch == 0
            &&& s.forager.status == STATUS_ACTIVE ==> {
                &&& s.config.pheromone_sum_acc == config.pheromone_sum_acc + m.pheromone
                &&& s.config.active_count_acc == config.active_count_acc + 1
            }
            &&& s.forager.status != STATUS_ACTIVE ==> {
                &&& s.config.pheromone_sum_acc == config.pheromone_sum_acc
                &&& s.config.active_count_acc == config.active_count_acc
            }
        }),
{
}

} // verus!
