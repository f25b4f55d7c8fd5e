use kolny_colony::constants::{
    DEFAULT_ADMISSION_BURN_BASE_UNITS, DEFAULT_EPOCH_DURATION_SECS, KOLNY_DECIMALS, MINIMUM_DEPOSIT, PHASE_OPEN, PHASE_SETTLING,
    STATUS_SCOUT,
};
use kolny_colony::errors::ColonyError;
use kolny_colony::instructions::admin::{
    accept_authority, initialize_brood, initialize_colony, propose_authority, set_kolny_mint,
    set_paused, update_config,
    ConfigPatch, InitColonyParams,
};
use kolny_colony::instructions::forager::{open_forager_vault, register_forager};
use kolny_colony::instructions::vault::{deposit, request_redemption, withdraw};
use kolny_colony::state::{Address, BroodVaultState, ColonyConfig, DepositorPosition};

fn key(byte: u8) -> Address {
    let w = u64::from_le_bytes([byte; 8]);
    Address { w0: w, w1: w, w2: w, w3: w }
}

fn colony() -> ColonyConfig {
    let mut c = ColonyConfig::default();
    c.authority = key(1);
    c.base_mint = key(2);
    c.epoch = 3;
    c.epoch_phase = PHASE_OPEN;
    c
}

fn brood() -> BroodVaultState {
    let mut b = BroodVaultState::default();
    b.base_mint = key(2);
    b
}

#[test]
fn deposit_then_withdraw_conserves_shares_and_never_pays_more() {
    let c = colony();
    let mut b = brood();
    let mut p = DepositorPosition::default();
    let d = deposit(&c, &mut b, &mut p, key(5), key(2), 9, 1_000_000).unwrap();
    assert_eq!(d.shares, 1_000_000_000_000);
    assert_eq!(d.nav_after, 1_000_000);
    assert_eq!(p.shares, d.shares);
    assert_eq!(p.owner, key(5));
    assert_eq!(b.total_shares, d.shares);

    let w = withdraw(&mut b, &mut p, key(5), key(2), d.shares).unwrap();
    assert!(w.assets <= 1_000_000);
    assert_eq!(p.shares, 0);
    assert_eq!(b.total_shares, 0);
    assert_eq!(b.idle_base, 1_000_000 - w.assets);
}

#[test]
fn deposit_refusals() {
    let mut c = colony();
    let mut b = brood();
    let mut p = DepositorPosition::default();
    assert_eq!(
        deposit(&c, &mut b, &mut p, key(5), key(3), 0, 1_000_000),
        Err(ColonyError::BaseMintMismatch)
    );
    assert_eq!(
        deposit(&c, &mut b, &mut p, key(5), key(2), 0, MINIMUM_DEPOSIT - 1),
        Err(ColonyError::BelowMinimumDeposit)
    );
    c.paused = true;
    assert_eq!(
        deposit(&c, &mut b, &mut p, key(5), key(2), 0, 1_000_000),
        Err(ColonyError::Paused)
    );
    assert_eq!(b, brood());
}

#[test]
fn a_withdrawal_beyond_idle_liquidity_is_refused() {
    let mut b = brood();
    b.idle_base = 10;
    b.outstanding_principal = 1_000_000;
    b.total_shares = 1_000_000;
    let mut p = DepositorPosition { owner: key(5), shares: 1_000_000, bump: 0 };
    assert_eq!(
        withdraw(&mut b, &mut p, key(5), key(2), 1_000_000),
        Err(ColonyError::InsufficientIdleLiquidity)
    );
    assert_eq!(withdraw(&mut b, &mut p, key(5), key(2), 0), Err(ColonyError::ZeroAmount));
    assert_eq!(
        withdraw(&mut b, &mut p, key(5), key(2), 2_000_000),
        Err(ColonyError::InsufficientShares)
    );
}

#[test]
fn a_redemption_request_moves_shares_into_the_queue() {
    let c = colony();
    let mut b = brood();
    b.total_shares = 500;
    b.next_redemption_id = 41;
    let mut p = DepositorPosition { owner: key(5), shares: 500, bump: 0 };
    let (req, ev) = request_redemption(&c, &mut b, &mut p, key(5), 4, 200).unwrap();
    assert_eq!(req.request_id, 41);
    assert_eq!(req.shares, 200);
    assert_eq!(req.requested_epoch, 3);
    assert_eq!(req.assets_paid, 0);
    assert_eq!(ev.request_id, 41);
    assert_eq!(p.shares, 300);
    assert_eq!(b.pending_redemption_shares, 200);
    assert_eq!(b.next_redemption_id, 42);
    // Shares are queued, not burned: the total is unchanged.
    assert_eq!(b.total_shares, 500);
    assert_eq!(b.total_shares - b.pending_redemption_shares, p.shares);
}

#[test]
fn registration_burns_the_admission_and_creates_a_scout() {
    let mut c = colony();
    c.kolny_mint = key(6);
    c.admission_burn_amount = DEFAULT_ADMISSION_BURN_BASE_UNITS;
    c.total_kolny_burned = 5;
    let (mut f, ev, burned) =
        register_forager(&mut c, key(7), key(8), 11, [3u8; 32], 1_234, 6).unwrap();
    assert_eq!(f.status, STATUS_SCOUT);
    assert_eq!(f.operator, key(7));
    assert_eq!(f.forager_id, 11);
    assert_eq!(f.registered_epoch, 3);
    assert_eq!(f.last_heartbeat_ts, 1_234);
    assert_eq!(f.strategy_meta, [3u8; 32]);
    assert_eq!((f.bond, f.principal, f.pheromone), (0, 0, 0));
    assert_eq!(ev.bond, 0);
    assert_eq!(burned.amount, DEFAULT_ADMISSION_BURN_BASE_UNITS);
    assert_eq!(burned.kolny_mint, key(6));
    assert_eq!(burned.operator, key(7));
    assert_eq!(burned.total_burned, DEFAULT_ADMISSION_BURN_BASE_UNITS + 5);
    assert_eq!(c.total_kolny_burned, DEFAULT_ADMISSION_BURN_BASE_UNITS + 5);
    assert_eq!(c.settleable_forager_count, 0);

    let opened = open_forager_vault(&mut c, &mut f, key(2), key(8), key(9), 5).unwrap();
    assert_eq!(opened.forager_vault, key(9));
    assert_eq!(f.forager_vault, key(9));
    assert_eq!(f.last_settled_epoch, 2);
    assert_eq!(c.settleable_forager_count, 1);

    c.epoch_phase = PHASE_SETTLING;
    assert_eq!(
        register_forager(&mut c, key(7), key(8), 12, [0u8; 32], 0, 0).map(|_| ()),
        Err(ColonyError::RegistrationFrozenDuringSettlement)
    );
}

#[test]
fn registration_is_never_free() {
    let mut c = colony();
    c.admission_burn_amount = DEFAULT_ADMISSION_BURN_BASE_UNITS;
    assert_eq!(
        register_forager(&mut c, key(7), key(8), 1, [0u8; 32], 0, 0).map(|_| ()),
        Err(ColonyError::KolnyMintNotSet)
    );
    c.kolny_mint = key(6);
    c.admission_burn_amount = 0;
    assert_eq!(
        register_forager(&mut c, key(7), key(8), 1, [0u8; 32], 0, 0).map(|_| ()),
        Err(ColonyError::ZeroAmount)
    );
    c.admission_burn_amount = 10;
    c.total_kolny_burned = u64::MAX - 9;
    let before = c;
    assert_eq!(
        register_forager(&mut c, key(7), key(8), 1, [0u8; 32], 0, 0).map(|_| ()),
        Err(ColonyError::Overflow)
    );
    assert_eq!(c, before);
    c.paused = true;
    assert_eq!(
        register_forager(&mut c, key(7), key(8), 1, [0u8; 32], 0, 0).map(|_| ()),
        Err(ColonyError::Paused)
    );
}

#[test]
fn authority_handover_takes_two_signatures() {
    let mut c = colony();
    assert_eq!(propose_authority(&mut c, key(9), key(4)).map(|_| ()), Err(ColonyError::NotAuthority));
    propose_authority(&mut c, key(1), key(4)).unwrap();
    assert_eq!(c.authority, key(1));
    assert_eq!(c.pending_authority, key(4));
    assert_eq!(accept_authority(&mut c, key(5)).map(|_| ()), Err(ColonyError::NotAuthority));
    accept_authority(&mut c, key(4)).unwrap();
    assert_eq!(c.authority, key(4));
    assert_eq!(c.pending_authority, Address::zero());
}

#[test]
fn pausing_is_authority_only() {
    let mut c = colony();
    assert_eq!(set_paused(&mut c, key(9), true).map(|_| ()), Err(ColonyError::NotAuthority));
    set_paused(&mut c, key(1), true).unwrap();
    assert!(c.paused);
}

#[test]
fn the_admission_mint_is_set_once_and_only_if_final() {
    let mut c = colony();
    assert_eq!(
        set_kolny_mint(&mut c, key(1), key(6), 9, true, true).map(|_| ()),
        Err(ColonyError::KolnyMintDecimalsMismatch)
    );
    assert_eq!(
        set_kolny_mint(&mut c, key(1), key(6), KOLNY_DECIMALS, false, true).map(|_| ()),
        Err(ColonyError::KolnyMintAuthorityNotRevoked)
    );
    assert_eq!(
        set_kolny_mint(&mut c, key(1), key(6), KOLNY_DECIMALS, true, false).map(|_| ()),
        Err(ColonyError::KolnyMintFreezeAuthorityNotRevoked)
    );
    set_kolny_mint(&mut c, key(1), key(6), KOLNY_DECIMALS, true, true).unwrap();
    assert_eq!(c.kolny_mint, key(6));
    assert_eq!(
        set_kolny_mint(&mut c, key(1), key(7), KOLNY_DECIMALS, true, true).map(|_| ()),
        Err(ColonyError::KolnyMintAlreadySet)
    );
    assert_eq!(c.kolny_mint, key(6));
}

#[test]
fn the_brood_is_created_in_the_base_mint() {
    let c = colony();
    assert_eq!(initialize_brood(&c, key(9), 1), Err(ColonyError::NotAuthority));
    let b = initialize_brood(&c, key(1), 1).unwrap();
    assert_eq!(b.base_mint, key(2));
    assert_eq!(b.total_shares, 0);
    assert_eq!(b.bump, 1);
}

#[test]
fn a_parameter_snapshot_round_trips() {
    let mut c = colony();
    c.epoch_duration_secs = DEFAULT_EPOCH_DURATION_SECS;
    c.rho_bps = 1_234;
    c.admission_burn_amount = 42;
    let p = InitColonyParams::from_config(&c);
    let mut d = c;
    d.rho_bps = 1;
    p.store_into(&mut d);
    assert_eq!(d, c);
    let mut q = p;
    ConfigPatch {
        epoch_duration_secs: None,
        rho_bps: None,
        deposit_scale_q: None,
        perf_norm_s_bps: None,
        risk_aversion_bps: None,
        w_max_bps: None,
        w_drop_bps: None,
        scout_budget_bps: None,
        reband_band_bps: None,
        turnover_cap_bps: None,
        promote_min_epochs: None,
        promote_min_realized_epochs: None,
        promote_perf_bar_bps: None,
        scout_ticket_base_units: None,
        promote_tau_seed_cap: None,
        min_bond: None,
        bond_ratio_bps: None,
        bond_haircut_bps: None,
        dd_probation_bps: None,
        dd_slash_bps: None,
        epoch_loss_limit_bps: None,
        probation_grace_epochs: None,
        nonresponse_timeout_epochs: None,
        slash_burn_bps: None,
        max_single_asset_bps: None,
        cache_accrual_bps: None,
        cache_reserve_target_bps: None,
        admission_burn_amount: None,
    }
    .overlay(&mut q);
    assert_eq!(q, p);
}

#[test]
fn accepting_with_nobody_nominated_is_refused() {
    let mut c = colony();
    assert_eq!(
        accept_authority(&mut c, key(1)).map(|_| ()),
        Err(ColonyError::NoPendingAuthority)
    );
}

#[test]
fn genesis_and_patches_go_through_the_range_gate() {
    let mut c = colony();
    c.epoch_duration_secs = DEFAULT_EPOCH_DURATION_SECS;
    let mut p = InitColonyParams::from_config(&c);
    p.rho_bps = 0;
    assert_eq!(
        initialize_colony(key(1), key(2), 0, 0, p).map(|_| ()),
        Err(ColonyError::ParamOutOfRange)
    );
    let mut patch = update_patch();
    patch.rho_bps = Some(0);
    let before = c;
    assert_eq!(update_config(&mut c, key(1), patch).map(|_| ()), Err(ColonyError::ParamOutOfRange));
    assert_eq!(c, before);
    assert_eq!(update_config(&mut c, key(9), update_patch()).map(|_| ()), Err(ColonyError::NotAuthority));
}

#[test]
fn genesis_opens_epoch_one() {
    let (c, ev) = initialize_colony(key(1), key(2), 100, 7, valid_params()).unwrap();
    assert_eq!(c.epoch, 1);
    assert_eq!(c.epoch_phase, PHASE_OPEN);
    assert_eq!(c.epoch_end_ts, 100 + DEFAULT_EPOCH_DURATION_SECS);
    assert_eq!(c.alloc_remaining_bps, 10_000);
    assert_eq!(c.kolny_mint, Address::zero());
    assert_eq!(c.bump, 7);
    assert_eq!(ev.epoch_end_ts, 100 + DEFAULT_EPOCH_DURATION_SECS);
    assert_eq!(ev.authority, key(1));
}

fn valid_params() -> InitColonyParams {
    InitColonyParams {
        epoch_duration_secs: DEFAULT_EPOCH_DURATION_SECS,
        rho_bps: 1_600,
        deposit_scale_q: 1_000_000,
        perf_norm_s_bps: 1_000,
        risk_aversion_bps: 10_000,
        w_max_bps: 2_000,
        w_drop_bps: 300,
        scout_budget_bps: 1_000,
        reband_band_bps: 200,
        turnover_cap_bps: 2_500,
        promote_min_epochs: 4,
        promote_min_realized_epochs: 3,
        promote_perf_bar_bps: 0,
        scout_ticket_base_units: 1_000_000,
        promote_tau_seed_cap: 1_000_000,
        min_bond: 1_000_000,
        bond_ratio_bps: 1_000,
        bond_haircut_bps: 3_000,
        dd_probation_bps: 1_500,
        dd_slash_bps: 3_000,
        epoch_loss_limit_bps: 1_000,
        probation_grace_epochs: 1,
        nonresponse_timeout_epochs: 2,
        slash_burn_bps: 5_000,
        max_single_asset_bps: 4_000,
        cache_accrual_bps: 1_000,
        cache_reserve_target_bps: 400,
        admission_burn_amount: 100_000_000_000,
    }
}

fn update_patch() -> ConfigPatch {
    ConfigPatch {
        epoch_duration_secs: None,
        rho_bps: None,
        deposit_scale_q: None,
        perf_norm_s_bps: None,
        risk_aversion_bps: None,
        w_max_bps: None,
        w_drop_bps: None,
        scout_budget_bps: None,
        reband_band_bps: None,
        turnover_cap_bps: None,
        promote_min_epochs: None,
        promote_min_realized_epochs: None,
        promote_perf_bar_bps: None,
        scout_ticket_base_units: None,
        promote_tau_seed_cap: None,
        min_bond: None,
        bond_ratio_bps: None,
        bond_haircut_bps: None,
        dd_probation_bps: None,
        dd_slash_bps: None,
        epoch_loss_limit_bps: None,
        probation_grace_epochs: None,
        nonresponse_timeout_epochs: None,
        slash_burn_bps: None,
        max_single_asset_bps: None,
        cache_accrual_bps: None,
        cache_reserve_target_bps: None,
        admission_burn_amount: None,
    }
}
