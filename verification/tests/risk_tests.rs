use kolny_colony::constants::{
    PHASE_OPEN, PHASE_SETTLING, SLASH_REASON_LOSS_THRESHOLD, SLASH_REASON_NON_RESPONSE,
    SLASH_REASON_RULE_VIOLATION, STATUS_ACTIVE, STATUS_RETIRED, STATUS_SCOUT, STATUS_SLASHED,
};
use kolny_colony::errors::ColonyError;
use kolny_colony::instructions::risk::{fund_scout, punitive_slash_bps, slash_forager};
use kolny_colony::math::realized_epoch_pnl;
use kolny_colony::state::{Address, BroodVaultState, ColonyConfig, ForagerState, RiskCacheState};

fn key(byte: u8) -> Address {
    let w = u64::from_le_bytes([byte; 8]);
    Address { w0: w, w1: w, w2: w, w3: w }
}

fn open_config() -> ColonyConfig {
    let mut c = ColonyConfig::default();
    c.authority = key(1);
    c.epoch = 7;
    c.epoch_phase = PHASE_OPEN;
    c.scout_ticket_base_units = 1_000_000;
    c.scout_pool = 5_000_000;
    c.min_bond = 400;
    c.dd_slash_bps = 3_000;
    c.slash_burn_bps = 5_000;
    c.nonresponse_timeout_epochs = 2;
    c.epoch_duration_secs = 604_800;
    c
}

fn scout() -> ForagerState {
    let mut f = ForagerState::default();
    f.status = STATUS_SCOUT;
    f.last_scout_epoch = 6;
    f.bond = 1_000;
    f.operator = key(8);
    f
}

fn vault() -> BroodVaultState {
    let mut b = BroodVaultState::default();
    b.idle_base = 3_000_000;
    b.outstanding_principal = 2_000_000;
    b
}

#[test]
fn a_scout_ticket_moves_capital_without_moving_nav() {
    let mut c = open_config();
    let mut b = vault();
    let mut f = scout();
    let nav_before = b.nav();
    let ev = fund_scout(&mut c, &mut b, &mut f, key(3)).unwrap();
    assert_eq!(b.nav(), nav_before);
    assert_eq!(b.idle_base, 2_000_000);
    assert_eq!(b.outstanding_principal, 3_000_000);
    assert_eq!(c.scout_pool, 4_000_000);
    assert_eq!(f.principal, 1_000_000);
    assert_eq!(f.last_scout_epoch, 7);
    assert_eq!(ev.ticket, 1_000_000);
    assert_eq!(ev.epoch, 7);
    assert_eq!(ev.scout_pool_remaining, 4_000_000);
    assert_eq!(ev.forager, key(3));

    // One ticket per scout per epoch.
    assert_eq!(
        fund_scout(&mut c, &mut b, &mut f, key(3)),
        Err(ColonyError::ScoutTicketAlreadyDrawn)
    );
    assert_eq!(c.scout_pool, 4_000_000);
}

#[test]
fn fund_scout_refusals() {
    let cases: [(fn(&mut ColonyConfig, &mut BroodVaultState, &mut ForagerState), ColonyError); 6] = [
        (|c, _, _| c.epoch_phase = PHASE_SETTLING, ColonyError::WrongPhase),
        (|c, _, _| c.paused = true, ColonyError::Paused),
        (|_, _, f| f.status = STATUS_ACTIVE, ColonyError::ForagerNotScout),
        (|c, _, _| c.scout_pool = 999_999, ColonyError::ScoutPoolExhausted),
        (|_, b, _| b.idle_base = 999_999, ColonyError::InsufficientIdleLiquidity),
        (|_, _, f| f.principal = u64::MAX, ColonyError::Overflow),
    ];
    for (mutate, expected) in cases {
        let mut c = open_config();
        let mut b = vault();
        let mut f = scout();
        mutate(&mut c, &mut b, &mut f);
        let (c0, b0, f0) = (c, b, f);
        assert_eq!(fund_scout(&mut c, &mut b, &mut f, key(3)), Err(expected));
        assert_eq!((c, b, f), (c0, b0, f0));
    }
    let mut c = open_config();
    c.scout_ticket_base_units = 0;
    assert_eq!(
        fund_scout(&mut c, &mut vault(), &mut scout(), key(3)),
        Err(ColonyError::ScoutPoolExhausted)
    );
}

#[test]
fn punitive_slash_follows_the_reason() {
    assert_eq!(punitive_slash_bps(SLASH_REASON_LOSS_THRESHOLD, 4_500, 3_000, 0, 0), Ok(5_000));
    assert_eq!(
        punitive_slash_bps(SLASH_REASON_LOSS_THRESHOLD, 3_000, 3_000, 0, 0),
        Err(ColonyError::NotSlashable)
    );
    assert_eq!(punitive_slash_bps(SLASH_REASON_RULE_VIOLATION, 0, 3_000, 0, 0), Ok(10_000));
    assert_eq!(punitive_slash_bps(SLASH_REASON_NON_RESPONSE, 0, 3_000, 101, 100), Ok(10_000));
    assert_eq!(
        punitive_slash_bps(SLASH_REASON_NON_RESPONSE, 0, 3_000, 100, 100),
        Err(ColonyError::NotSlashable)
    );
    assert_eq!(punitive_slash_bps(3, 9_000, 3_000, 1_000, 0), Err(ColonyError::NotSlashable));
}

#[test]
fn a_loss_threshold_slash_seizes_a_graduated_share() {
    let c = open_config();
    let mut f = scout();
    f.status = STATUS_ACTIVE;
    f.current_drawdown_bps = 4_500;
    let mut cache = RiskCacheState::default();
    cache.balance = 10;
    let ev = slash_forager(&c, &mut f, &mut cache, key(1), key(4), 0, SLASH_REASON_LOSS_THRESHOLD)
        .unwrap();
    assert_eq!(ev.slashed, 500);
    assert_eq!(ev.burned, 250);
    assert_eq!(ev.to_cache, 250);
    assert_eq!(ev.bond_after, 500);
    assert_eq!(ev.slash_count, 1);
    assert_eq!(ev.operator, key(8));
    assert_eq!(f.bond, 500);
    // 500 still clears min_bond 400: back to the Scout Sandbox.
    assert_eq!(f.status, STATUS_SCOUT);
    assert_eq!(cache.balance, 260);
    assert_eq!(cache.total_burned, 250);
}

#[test]
fn an_integrity_slash_takes_the_bond_and_marks_the_forager() {
    let c = open_config();
    let mut f = scout();
    let mut cache = RiskCacheState::default();
    let ev = slash_forager(&c, &mut f, &mut cache, key(1), key(4), 0, SLASH_REASON_RULE_VIOLATION)
        .unwrap();
    assert_eq!(ev.slashed, 1_000);
    assert_eq!(f.bond, 0);
    assert_eq!(f.status, STATUS_SLASHED);
    assert_eq!(cache.balance + cache.total_burned, 1_000);
}

#[test]
fn silence_is_measured_against_the_heartbeat() {
    let c = open_config();
    let limit = 2 * 604_800;
    let mut f = scout();
    f.last_heartbeat_ts = 1_000;
    let mut cache = RiskCacheState::default();
    assert_eq!(
        slash_forager(&c, &mut f, &mut cache, key(1), key(4), 1_000 + limit, SLASH_REASON_NON_RESPONSE),
        Err(ColonyError::NotSlashable)
    );
    assert!(slash_forager(
        &c,
        &mut f,
        &mut cache,
        key(1),
        key(4),
        1_000 + limit + 1,
        SLASH_REASON_NON_RESPONSE
    )
    .is_ok());
}

#[test]
fn slash_forager_refusals() {
    let c = open_config();
    let mut cache = RiskCacheState::default();
    let mut f = scout();
    assert_eq!(
        slash_forager(&c, &mut f, &mut cache, key(2), key(4), 0, SLASH_REASON_RULE_VIOLATION),
        Err(ColonyError::NotAuthority)
    );
    f.status = STATUS_RETIRED;
    assert_eq!(
        slash_forager(&c, &mut f, &mut cache, key(1), key(4), 0, SLASH_REASON_RULE_VIOLATION),
        Err(ColonyError::ForagerInactive)
    );
    let mut f = scout();
    f.slash_count = u16::MAX;
    let before = f;
    assert_eq!(
        slash_forager(&c, &mut f, &mut cache, key(1), key(4), 0, SLASH_REASON_RULE_VIOLATION),
        Err(ColonyError::Overflow)
    );
    assert_eq!(f, before);
}

#[test]
fn a_slash_leaves_the_realized_figure_unchanged() {
    let before = realized_epoch_pnl(12_000, 1_000, 10_000);
    // A full integrity slash takes the bond out of the balance and the record.
    let after = realized_epoch_pnl(11_000, 0, 10_000);
    assert_eq!(before, after);
    assert_eq!(before, 1_000);
}
