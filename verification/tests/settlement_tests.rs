use kolny_colony::constants::{
    PHASE_OPEN, PHASE_SETTLING, PHEROMONE_CEIL, STATUS_ACTIVE, STATUS_PROBATION, STATUS_RETIRED,
    STATUS_SCOUT,
};
use kolny_colony::errors::ColonyError;
use kolny_colony::events::{CacheAccrued, ForagerDemoted, LossCovered};
use kolny_colony::instructions::settlement::{
    begin_settlement, measure_forager, rescale_high_water, settle_forager,
};
use kolny_colony::math::{deposit_fp6, update_pheromone, TOP_TRAILS_LEN};
use kolny_colony::state::{
    Address, BroodVaultState, ColonyConfig, ForagerState, RiskCacheState, TrailBoard,
};

fn key(byte: u8) -> Address {
    let w = u64::from_le_bytes([byte; 8]);
    Address { w0: w, w1: w, w2: w, w3: w }
}

/// A colony in the middle of settling epoch 5 with the published parameters.
fn settling_config() -> ColonyConfig {
    let mut c = ColonyConfig::default();
    c.rho_bps = 1_600;
    c.deposit_scale_q = 1_000_000;
    c.perf_norm_s_bps = 1_000;
    c.risk_aversion_bps = 10_000;
    c.dd_probation_bps = 1_500;
    c.probation_grace_epochs = 1;
    c.cache_accrual_bps = 1_000;
    c.cache_reserve_target_bps = 400;
    c.w_max_bps = 2_000;
    c.w_drop_bps = 300;
    c.active_forager_count = 10;
    c.alloc_remaining_bps = 10_000;
    c.alloc_rest_sum = 1_000_000;
    c.epoch = 5;
    c.settling_epoch = 5;
    c.epoch_phase = PHASE_SETTLING;
    c.settleable_forager_count = 3;
    c
}

fn forager(status: u8, bond: u64, principal: u64, pheromone: u64) -> ForagerState {
    let mut f = ForagerState::default();
    f.status = status;
    f.bond = bond;
    f.principal = principal;
    f.high_water = principal;
    f.pheromone = pheromone;
    f.last_settled_epoch = 4;
    f
}

fn brood(idle: u64, outstanding: u64) -> BroodVaultState {
    let mut b = BroodVaultState::default();
    b.idle_base = idle;
    b.outstanding_principal = outstanding;
    b
}

#[test]
fn begin_settlement_opens_the_window_and_clears_the_board() {
    let mut c = settling_config();
    c.epoch_phase = PHASE_OPEN;
    c.epoch = 0;
    c.epoch_end_ts = 1_000;
    c.pheromone_sum_acc = 77;
    c.active_count_acc = 3;
    c.settled_count = 9;
    let mut board = TrailBoard::default();
    board.top[0] = 50;
    board.count = 1;
    board.bump = 3;

    let began = begin_settlement(&mut c, &mut board, 1_000).unwrap();
    // An epoch numbered 0 is lifted to 1 so that foragers can be settled.
    assert_eq!(c.epoch, 1);
    assert_eq!(c.settling_epoch, 1);
    assert_eq!(c.epoch_phase, PHASE_SETTLING);
    assert_eq!((c.pheromone_sum_acc, c.active_count_acc, c.settled_count), (0, 0, 0));
    assert_eq!(board.top, [0u64; TOP_TRAILS_LEN]);
    assert_eq!(board.count, 0);
    assert_eq!(board.bump, 3);
    assert_eq!(began.settling_epoch, 1);
    assert_eq!(began.active_forager_count, 3);
    assert_eq!(began.started_at, 1_000);
}

#[test]
fn begin_settlement_refusals() {
    let mut board = TrailBoard::default();

    let mut c = settling_config();
    assert_eq!(begin_settlement(&mut c, &mut board, 0), Err(ColonyError::WrongPhase));

    let mut c = settling_config();
    c.epoch_phase = PHASE_OPEN;
    c.epoch_end_ts = 2_000;
    let before = c;
    assert_eq!(begin_settlement(&mut c, &mut board, 1_999), Err(ColonyError::EpochNotOver));
    assert_eq!(c, before);

    let mut c = settling_config();
    c.epoch_phase = PHASE_OPEN;
    c.settleable_forager_count = 0;
    assert_eq!(begin_settlement(&mut c, &mut board, 0), Err(ColonyError::NoActiveForagers));
}

#[test]
fn rescale_high_water_follows_principal() {
    assert_eq!(rescale_high_water(11_000_000, 11_000_000, 10_900_000), 10_900_000);
    assert_eq!(rescale_high_water(2_000, 1_000, 500), 1_000);
    // From zero principal the mark starts afresh.
    assert_eq!(rescale_high_water(9_999, 0, 700), 700);
    assert_eq!(rescale_high_water(u64::MAX, 1, 2), u64::MAX);
}

#[test]
fn measurement_excludes_the_bond() {
    let c = settling_config();
    let f = forager(STATUS_SCOUT, 500_000, 10_000_000, 0);
    let m = measure_forager(&c, &f, 11_500_000);
    assert_eq!(m.equity, 11_000_000);
    assert_eq!(m.realized, 1_000_000);
    assert_eq!(m.high_water, 11_000_000);
    assert_eq!(m.drawdown_bps, 0);
    assert_eq!(m.return_bps, 1_000);
    assert_eq!(m.perf_bps, 1_000);
    assert_eq!(m.deposit_fp6, 761_594);
    assert_eq!(m.pheromone, 761_594);
}

#[test]
fn a_profitable_scout_pays_the_cache_its_cut() {
    let mut c = settling_config();
    let mut f = forager(STATUS_SCOUT, 500_000, 10_000_000, 0);
    let mut b = brood(50_000_000, 10_000_000);
    let mut cache = RiskCacheState::default();
    let mut board = TrailBoard::default();

    let out = settle_forager(&mut c, &mut f, &mut b, &mut cache, &mut board, 11_500_000, key(1))
        .unwrap();

    assert_eq!(f.principal, 10_900_000);
    assert_eq!(f.high_water, 10_900_000);
    assert_eq!(f.pheromone, 761_594);
    assert_eq!(f.realized_pnl_cumulative, 1_000_000);
    assert_eq!(f.realized_epochs, 1);
    assert_eq!(f.scout_epochs, 1);
    assert_eq!(f.scout_perf_cum_bps, 1_000);
    assert_eq!(f.last_settled_epoch, 5);
    assert_eq!(f.status, STATUS_SCOUT);

    assert_eq!(b.outstanding_principal, 10_900_000);
    assert_eq!(b.idle_base, 50_000_000);
    // Depositors gain the realized profit less the cache's cut.
    assert_eq!(b.nav(), 60_000_000 + 1_000_000 - 100_000);
    assert_eq!(cache.balance, 100_000);
    assert_eq!(cache.total_accrued, 100_000);

    assert_eq!(
        out.accrued,
        Some(CacheAccrued { epoch: 5, amount: 100_000, cache_balance: 100_000 })
    );
    assert_eq!(out.loss, None);
    assert_eq!(out.demoted, None);
    assert_eq!(out.settled.principal_after, 10_900_000);
    assert_eq!(out.settled.realized_pnl_epoch, 1_000_000);

    // A scout does not join the normalization.
    assert_eq!(c.pheromone_sum_acc, 0);
    assert_eq!(c.active_count_acc, 0);
    assert_eq!(c.settled_count, 1);
    assert_eq!(board.count, 0);
}

#[test]
fn a_full_cache_takes_no_cut() {
    let mut c = settling_config();
    let mut f = forager(STATUS_SCOUT, 500_000, 10_000_000, 0);
    let mut b = brood(50_000_000, 10_000_000);
    let mut cache = RiskCacheState::default();
    cache.balance = 10_000_000;
    let mut board = TrailBoard::default();
    let out = settle_forager(&mut c, &mut f, &mut b, &mut cache, &mut board, 11_500_000, key(1))
        .unwrap();
    assert_eq!(out.accrued, None);
    assert_eq!(f.principal, 11_000_000);
    assert_eq!(cache.balance, 10_000_000);
}

#[test]
fn a_loss_runs_the_waterfall_and_starts_probation() {
    let mut c = settling_config();
    let mut f = forager(STATUS_ACTIVE, 1_000_000, 10_000_000, 2_000_000);
    let mut b = brood(5_000_000, 10_000_000);
    let mut cache = RiskCacheState::default();
    cache.balance = 300_000;
    let mut board = TrailBoard::default();

    let out = settle_forager(&mut c, &mut f, &mut b, &mut cache, &mut board, 9_000_000, key(2))
        .unwrap();

    assert_eq!(
        out.loss,
        Some(LossCovered {
            forager: key(2),
            loss: 2_000_000,
            from_bond: 1_000_000,
            from_cache: 300_000,
            to_depositors: 700_000,
        })
    );
    assert_eq!(f.bond, 0);
    assert_eq!(f.principal, 8_000_000);
    assert_eq!(f.current_drawdown_bps, 2_000);
    assert_eq!(f.max_drawdown_bps, 2_000);
    assert_eq!(f.status, STATUS_PROBATION);
    assert_eq!(f.probation_until_epoch, 6);
    assert_eq!(cache.balance, 0);
    assert_eq!(cache.total_covered, 300_000);
    assert_eq!(b.idle_base, 6_300_000);
    assert_eq!(b.outstanding_principal, 8_000_000);
    // Depositors lose exactly what the bond and the cache could not absorb.
    assert_eq!(b.nav(), 15_000_000 - 700_000);

    let expected = update_pheromone(2_000_000, deposit_fp6(-4_000, 1_000, 1_000_000), 1_600, PHEROMONE_CEIL);
    assert_eq!(f.pheromone, expected);
    assert!(f.pheromone < 1_680_000, "a loss erodes faster than decay alone");
    assert_eq!(out.settled.perf_bps, -4_000);
    // On probation the forager is out of the normalization.
    assert_eq!(c.active_count_acc, 0);
    assert_eq!(c.settled_count, 1);
}

#[test]
fn a_recovered_forager_leaves_probation() {
    let mut c = settling_config();
    let mut f = forager(STATUS_PROBATION, 0, 1_000_000, 500_000);
    f.probation_until_epoch = 6;
    let mut b = brood(0, 1_000_000);
    let mut cache = RiskCacheState::default();
    let mut board = TrailBoard::default();
    settle_forager(&mut c, &mut f, &mut b, &mut cache, &mut board, 1_000_000, key(3)).unwrap();
    assert_eq!(f.status, STATUS_ACTIVE);
    assert_eq!(f.probation_until_epoch, 0);
    assert_eq!(c.active_count_acc, 1);
}

#[test]
fn a_decayed_trail_is_demoted() {
    let mut c = settling_config();
    let mut f = forager(STATUS_ACTIVE, 0, 1_000_000, 100);
    let mut b = brood(0, 1_000_000);
    let mut cache = RiskCacheState::default();
    let mut board = TrailBoard::default();
    let out = settle_forager(&mut c, &mut f, &mut b, &mut cache, &mut board, 1_000_000, key(4))
        .unwrap();
    assert_eq!(f.pheromone, 84);
    assert_eq!(f.status, STATUS_SCOUT);
    assert_eq!(
        out.demoted,
        Some(ForagerDemoted { forager: key(4), epoch: 5, weight_bps: 0, returned_principal: 0 })
    );
    assert_eq!(c.active_count_acc, 0);
    assert_eq!(c.pheromone_sum_acc, 0);
    assert_eq!(board.count, 0);
}

#[test]
fn an_active_trail_joins_the_accumulators_and_the_board() {
    let mut c = settling_config();
    let mut f = forager(STATUS_ACTIVE, 0, 1_000_000, 500_000);
    let mut b = brood(0, 1_000_000);
    let mut cache = RiskCacheState::default();
    let mut board = TrailBoard::default();
    let out = settle_forager(&mut c, &mut f, &mut b, &mut cache, &mut board, 1_000_000, key(5))
        .unwrap();
    assert_eq!(out.settled.pheromone, 420_000);
    assert_eq!(out.demoted, None);
    assert_eq!(c.pheromone_sum_acc, 420_000);
    assert_eq!(c.active_count_acc, 1);
    assert_eq!(board.top[0], 420_000);
    assert_eq!(board.count, 1);
}

#[test]
fn a_forager_is_settled_once_per_epoch() {
    let mut c = settling_config();
    let mut f = forager(STATUS_ACTIVE, 0, 1_000_000, 500_000);
    let mut b = brood(0, 1_000_000);
    let mut cache = RiskCacheState::default();
    let mut board = TrailBoard::default();
    settle_forager(&mut c, &mut f, &mut b, &mut cache, &mut board, 1_000_000, key(5)).unwrap();
    let (c1, f1, b1, cache1, board1) = (c, f, b, cache, board);
    assert_eq!(
        settle_forager(&mut c, &mut f, &mut b, &mut cache, &mut board, 9_000_000, key(5)),
        Err(ColonyError::AlreadySettledThisEpoch)
    );
    assert_eq!((c, f, b, cache, board), (c1, f1, b1, cache1, board1));
    assert_eq!(c.settled_count, 1);
}

#[test]
fn settle_forager_refusals() {
    let mut b = brood(0, 0);
    let mut cache = RiskCacheState::default();
    let mut board = TrailBoard::default();

    let mut c = settling_config();
    c.epoch_phase = PHASE_OPEN;
    let mut f = forager(STATUS_ACTIVE, 0, 0, 0);
    assert_eq!(
        settle_forager(&mut c, &mut f, &mut b, &mut cache, &mut board, 0, key(1)),
        Err(ColonyError::NotSettling)
    );

    let mut c = settling_config();
    let mut f = forager(STATUS_RETIRED, 0, 0, 0);
    assert_eq!(
        settle_forager(&mut c, &mut f, &mut b, &mut cache, &mut board, 0, key(1)),
        Err(ColonyError::ForagerInactive)
    );

    let mut c = settling_config();
    c.settled_count = u32::MAX;
    let mut f = forager(STATUS_ACTIVE, 0, 0, 0);
    let before = f;
    assert_eq!(
        settle_forager(&mut c, &mut f, &mut b, &mut cache, &mut board, 0, key(1)),
        Err(ColonyError::Overflow)
    );
    assert_eq!(f, before);
}

#[test]
fn settlement_order_does_not_move_the_accumulators() {
    let run = |first: bool| {
        let mut c = settling_config();
        let mut b = brood(1_000_000, 3_000_000);
        let mut cache = RiskCacheState::default();
        let mut board = TrailBoard::default();
        let mut x = forager(STATUS_ACTIVE, 0, 1_000_000, 500_000);
        let mut y = forager(STATUS_ACTIVE, 100_000, 2_000_000, 900_000);
        if first {
            settle_forager(&mut c, &mut x, &mut b, &mut cache, &mut board, 1_200_000, key(1)).unwrap();
            settle_forager(&mut c, &mut y, &mut b, &mut cache, &mut board, 2_200_000, key(2)).unwrap();
        } else {
            settle_forager(&mut c, &mut y, &mut b, &mut cache, &mut board, 2_200_000, key(2)).unwrap();
            settle_forager(&mut c, &mut x, &mut b, &mut cache, &mut board, 1_200_000, key(1)).unwrap();
        }
        (c, board)
    };
    let (c1, board1) = run(true);
    let (c2, board2) = run(false);
    assert_eq!(c1, c2);
    assert_eq!(board1, board2);
    assert_eq!(c1.active_count_acc, 2);
    assert_eq!(c1.settled_count, 2);
}

#[test]
fn the_admission_fields_never_reach_a_settlement() {
    let run = |burn: u64, total: u64, mint: Address| {
        let mut c = settling_config();
        c.admission_burn_amount = burn;
        c.total_kolny_burned = total;
        c.kolny_mint = mint;
        let mut f = forager(STATUS_ACTIVE, 1_000_000, 10_000_000, 2_000_000);
        let mut b = brood(5_000_000, 10_000_000);
        let mut cache = RiskCacheState::default();
        cache.balance = 300_000;
        let mut board = TrailBoard::default();
        let out = settle_forager(&mut c, &mut f, &mut b, &mut cache, &mut board, 12_000_000, key(9))
            .unwrap();
        (out, f, b, cache, board, c.pheromone_sum_acc, c.active_count_acc)
    };
    let baseline = run(100_000_000_000, 0, Address::zero());
    for (burn, total, mint) in [
        (10_000_000_000u64, 1u64, key(9)),
        (1_000_000_000_000, u64::MAX / 2, key(255)),
    ] {
        assert_eq!(run(burn, total, mint), baseline);
    }
}
