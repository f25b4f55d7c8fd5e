use kolny_colony::math::{
    alloc_divisor_of, allocation_target, apply_turnover_cap, assets_for_shares, cache_accrual,
    cover_loss, deposit_fp6, effective_max_weight_bps, evaporate, loss_slash_bps,
    realized_epoch_pnl, return_bps, risk_adjusted_perf_bps, shares_for_deposit, slash_split,
    solve_cap_level, tanh_fp6, top_insert, update_pheromone, weight_bps_from_level,
    within_no_trade_band, LossOutcome, SlashOutcome, BPS_DENOM, TOP_TRAILS_LEN,
};

// -- tanh ---------------------------------------------------------------

#[test]
fn tanh_is_odd_and_bounded() {
    assert_eq!(tanh_fp6(0), 0);
    assert_eq!(tanh_fp6(-500_000), -tanh_fp6(500_000));
    assert_eq!(tanh_fp6(-3_000_000), -tanh_fp6(3_000_000));
    assert!(tanh_fp6(50_000_000) < 1_000_000);
    assert!(tanh_fp6(-50_000_000) > -1_000_000);
}

#[test]
fn tanh_matches_reference_points() {
    assert_eq!(tanh_fp6(200_000), 197_375);
    assert_eq!(tanh_fp6(300_000), 291_313);
    assert_eq!(tanh_fp6(500_000), 462_117);
    assert_eq!(tanh_fp6(700_000), 604_368);
    assert_eq!(tanh_fp6(1_000_000), 761_594);
    assert_eq!(tanh_fp6(1_200_000), 833_655);
    assert_eq!(tanh_fp6(1_500_000), 905_148);
    assert_eq!(tanh_fp6(2_000_000), 964_028);
    assert_eq!(tanh_fp6(3_000_000), 995_055);
}

#[test]
fn tanh_reproduces_the_specification_deposit_table() {
    let q = 1_000_000u64;
    let s = 1_000u16;
    for (perf_bps, expected_3dp) in [
        (1_500i64, 905_000i64),
        (1_200, 834_000),
        (1_000, 762_000),
        (500, 462_000),
        (200, 197_000),
        (300, 291_000),
        (-500, -462_000),
        (-1_000, -762_000),
        (-800, -664_000),
        (700, 604_000),
    ] {
        let d = deposit_fp6(perf_bps, s, q);
        let rounded = if d >= 0 {
            (d + 500) / 1_000 * 1_000
        } else {
            -((-d + 500) / 1_000 * 1_000)
        };
        assert_eq!(
            rounded, expected_3dp,
            "perf {} bps produced {} which rounds to {}, specification prints {}",
            perf_bps, d, rounded, expected_3dp
        );
    }
}

#[test]
fn tanh_is_monotone() {
    let mut prev = tanh_fp6(-5_000_000);
    let mut x = -5_000_000i64;
    while x <= 5_000_000 {
        let y = tanh_fp6(x);
        assert!(y >= prev, "tanh not monotone at {}", x);
        prev = y;
        x += 37_000;
    }
}

// -- realized PnL: the bond is excluded ------------------------------------

#[test]
fn realized_pnl_excludes_bond() {
    assert_eq!(realized_epoch_pnl(1_700, 500, 1_000), 200);
    assert_eq!(realized_epoch_pnl(1_500, 500, 1_000), 0);
    assert_eq!(realized_epoch_pnl(1_900, 900, 1_000), 0);
    assert_eq!(realized_epoch_pnl(1_200, 500, 1_000), -300);
    assert_eq!(realized_epoch_pnl(500, 500, 1_000), -1_000);
}

#[test]
fn realized_pnl_forgetting_bond_would_be_exploitable() {
    let small_bond = realized_epoch_pnl(1_100, 100, 1_000);
    let large_bond = realized_epoch_pnl(9_000, 8_000, 1_000);
    assert_eq!(small_bond, 0);
    assert_eq!(large_bond, 0);
    assert_eq!(small_bond, large_bond);
}

#[test]
fn return_bps_is_signed_and_safe() {
    assert_eq!(return_bps(100, 1_000), 1_000);
    assert_eq!(return_bps(-250, 1_000), -2_500);
    assert_eq!(return_bps(500, 0), 0);
}

#[test]
fn risk_adjustment_penalizes_drawdown() {
    assert_eq!(risk_adjusted_perf_bps(2_000, 1_000, 10_000), 1_000);
    assert_eq!(risk_adjusted_perf_bps(2_000, 1_000, 0), 2_000);
    assert!(risk_adjusted_perf_bps(500, 3_000, 10_000) < 0);
}

// -- evaporation / decay ------------------------------------------------

#[test]
fn evaporate_applies_geometric_decay() {
    assert_eq!(evaporate(1_000_000, 5_000), 500_000);
    assert_eq!(evaporate(0, 5_000), 0);
    assert_eq!(evaporate(1_000_000, 10_000), 0);
    assert_eq!(evaporate(1_000_000, 1_600), 840_000);
}

#[test]
fn decay_half_life_matches_spec() {
    let mut tau = 1_000_000u64;
    for _ in 0..4 {
        tau = evaporate(tau, 1_600);
    }
    assert_eq!(tau, 497_871);
    assert!(tau < 500_000 && tau > 490_000);
}

#[test]
fn unreplenished_trail_decays_toward_zero() {
    let mut tau = 1_000_000u64;
    for _ in 0..13 {
        tau = evaporate(tau, 1_600);
    }
    assert!(tau < 110_000 && tau > 90_000, "tau was {}", tau);
}

// -- deposit transform --------------------------------------------------

#[test]
fn deposit_is_bounded_by_q() {
    let q = 1_000_000u64;
    let huge = deposit_fp6(1_000_000, 1_000, q);
    assert!(huge < q as i64, "deposit {} must stay under Q", huge);
    assert!(huge > 990_000);
    let huge_neg = deposit_fp6(-1_000_000, 1_000, q);
    assert!(huge_neg > -(q as i64));
    assert_eq!(huge_neg, -huge);
}

#[test]
fn deposit_is_sign_preserving() {
    let q = 1_000_000u64;
    assert!(deposit_fp6(500, 1_000, q) > 0);
    assert_eq!(deposit_fp6(0, 1_000, q), 0);
    assert!(deposit_fp6(-500, 1_000, q) < 0);
}

#[test]
fn deposit_saturation_matches_spec_points() {
    let q = 1_000_000u64;
    assert_eq!(deposit_fp6(1_000, 1_000, q), 761_594);
    assert_eq!(deposit_fp6(2_000, 1_000, q), 964_028);
}

// -- pheromone update ---------------------------------------------------

#[test]
fn update_pheromone_evaporates_then_deposits() {
    let ceil = 1_000_000_000_000u64;
    let tau = update_pheromone(1_000_000, 905_000, 2_000, ceil);
    assert_eq!(tau, 1_705_000);
}

#[test]
fn losing_epoch_erodes_trail_faster_than_decay() {
    let ceil = 1_000_000_000_000u64;
    let decay_only = update_pheromone(1_000_000, 0, 2_000, ceil);
    let with_loss = update_pheromone(1_000_000, -462_000, 2_000, ceil);
    assert_eq!(decay_only, 800_000);
    assert_eq!(with_loss, 338_000);
    assert!(with_loss < decay_only);
}

#[test]
fn pheromone_floors_at_zero_and_never_goes_negative() {
    let ceil = 1_000_000_000_000u64;
    let tau = update_pheromone(338_000, -762_000, 2_000, ceil);
    assert_eq!(tau, 0);
    assert_eq!(update_pheromone(0, -1_000_000, 2_000, ceil), 0);
}

#[test]
fn pheromone_clamps_to_ceiling() {
    let ceil = 1_000_000u64;
    let tau = update_pheromone(1_000_000, 900_000, 0, ceil);
    assert_eq!(tau, ceil, "must clamp at the ceiling");
    let mut t = 0u64;
    for _ in 0..50 {
        t = update_pheromone(t, 900_000, 1_600, ceil);
    }
    assert!(t <= ceil);
}

#[test]
fn spec_worked_example_trajectory_reproduces() {
    let ceil = 1_000_000_000_000u64;
    let rho = 2_000u16;
    let q = 1_000_000u64;
    let s = 1_000u16;

    let foragers: [(&str, [i64; 3], [u64; 3]); 5] = [
        ("A", [1_500, 1_200, 1_000], [1_705_148, 2_197_773, 2_519_812]),
        ("B", [1_000, 500, 0], [1_561_594, 1_711_392, 1_369_113]),
        ("C", [200, 300, 200], [997_375, 1_089_213, 1_068_745]),
        ("D", [-500, -1_000, -800], [337_883, 0, 0]),
        ("E", [-200, 700, 1_500], [602_625, 1_086_468, 1_774_322]),
    ];

    let mut finals = [0u64; 5];
    for (i, (name, perfs, expected)) in foragers.iter().enumerate() {
        let mut tau = 1_000_000u64;
        for (epoch, perf) in perfs.iter().enumerate() {
            let d = deposit_fp6(*perf, s, q);
            tau = update_pheromone(tau, d, rho, ceil);
            assert_eq!(tau, expected[epoch], "forager {} entering epoch {}", name, epoch + 2);
        }
        finals[i] = tau;
    }

    assert_eq!(finals[3], 0);
    assert!(finals[4] > finals[1]);
    assert!(finals[0] > finals[4]);
}

// -- normalization and water-filling ------------------------------------

#[test]
fn normalization_is_proportional_when_no_cap_binds() {
    let top = [1_000u64, 1_000, 1_000];
    let k = solve_cap_level(3_000, &top, 3, 5_000);
    assert_eq!(k.capped_count, 0, "no trail reaches the cap");
    assert_eq!(k.remaining_bps, 10_000);
    assert_eq!(k.rest_sum, 3_000);
    assert_eq!(weight_bps_from_level(1_000, &k, 5_000), 3_333);
    assert_eq!(allocation_target(1_000, &k, 900_000, 5_000), 300_000);
}

#[test]
fn normalization_is_proportional_to_pheromone() {
    let top = [3_000u64, 1_000];
    let k = solve_cap_level(4_000, &top, 2, 9_000);
    let a = allocation_target(3_000, &k, 1_000_000, 9_000);
    let b = allocation_target(1_000, &k, 1_000_000, 9_000);
    assert_eq!(a, 750_000);
    assert_eq!(b, 250_000);
}

#[test]
fn cap_clamps_a_dominant_trail() {
    let top = [1_000_000u64];
    let k = solve_cap_level(1_000_000, &top, 1, 2_500);
    let t = allocation_target(1_000_000, &k, 1_000_000_000, 2_500);
    assert_eq!(t, 250_000_000);
    assert_eq!(weight_bps_from_level(1_000_000, &k, 2_500), 2_500);
}

#[test]
fn water_filling_redistributes_excess_spec_example() {
    let a = 2_197_773u64;
    let b = 1_711_392u64;
    let c = 1_089_213u64;
    let e = 1_086_468u64;
    let s = (a + b + c + e) as u128;
    let top = [a, b, c, e];

    let k = solve_cap_level(s, &top, 4, 3_500);
    assert_eq!(k.capped_count, 1, "only A should be capped");
    assert_eq!(k.remaining_bps, 6_500);
    assert_eq!(k.rest_sum, (b + c + e) as u128);

    let pool = 900_000u64;
    let ta = allocation_target(a, &k, pool, 3_500);
    let tb = allocation_target(b, &k, pool, 3_500);
    let tc = allocation_target(c, &k, pool, 3_500);
    let te = allocation_target(e, &k, pool, 3_500);

    assert_eq!(ta, 315_000);
    assert_eq!(tb, 257_562);
    assert_eq!(tc, 163_925);
    assert_eq!(te, 163_512);

    assert_eq!(tc - te, 413);

    assert_eq!(allocation_target(0, &k, pool, 3_500), 0);

    let total = ta + tb + tc + te;
    assert_eq!(total, 899_999);
    assert_eq!(pool - total, 1, "dust stays in the vault");

    assert_eq!(ta, pool * 3_500 / 10_000);

    let raw_b = (pool as u128 * b as u128 / s) as u64;
    assert!(tb > raw_b, "capped excess must flow to the uncapped");

    let total = ta + tb + tc + te;
    assert!(pool - total <= 4, "unplaced dust was {}", pool - total);
}

#[test]
fn water_filling_handles_two_capped_trails() {
    let top = [10_000u64, 9_000, 1_000, 500];
    let s = 20_500u128;
    let k = solve_cap_level(s, &top, 4, 3_000);

    let pool = 1_000_000u64;
    let t0 = allocation_target(top[0], &k, pool, 3_000);
    let t1 = allocation_target(top[1], &k, pool, 3_000);
    let t2 = allocation_target(top[2], &k, pool, 3_000);
    let t3 = allocation_target(top[3], &k, pool, 3_000);

    assert_eq!(t0, 300_000);
    assert_eq!(t1, 300_000);
    assert_eq!(t2, 266_666);
    assert_eq!(t3, 133_333);
    assert!(pool - (t0 + t1 + t2 + t3) <= 4);
}

#[test]
fn water_filling_converges_to_full_allocation() {
    let top = [900u64, 800, 700, 600, 500, 400, 300, 200, 100, 50];
    let s: u128 = top.iter().map(|v| *v as u128).sum();
    let k = solve_cap_level(s, &top, top.len() as u32, 2_000);
    let pool = 10_000_000u64;
    let total: u64 = top.iter().map(|t| allocation_target(*t, &k, pool, 2_000)).sum();
    assert!(pool - total <= top.len() as u64, "allocated {} of {}", total, pool);
}

#[test]
fn level_form_differs_from_rounding_a_shared_divisor() {
    let taus = [2_794_609u64, 546_645, 4_837];
    let w_max = 3_500u16;
    let pool = 900_000u64;
    let s: u128 = taus.iter().map(|t| *t as u128).sum();
    let level = solve_cap_level(s, &taus, 3, w_max);

    let exact_last = allocation_target(taus[2], &level, pool, w_max);
    assert_eq!(exact_last, 270_000);

    let k_ceil = (level.rest_sum * BPS_DENOM).div_ceil(level.remaining_bps as u128);
    let via_divisor = ((pool as u128) * (taus[2] as u128) / k_ceil) as u64;
    assert_eq!(via_divisor, 269_988);
    assert_ne!(exact_last, via_divisor);
}

#[test]
fn allocation_never_exceeds_the_pool() {
    let pool = 900_000u64;
    for (taus, w_max) in [
        (vec![547u64, 2_794_609, 546_645], 3_500u16),
        (vec![410_597, 5_324, 1_683_032], 3_500),
        (vec![1_958_076, 4_315_586, 6_047], 3_500),
        (vec![1, 1, 5_000_000], 3_500),
        (vec![1, 5_000_000], 5_000),
    ] {
        let s: u128 = taus.iter().map(|t| *t as u128).sum();
        let mut sorted = taus.clone();
        sorted.sort_unstable_by(|a, b| b.cmp(a));
        let k = solve_cap_level(s, &sorted, taus.len() as u32, w_max);
        let total: u64 = taus.iter().map(|t| allocation_target(*t, &k, pool, w_max)).sum();
        assert!(total <= pool, "over-allocated {} of a {} pool for taus {:?}", total, pool, taus);
    }
}

#[test]
fn allocation_never_exceeds_the_pool_across_many_shapes() {
    let pool = 1_000_000u64;
    let mut seed = 12_345u64;
    let mut next = move || {
        seed = seed.wrapping_mul(6_364_136_223_846_793_005).wrapping_add(1);
        (seed >> 33) as u64
    };
    for _ in 0..4_000 {
        let n = (next() % 11 + 2) as usize;
        let w_max = [500u16, 1_000, 2_000, 2_500, 3_500, 4_000][(next() % 6) as usize];
        let mut taus: Vec<u64> = (0..n).map(|_| next() % 5_000_000 + 1).collect();
        taus.sort_unstable_by(|a, b| b.cmp(a));
        let s: u128 = taus.iter().map(|t| *t as u128).sum();
        let k = solve_cap_level(s, &taus, n as u32, w_max);
        let total: u64 = taus.iter().map(|t| allocation_target(*t, &k, pool, w_max)).sum();
        assert!(
            total <= pool,
            "over-allocated {} of {} for {:?} at w_max {}",
            total,
            pool,
            taus,
            w_max
        );
    }
}

#[test]
fn dropped_trail_receives_nothing() {
    let top = [1_000u64, 0];
    let k = solve_cap_level(1_000, &top, 2, 9_000);
    assert_eq!(allocation_target(0, &k, 1_000_000, 9_000), 0);
}

#[test]
fn empty_colony_allocates_nothing() {
    assert_eq!(solve_cap_level(0, &[], 0, 2_000).rest_sum, 0);
    assert_eq!(solve_cap_level(0, &[], 0, 2_000).capped_count, 0);
    let empty = solve_cap_level(0, &[], 0, 2_000);
    assert_eq!(allocation_target(0, &empty, 1_000_000, 2_000), 0);
    assert_eq!(allocation_target(0, &empty, 1_000_000, 2_000), 0);
    assert_eq!(weight_bps_from_level(0, &empty, 2_000), 0);
}

#[test]
fn all_capped_leaves_undeployed_reserve() {
    let top = [1_000_000u64];
    let k = solve_cap_level(1_000_000, &top, 1, 2_500);
    assert_eq!(k.capped_count, 1);
    assert_eq!(k.rest_sum, 0, "the capped trail holds the entire sum");

    let pool = 1_000_000u64;
    let placed = allocation_target(1_000_000, &k, pool, 2_500);
    assert_eq!(placed, 250_000);
    assert_eq!(pool - placed, 750_000, "un-deployed reserve");
    assert_eq!(weight_bps_from_level(1_000_000, &k, 2_500), 2_500);
}

#[test]
fn effective_cap_relaxes_only_when_infeasible() {
    assert_eq!(effective_max_weight_bps(2_000, 10, 100), 2_000);
    assert_eq!(effective_max_weight_bps(2_000, 3, 100), 3_433);
    assert_eq!(effective_max_weight_bps(2_000, 1, 100), 10_000);
    assert_eq!(effective_max_weight_bps(2_000, 0, 100), 2_000);
}

#[test]
fn top_insert_keeps_descending_order() {
    let mut top = [0u64; TOP_TRAILS_LEN];
    let mut n = 0u8;
    for v in [5u64, 100, 3, 70, 1, 90] {
        n = top_insert(&mut top, n, v);
    }
    assert_eq!(n, 6);
    assert_eq!(&top[..6], &[100, 90, 70, 5, 3, 1]);
    for w in top.windows(2) {
        assert!(w[0] >= w[1]);
    }
}

#[test]
fn top_insert_saturates_at_capacity() {
    let mut top = [0u64; TOP_TRAILS_LEN];
    let mut n = 0u8;
    for i in 0..100u64 {
        n = top_insert(&mut top, n, i);
    }
    assert_eq!(n as usize, TOP_TRAILS_LEN);
    assert_eq!(top[0], 99);
    assert_eq!(top[TOP_TRAILS_LEN - 1], 99 - (TOP_TRAILS_LEN as u64 - 1));
    let before = top;
    n = top_insert(&mut top, n, 1);
    assert_eq!(top, before);
    assert_eq!(n as usize, TOP_TRAILS_LEN);
}

#[test]
fn no_trade_band_suppresses_small_moves() {
    assert!(within_no_trade_band(100_000, 110_000, 1_000_000, 200));
    assert!(!within_no_trade_band(100_000, 130_000, 1_000_000, 200));
    assert!(!within_no_trade_band(100_000, 130_000, 1_000_000, 0));
}

#[test]
fn turnover_cap_bounds_epoch_movement() {
    assert_eq!(apply_turnover_cap(100_000, 0, 1_000_000, 2_500), 100_000);
    assert_eq!(apply_turnover_cap(100_000, 200_000, 1_000_000, 2_500), 50_000);
    assert_eq!(apply_turnover_cap(100_000, 250_000, 1_000_000, 2_500), 0);
}

// -- shares -------------------------------------------------------------

#[test]
fn shares_round_trip_never_favors_the_withdrawer() {
    let s = shares_for_deposit(1_000_000, 0, 0);
    let back = assets_for_shares(s, s, 1_000_000);
    assert!(back <= 1_000_000, "round trip must not mint value");
}

#[test]
fn share_price_is_immune_to_donated_tokens() {
    let mut total_shares = 0u128;
    let mut nav = 0u64;

    let s1 = shares_for_deposit(1_000_000, total_shares, nav);
    total_shares += s1;
    nav += 1_000_000;

    let s2 = shares_for_deposit(1_000_000, total_shares, nav);
    total_shares += s2;
    nav += 1_000_000;

    assert_eq!(s1, s2);
    let redeem = assets_for_shares(s1, total_shares, nav);
    assert!(redeem <= 1_000_000);
    assert!(redeem >= 999_999);
}

#[test]
fn first_depositor_cannot_grief_with_one_atom() {
    let attacker = shares_for_deposit(1, 0, 0);
    let total = attacker;
    let nav = 1u64;
    let victim = shares_for_deposit(1_000_000, total, nav);
    let victim_out = assets_for_shares(victim, total + victim, nav + 1_000_000);
    assert!(victim_out >= 999_000, "victim recovered only {}", victim_out);
}

#[test]
fn profit_lifts_share_price_for_everyone() {
    let s = shares_for_deposit(1_000_000, 0, 0);
    let out = assets_for_shares(s, s, 1_100_000);
    assert!(out > 1_090_000 && out <= 1_100_000, "got {}", out);
}

// -- loss waterfall and slashing ----------------------------------------

#[test]
fn loss_waterfall_order_is_bond_then_cache_then_nav() {
    let o = cover_loss(100, 50, 30);
    assert_eq!(o, LossOutcome { from_bond: 50, from_cache: 30, to_vault_loss: 20 });

    let o2 = cover_loss(100, 500, 30);
    assert_eq!(o2, LossOutcome { from_bond: 100, from_cache: 0, to_vault_loss: 0 });

    let o3 = cover_loss(100, 40, 60);
    assert_eq!(o3.to_vault_loss, 0);

    let o4 = cover_loss(100, 0, 0);
    assert_eq!(o4.to_vault_loss, 100);
}

#[test]
fn loss_waterfall_conserves_value() {
    for loss in [0u64, 1, 99, 1_000, u64::MAX / 4] {
        for bond in [0u64, 7, 500] {
            for cache in [0u64, 13, 900] {
                let o = cover_loss(loss, bond, cache);
                assert_eq!(o.from_bond + o.from_cache + o.to_vault_loss, loss);
                assert!(o.from_bond <= bond);
                assert!(o.from_cache <= cache);
            }
        }
    }
}

#[test]
fn slash_split_sums_and_halves() {
    let o = slash_split(1_000, 2_000, 5_000);
    assert_eq!(o, SlashOutcome { slashed: 200, burn: 100, to_cache: 100 });
    assert_eq!(o.burn + o.to_cache, o.slashed);
}

#[test]
fn integrity_slash_takes_the_whole_bond() {
    let o = slash_split(1_000, 10_000, 5_000);
    assert_eq!(o.slashed, 1_000);
    assert_eq!(o.burn + o.to_cache, 1_000);
}

#[test]
fn loss_slash_ramps_past_the_threshold() {
    assert_eq!(loss_slash_bps(2_000, 3_000), 0);
    assert_eq!(loss_slash_bps(3_000, 3_000), 0);
    assert_eq!(loss_slash_bps(4_500, 3_000), 5_000);
    assert_eq!(loss_slash_bps(6_000, 3_000), 10_000);
    assert_eq!(loss_slash_bps(9_000, 3_000), 10_000);
}

#[test]
fn cache_accrual_takes_the_configured_cut() {
    assert_eq!(cache_accrual(1_000_000, 1_000), 100_000);
    assert_eq!(cache_accrual(0, 1_000), 0);
    assert_eq!(cache_accrual(1_000_000, 0), 0);
}

// -- laws on concrete values ----------------------------------------------

#[test]
fn divisor_of_an_uncapped_level_is_the_plain_sum() {
    let top = [3_000u64, 1_000];
    let k = solve_cap_level(4_000, &top, 2, 9_000);
    assert_eq!(alloc_divisor_of(&k), 4_000);
}

#[test]
fn the_deposit_curve_is_monotone() {
    let mut prev = deposit_fp6(-20_000, 1_000, 1_000_000);
    let mut perf = -20_000i64;
    while perf <= 20_000 {
        let d = deposit_fp6(perf, 1_000, 1_000_000);
        assert!(d >= prev, "deposit fell at perf {}", perf);
        prev = d;
        perf += 13;
    }
}

#[test]
fn no_target_exceeds_the_cap() {
    let top = [10_000u64, 9_000, 1_000, 500];
    let k = solve_cap_level(20_500, &top, 4, 3_000);
    let pool = 1_000_000u64;
    for t in top {
        assert!(allocation_target(t, &k, pool, 3_000) <= pool * 3_000 / 10_000);
    }
    // The capped trails receive exactly the cap.
    assert_eq!(allocation_target(10_000, &k, pool, 3_000), pool * 3_000 / 10_000);
}

#[test]
fn the_board_keeps_the_largest_trails() {
    let mut top = [0u64; TOP_TRAILS_LEN];
    let mut n = 0u8;
    let values: Vec<u64> = (0..60u64).map(|i| (i * 7_919) % 1_000).collect();
    for v in &values {
        n = top_insert(&mut top, n, *v);
    }
    let mut sorted = values.clone();
    sorted.sort_unstable_by(|a, b| b.cmp(a));
    assert_eq!(n as usize, TOP_TRAILS_LEN);
    assert_eq!(&top[..], &sorted[..TOP_TRAILS_LEN]);
}
