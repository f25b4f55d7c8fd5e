use kolny_colony::constants::{
    DEFAULT_ADMISSION_BURN_BASE_UNITS, DEFAULT_BOND_HAIRCUT_BPS, DEFAULT_BOND_RATIO_BPS,
    DEFAULT_CACHE_ACCRUAL_BPS, DEFAULT_CACHE_RESERVE_TARGET_BPS, DEFAULT_DD_PROBATION_BPS,
    DEFAULT_DD_SLASH_BPS, DEFAULT_DEPOSIT_SCALE_Q, DEFAULT_EPOCH_DURATION_SECS,
    DEFAULT_EPOCH_LOSS_LIMIT_BPS, DEFAULT_MAX_SINGLE_ASSET_BPS, DEFAULT_NONRESPONSE_TIMEOUT_EPOCHS,
    DEFAULT_PERF_NORM_S_BPS, DEFAULT_PROBATION_GRACE_EPOCHS, DEFAULT_PROMOTE_MIN_EPOCHS,
    DEFAULT_PROMOTE_MIN_REALIZED_EPOCHS, DEFAULT_PROMOTE_PERF_BAR_BPS,
    DEFAULT_PROMOTE_TAU_SEED_CAP, DEFAULT_REBAND_BAND_BPS, DEFAULT_RHO_BPS,
    DEFAULT_RISK_AVERSION_BPS, DEFAULT_SCOUT_BUDGET_BPS, DEFAULT_SLASH_BURN_BPS,
    DEFAULT_TURNOVER_CAP_BPS, DEFAULT_W_DROP_BPS, DEFAULT_W_MAX_BPS,
    MAX_ADMISSION_BURN_BASE_UNITS, MAX_PROMOTE_TAU_SEED_CAP, MAX_RHO_BPS,
    MIN_ADMISSION_BURN_BASE_UNITS, MIN_EPOCH_DURATION_SECS, MIN_PROMOTE_PERF_BAR_BPS,
    MIN_TURNOVER_CAP_BPS,
};
use kolny_colony::instructions::admin::{ConfigPatch, InitColonyParams};
use kolny_colony::state::{Address, ColonyConfig};

/// Every published default, assembled through the struct genesis takes.
/// `min_bond` and `scout_ticket_base_units` have no published default, so
/// they carry plausible non-zero stand-ins.
fn published_defaults() -> InitColonyParams {
    InitColonyParams {
        epoch_duration_secs: DEFAULT_EPOCH_DURATION_SECS,

        rho_bps: DEFAULT_RHO_BPS,
        deposit_scale_q: DEFAULT_DEPOSIT_SCALE_Q,
        perf_norm_s_bps: DEFAULT_PERF_NORM_S_BPS,
        risk_aversion_bps: DEFAULT_RISK_AVERSION_BPS,

        w_max_bps: DEFAULT_W_MAX_BPS,
        w_drop_bps: DEFAULT_W_DROP_BPS,
        scout_budget_bps: DEFAULT_SCOUT_BUDGET_BPS,
        reband_band_bps: DEFAULT_REBAND_BAND_BPS,
        turnover_cap_bps: DEFAULT_TURNOVER_CAP_BPS,

        promote_min_epochs: DEFAULT_PROMOTE_MIN_EPOCHS,
        promote_min_realized_epochs: DEFAULT_PROMOTE_MIN_REALIZED_EPOCHS,
        promote_perf_bar_bps: DEFAULT_PROMOTE_PERF_BAR_BPS,
        scout_ticket_base_units: 1_000_000,
        promote_tau_seed_cap: DEFAULT_PROMOTE_TAU_SEED_CAP,

        min_bond: 1_000_000,
        bond_ratio_bps: DEFAULT_BOND_RATIO_BPS,
        bond_haircut_bps: DEFAULT_BOND_HAIRCUT_BPS,
        dd_probation_bps: DEFAULT_DD_PROBATION_BPS,
        dd_slash_bps: DEFAULT_DD_SLASH_BPS,
        epoch_loss_limit_bps: DEFAULT_EPOCH_LOSS_LIMIT_BPS,
        probation_grace_epochs: DEFAULT_PROBATION_GRACE_EPOCHS,
        nonresponse_timeout_epochs: DEFAULT_NONRESPONSE_TIMEOUT_EPOCHS,
        slash_burn_bps: DEFAULT_SLASH_BURN_BPS,
        max_single_asset_bps: DEFAULT_MAX_SINGLE_ASSET_BPS,

        cache_accrual_bps: DEFAULT_CACHE_ACCRUAL_BPS,
        cache_reserve_target_bps: DEFAULT_CACHE_RESERVE_TARGET_BPS,

        admission_burn_amount: DEFAULT_ADMISSION_BURN_BASE_UNITS,
    }
}

fn empty_patch() -> ConfigPatch {
    ConfigPatch {
        epoch_duration_secs: None,

        rho_bps: None,
        deposit_scale_q: None,
        perf_norm_s_bps: None,
        risk_aversion_bps: None,

        w_max_bps: None,
        w_drop_bps: None,
        scout_budget_bps: None,
        reband_band_bps: None,
        turnover_cap_bps: None,

        promote_min_epochs: None,
        promote_min_realized_epochs: None,
        promote_perf_bar_bps: None,
        scout_ticket_base_units: None,
        promote_tau_seed_cap: None,

        min_bond: None,
        bond_ratio_bps: None,
        bond_haircut_bps: None,
        dd_probation_bps: None,
        dd_slash_bps: None,
        epoch_loss_limit_bps: None,
        probation_grace_epochs: None,
        nonresponse_timeout_epochs: None,
        slash_burn_bps: None,
        max_single_asset_bps: None,

        cache_accrual_bps: None,
        cache_reserve_target_bps: None,

        admission_burn_amount: None,
    }
}

fn address_of(byte: u8) -> Address {
    let w = u64::from_le_bytes([byte; 8]);
    Address { w0: w, w1: w, w2: w, w3: w }
}

#[test]
fn published_defaults_pass_the_range_gate() {
    assert!(published_defaults().validate().is_ok());
}

#[test]
fn activity_requirement_cannot_exceed_tenure_requirement() {
    let mut p = published_defaults();
    p.promote_min_realized_epochs = 20;
    assert!(
        p.validate().is_err(),
        "20 realized epochs against 4 scout epochs must be rejected"
    );

    let mut p = published_defaults();
    p.promote_min_realized_epochs = p.promote_min_epochs as u16;
    assert!(p.validate().is_ok());

    let mut p = published_defaults();
    p.promote_min_realized_epochs = p.promote_min_epochs as u16 + 1;
    assert!(p.validate().is_err());

    let mut p = published_defaults();
    p.promote_min_epochs = 12;
    p.promote_min_realized_epochs = 10;
    assert!(p.validate().is_ok());

    let d = published_defaults();
    assert_eq!(d.promote_min_epochs, 4);
    assert_eq!(d.promote_min_realized_epochs, 3);
}

#[test]
fn out_of_range_values_are_rejected() {
    let mut p = published_defaults();
    p.rho_bps = MAX_RHO_BPS + 1;
    assert!(p.validate().is_err());

    let mut p = published_defaults();
    p.epoch_duration_secs = MIN_EPOCH_DURATION_SECS - 1;
    assert!(p.validate().is_err());

    let mut p = published_defaults();
    p.promote_perf_bar_bps = MIN_PROMOTE_PERF_BAR_BPS - 1;
    assert!(p.validate().is_err());

    let mut p = published_defaults();
    p.promote_tau_seed_cap = MAX_PROMOTE_TAU_SEED_CAP + 1;
    assert!(p.validate().is_err());
}

#[test]
fn zero_is_rejected_where_the_spec_requires_a_positive_value() {
    let mut p = published_defaults();
    p.min_bond = 0;
    assert!(p.validate().is_err());

    let mut p = published_defaults();
    p.scout_ticket_base_units = 0;
    assert!(p.validate().is_err());
}

#[test]
fn ordering_invariants_are_enforced() {
    let mut p = published_defaults();
    p.dd_probation_bps = 3_500;
    p.dd_slash_bps = 3_000;
    assert!(p.validate().is_err());

    let mut p = published_defaults();
    p.w_drop_bps = 1_000;
    p.w_max_bps = 1_000;
    assert!(p.validate().is_err());
}

#[test]
fn an_empty_patch_changes_nothing() {
    let mut merged = published_defaults();
    empty_patch().overlay(&mut merged);

    let base = published_defaults();
    assert_eq!(merged.epoch_duration_secs, base.epoch_duration_secs);
    assert_eq!(merged.rho_bps, base.rho_bps);
    assert_eq!(merged.w_max_bps, base.w_max_bps);
    assert_eq!(merged.min_bond, base.min_bond);
    assert_eq!(merged.cache_reserve_target_bps, base.cache_reserve_target_bps);
}

#[test]
fn a_patch_moves_only_the_fields_it_sets() {
    let mut patch = empty_patch();
    patch.rho_bps = Some(MAX_RHO_BPS);
    patch.turnover_cap_bps = Some(MIN_TURNOVER_CAP_BPS);

    let mut merged = published_defaults();
    patch.overlay(&mut merged);

    assert_eq!(merged.rho_bps, MAX_RHO_BPS);
    assert_eq!(merged.turnover_cap_bps, MIN_TURNOVER_CAP_BPS);
    assert_eq!(merged.w_max_bps, DEFAULT_W_MAX_BPS);
    assert_eq!(merged.dd_slash_bps, DEFAULT_DD_SLASH_BPS);
    assert!(merged.validate().is_ok());
}

#[test]
fn the_admission_burn_cannot_leave_its_published_band() {
    let mut p = published_defaults();
    p.admission_burn_amount = 0;
    assert!(
        p.validate().is_err(),
        "a zero admission burn must be rejected: registration would succeed while destroying nothing"
    );

    let mut p = published_defaults();
    p.admission_burn_amount = MAX_ADMISSION_BURN_BASE_UNITS + 1;
    assert!(p.validate().is_err());

    let mut p = published_defaults();
    p.admission_burn_amount = u64::MAX;
    assert!(p.validate().is_err());

    for amount in [
        MIN_ADMISSION_BURN_BASE_UNITS,
        DEFAULT_ADMISSION_BURN_BASE_UNITS,
        MAX_ADMISSION_BURN_BASE_UNITS,
    ] {
        let mut p = published_defaults();
        p.admission_burn_amount = amount;
        assert!(
            p.validate().is_ok(),
            "{} sits inside the published band and must be accepted",
            amount
        );
    }

    assert!(MIN_ADMISSION_BURN_BASE_UNITS <= DEFAULT_ADMISSION_BURN_BASE_UNITS);
    assert!(DEFAULT_ADMISSION_BURN_BASE_UNITS <= MAX_ADMISSION_BURN_BASE_UNITS);
}

#[test]
fn an_authority_cannot_patch_the_admission_burn_past_the_ceiling() {
    let mut patch = empty_patch();
    patch.admission_burn_amount = Some(MAX_ADMISSION_BURN_BASE_UNITS + 1);

    let mut merged = published_defaults();
    patch.overlay(&mut merged);
    assert!(merged.validate().is_err());

    let mut patch = empty_patch();
    patch.admission_burn_amount = Some(MAX_ADMISSION_BURN_BASE_UNITS);

    let mut merged = published_defaults();
    patch.overlay(&mut merged);
    assert_eq!(merged.admission_burn_amount, MAX_ADMISSION_BURN_BASE_UNITS);
    assert!(merged.validate().is_ok());

    let mut merged = published_defaults();
    empty_patch().overlay(&mut merged);
    assert_eq!(merged.admission_burn_amount, DEFAULT_ADMISSION_BURN_BASE_UNITS);
}

#[test]
fn the_kolny_mint_is_not_reachable_from_a_config_patch() {
    let mut config = ColonyConfig::default();
    published_defaults().store_into(&mut config);
    assert_eq!(
        config.kolny_mint,
        Address::zero(),
        "storing parameters must not write the mint"
    );

    config.kolny_mint = address_of(4);
    config.total_kolny_burned = 12_345;

    let mut merged = InitColonyParams::from_config(&config);
    let mut patch = empty_patch();
    patch.admission_burn_amount = Some(MIN_ADMISSION_BURN_BASE_UNITS);
    patch.overlay(&mut merged);
    merged.validate().unwrap();
    merged.store_into(&mut config);

    assert_eq!(config.kolny_mint, address_of(4));
    assert_eq!(config.total_kolny_burned, 12_345);
    assert_eq!(config.admission_burn_amount, MIN_ADMISSION_BURN_BASE_UNITS);
}

#[test]
fn a_patch_is_validated_against_the_values_it_lands_beside() {
    let mut patch = empty_patch();
    patch.dd_probation_bps = Some(4_000);

    let mut merged = published_defaults();
    patch.overlay(&mut merged);

    assert!(merged.validate().is_err());
}
