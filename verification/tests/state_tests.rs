use kolny_colony::constants::MIN_W_MAX_BPS;
use kolny_colony::math::TOP_TRAILS_LEN;
use kolny_colony::state::{BroodVaultState, TrailBoard};

#[test]
fn nav_is_idle_plus_outstanding() {
    let mut b = BroodVaultState::default();
    b.idle_base = 400;
    b.outstanding_principal = 600;
    assert_eq!(b.nav(), 1_000);
}

#[test]
fn trail_board_holds_enough_slots_for_the_tightest_cap() {
    assert!(TOP_TRAILS_LEN >= (10_000 / MIN_W_MAX_BPS as usize) + 1);
}

#[test]
fn nav_saturates_instead_of_wrapping() {
    let mut b = BroodVaultState::default();
    b.idle_base = u64::MAX;
    b.outstanding_principal = 5;
    assert_eq!(b.nav(), u64::MAX);
}

#[test]
fn undeployed_reserve_is_the_unplaced_part_of_the_pool() {
    let mut b = BroodVaultState::default();
    b.outstanding_principal = 250_000;
    assert_eq!(b.undeployed_reserve(1_000_000), 750_000);
    assert_eq!(b.undeployed_reserve(100_000), 0);
}

#[test]
fn a_reset_board_is_empty_and_keeps_its_bump() {
    let mut board = TrailBoard::default();
    board.bump = 7;
    board.top[0] = 99;
    board.top[3] = 12;
    board.count = 4;
    board.reset();
    assert_eq!(board.top, [0u64; TOP_TRAILS_LEN]);
    assert_eq!(board.count, 0);
    assert_eq!(board.bump, 7);
}
