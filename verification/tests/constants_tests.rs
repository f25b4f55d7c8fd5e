use kolny_colony::constants::{
    admission_decimals_match, check_admission_mint, AdmissionMintRejection,
    DEFAULT_ADMISSION_BURN_BASE_UNITS, DEFAULT_ADMISSION_BURN_KOLNY, KOLNY_DECIMALS,
    KOLNY_TOTAL_SUPPLY_KOLNY, MAX_ADMISSION_BURN_BASE_UNITS, MAX_ADMISSION_BURN_KOLNY,
    MIN_ADMISSION_BURN_BASE_UNITS, MIN_ADMISSION_BURN_KOLNY, ONE_KOLNY_BASE_UNITS,
};

/// The approved numbers, in the unit a person approved them in, written as
/// bare literals rather than recomputed from the constants.
#[test]
fn admission_amounts_are_the_approved_whole_token_figures() {
    assert_eq!(DEFAULT_ADMISSION_BURN_KOLNY, 100_000);
    assert_eq!(MIN_ADMISSION_BURN_KOLNY, 10_000);
    assert_eq!(MAX_ADMISSION_BURN_KOLNY, 1_000_000);
    assert_eq!(KOLNY_TOTAL_SUPPLY_KOLNY, 1_000_000_000);
    assert_eq!(KOLNY_DECIMALS, 6);

    assert_eq!(ONE_KOLNY_BASE_UNITS, 1_000_000);
    assert_eq!(DEFAULT_ADMISSION_BURN_BASE_UNITS, 100_000_000_000);
    assert_eq!(MIN_ADMISSION_BURN_BASE_UNITS, 10_000_000_000);
    assert_eq!(MAX_ADMISSION_BURN_BASE_UNITS, 1_000_000_000_000);

    for (base, whole) in [
        (DEFAULT_ADMISSION_BURN_BASE_UNITS, DEFAULT_ADMISSION_BURN_KOLNY),
        (MIN_ADMISSION_BURN_BASE_UNITS, MIN_ADMISSION_BURN_KOLNY),
        (MAX_ADMISSION_BURN_BASE_UNITS, MAX_ADMISSION_BURN_KOLNY),
    ] {
        assert_eq!(base / ONE_KOLNY_BASE_UNITS, whole);
        assert_eq!(base % ONE_KOLNY_BASE_UNITS, 0, "not a whole token count");
    }

    assert!(MIN_ADMISSION_BURN_BASE_UNITS > 0, "admission is never free");
    assert!(MIN_ADMISSION_BURN_BASE_UNITS < DEFAULT_ADMISSION_BURN_BASE_UNITS);
    assert!(DEFAULT_ADMISSION_BURN_BASE_UNITS < MAX_ADMISSION_BURN_BASE_UNITS);
}

/// The band as a share of total supply, in hundred-millionths.
#[test]
fn admission_amounts_are_the_intended_share_of_total_supply() {
    let units_per_hundred_millionth: u64 = 100_000_000;
    let share = |whole: u64| whole * units_per_hundred_millionth / KOLNY_TOTAL_SUPPLY_KOLNY;

    assert_eq!(share(MIN_ADMISSION_BURN_KOLNY), 1_000);
    assert_eq!(share(DEFAULT_ADMISSION_BURN_KOLNY), 10_000);
    assert_eq!(share(MAX_ADMISSION_BURN_KOLNY), 100_000);

    assert_eq!(KOLNY_TOTAL_SUPPLY_KOLNY / DEFAULT_ADMISSION_BURN_KOLNY, 10_000);
}

#[test]
fn a_mint_with_unexpected_decimals_is_refused_rather_than_silently_rescaling() {
    assert!(admission_decimals_match(KOLNY_DECIMALS));
    for d in [0u8, 1, 2, 5, 7, 8, 9, 18, 255] {
        assert!(
            !admission_decimals_match(d),
            "{} decimals must be refused; the constants would mean a different number of tokens",
            d
        );
    }

    let intended = DEFAULT_ADMISSION_BURN_BASE_UNITS / 10u64.pow(KOLNY_DECIMALS as u32);
    let if_mint_had_nine = DEFAULT_ADMISSION_BURN_BASE_UNITS / 10u64.pow(9);
    assert_eq!(intended, 100_000);
    assert_eq!(if_mint_had_nine, 100);
    assert_eq!(intended / if_mint_had_nine, 1_000);
}

#[test]
fn only_a_final_mint_is_accepted_as_the_admission_asset() {
    assert_eq!(check_admission_mint(KOLNY_DECIMALS, true, true), None);

    assert_eq!(
        check_admission_mint(KOLNY_DECIMALS, false, true),
        Some(AdmissionMintRejection::MintAuthorityLive)
    );
    assert_eq!(
        check_admission_mint(KOLNY_DECIMALS, true, false),
        Some(AdmissionMintRejection::FreezeAuthorityLive)
    );
    assert_eq!(
        check_admission_mint(KOLNY_DECIMALS, false, false),
        Some(AdmissionMintRejection::MintAuthorityLive)
    );

    for d in [0u8, 1, 5, 7, 9, 18] {
        assert_eq!(
            check_admission_mint(d, true, true),
            Some(AdmissionMintRejection::Decimals),
            "{} decimals must be refused",
            d
        );
    }

    let mut accepted = 0;
    for d in [0u8, KOLNY_DECIMALS, 9, 18] {
        for m in [true, false] {
            for f in [true, false] {
                if check_admission_mint(d, m, f).is_none() {
                    accepted += 1;
                }
            }
        }
    }
    assert_eq!(accepted, 1, "exactly one shape of mint may be accepted");
}
