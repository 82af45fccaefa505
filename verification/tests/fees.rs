use yield_vault::constants::{BPS_DENOMINATOR, MAX_FEE_BPS, MAX_MANAGERS, SECONDS_PER_YEAR};
use yield_vault::error::VaultError;
use yield_vault::utils::{
    calculate_assets_to_return, calculate_management_fee, calculate_performance_fee,
    fee_amount_to_shares,
};

#[test]
fn constants_have_their_values() {
    assert_eq!(MAX_MANAGERS, 3);
    assert_eq!(MAX_FEE_BPS, 5_000);
    assert_eq!(BPS_DENOMINATOR, 10_000);
    assert_eq!(SECONDS_PER_YEAR, 31_536_000);
}

#[test]
fn management_fee_is_zero_without_assets() {
    assert_eq!(calculate_management_fee(0, 200, 31_536_000), Ok(0));
    assert_eq!(calculate_management_fee(0, u16::MAX, i64::MAX), Ok(0));
}

#[test]
fn management_fee_is_zero_without_rate() {
    assert_eq!(calculate_management_fee(1_000_000, 0, 31_536_000), Ok(0));
    assert_eq!(calculate_management_fee(u64::MAX, 0, i64::MAX), Ok(0));
}

#[test]
fn management_fee_is_zero_without_elapsed_time() {
    assert_eq!(calculate_management_fee(1_000_000, 200, 0), Ok(0));
    assert_eq!(calculate_management_fee(1_000_000, 200, -1), Ok(0));
    assert_eq!(calculate_management_fee(u64::MAX, u16::MAX, i64::MIN), Ok(0));
}

#[test]
fn management_fee_for_a_full_year_is_the_rate() {
    assert_eq!(calculate_management_fee(1_000_000_000, 200, 31_536_000), Ok(20_000_000));
    assert_eq!(calculate_management_fee(1_000_000, 5_000, 31_536_000), Ok(500_000));
}

#[test]
fn management_fee_is_pro_rata_and_rounds_down() {
    // one day of 2% a year on 1_000_000_000: 20_000_000 / 365 = 54_794.52...
    assert_eq!(calculate_management_fee(1_000_000_000, 200, 86_400), Ok(54_794));
    // half a year
    assert_eq!(calculate_management_fee(1_000_000_000, 200, 15_768_000), Ok(10_000_000));
    // too little to make one unit
    assert_eq!(calculate_management_fee(1_000, 1, 1), Ok(0));
}

#[test]
fn management_fee_beyond_sixty_four_bits_overflows() {
    assert_eq!(
        calculate_management_fee(u64::MAX, u16::MAX, i64::MAX),
        Err(VaultError::ArithmeticOverflow)
    );
    // the product fits in 128 bits, the fee does not fit in 64
    assert_eq!(
        calculate_management_fee(u64::MAX, 5_000, 1 << 40),
        Err(VaultError::ArithmeticOverflow)
    );
    // a large product whose fee still fits
    assert_eq!(
        calculate_management_fee(u64::MAX, 10_000, 31_536_000),
        Ok(u64::MAX)
    );
}

#[test]
fn performance_fee_below_the_mark_is_nothing() {
    assert_eq!(calculate_performance_fee(100, 150, 2_000, 1), Ok((0, 150)));
    assert_eq!(calculate_performance_fee(100, 150, 0, 0), Ok((0, 150)));
    assert_eq!(calculate_performance_fee(150, 150, 2_000, 1), Ok((0, 150)));
}

#[test]
fn performance_fee_above_the_mark() {
    assert_eq!(calculate_performance_fee(200, 100, 2_000, 1), Ok((20, 200)));
    assert_eq!(calculate_performance_fee(200, 100, 2_000, u64::MAX), Ok((20, 200)));
}

#[test]
fn performance_fee_needs_a_rate_and_shares() {
    assert_eq!(calculate_performance_fee(200, 100, 0, 1), Ok((0, 100)));
    assert_eq!(calculate_performance_fee(200, 100, 2_000, 0), Ok((0, 100)));
}

#[test]
fn performance_fee_rounds_down_and_still_moves_the_mark() {
    assert_eq!(calculate_performance_fee(104, 100, 2_000, 1), Ok((0, 104)));
    assert_eq!(calculate_performance_fee(109, 100, 2_000, 1), Ok((1, 109)));
}

#[test]
fn performance_fee_beyond_sixty_four_bits_overflows() {
    assert_eq!(
        calculate_performance_fee(u64::MAX, 0, u16::MAX, 1),
        Err(VaultError::ArithmeticOverflow)
    );
    assert_eq!(
        calculate_performance_fee(u64::MAX, 0, 10_000, 1),
        Ok((u64::MAX, u64::MAX))
    );
    assert_eq!(
        calculate_performance_fee(u64::MAX, 0, 5_000, 1),
        Ok((u64::MAX / 2, u64::MAX))
    );
}

#[test]
fn mark_never_falls() {
    let marks: [u64; 4] = [0, 100, 1_000_000, u64::MAX];
    let valuations: [u64; 5] = [0, 99, 100, 5_000_000, u64::MAX];
    for mark in marks {
        for valuation in valuations {
            for rate in [0u16, 1, 5_000] {
                for shares in [0u64, 1, 1_000] {
                    let (_, next) =
                        calculate_performance_fee(valuation, mark, rate, shares).unwrap();
                    assert!(next >= mark);
                }
            }
        }
    }
}

#[test]
fn fee_shares_are_priced_after_the_fee() {
    // 100 of 1_100 is a tenth of what is left: a tenth of the supply is minted
    assert_eq!(fee_amount_to_shares(100, 1_100, 1_000), Ok(100));
    assert_eq!(fee_amount_to_shares(20, 200, 90), Ok(10));
    assert_eq!(fee_amount_to_shares(1, 4, 10), Ok(3));
}

#[test]
fn fee_shares_are_nothing_without_fee_or_shares() {
    assert_eq!(fee_amount_to_shares(0, 1_000, 1_000), Ok(0));
    assert_eq!(fee_amount_to_shares(100, 1_000, 0), Ok(0));
    assert_eq!(fee_amount_to_shares(0, 0, 0), Ok(0));
    assert_eq!(fee_amount_to_shares(100, 50, 0), Ok(0));
}

#[test]
fn fee_shares_are_nothing_where_the_fee_is_the_whole_valuation() {
    assert_eq!(fee_amount_to_shares(1_000, 1_000, 500), Ok(0));
    assert_eq!(fee_amount_to_shares(u64::MAX, u64::MAX, u64::MAX), Ok(0));
}

#[test]
fn fee_above_the_valuation_overflows() {
    assert_eq!(fee_amount_to_shares(1_001, 1_000, 500), Err(VaultError::ArithmeticOverflow));
    assert_eq!(fee_amount_to_shares(1, 0, 1), Err(VaultError::ArithmeticOverflow));
}

#[test]
fn fee_shares_beyond_sixty_four_bits_overflow() {
    assert_eq!(
        fee_amount_to_shares(u64::MAX - 1, u64::MAX, 2),
        Err(VaultError::ArithmeticOverflow)
    );
    assert_eq!(fee_amount_to_shares(u64::MAX - 1, u64::MAX, 1), Ok(u64::MAX - 1));
}

#[test]
fn fee_shares_are_worth_at_most_the_fee() {
    let cases: [(u64, u64, u64); 5] = [
        (100, 1_100, 1_000),
        (1, 4, 10),
        (7, 1_000_003, 999_983),
        (999, 1_000, 3),
        (123_456, 987_654_321, 55_555),
    ];
    for (fee, total_assets, total_shares) in cases {
        let minted = fee_amount_to_shares(fee, total_assets, total_shares).unwrap();
        let worth =
            calculate_assets_to_return(minted, total_assets, total_shares + minted).unwrap();
        assert!(worth <= fee);
    }
}
