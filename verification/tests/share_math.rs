use yield_vault::error::VaultError;
use yield_vault::utils::{calculate_assets_to_return, calculate_shares_to_mint};

#[test]
fn first_deposit_mints_one_share_per_unit() {
    assert_eq!(calculate_shares_to_mint(1, 0, 0), Ok(1));
    assert_eq!(calculate_shares_to_mint(1_000_000, 0, 0), Ok(1_000_000));
    assert_eq!(calculate_shares_to_mint(u64::MAX, 0, 0), Ok(u64::MAX));
}

#[test]
fn deposit_without_shares_or_without_assets_is_one_to_one() {
    assert_eq!(calculate_shares_to_mint(500, 0, 1_000), Ok(500));
    assert_eq!(calculate_shares_to_mint(500, 1_000, 0), Ok(500));
}

#[test]
fn deposit_at_two_assets_per_share_mints_half() {
    assert_eq!(calculate_shares_to_mint(1_000_000, 2_000_000, 1_000_000), Ok(500_000));
}

#[test]
fn deposit_then_withdraw_is_exact_at_two_to_one() {
    let shares = calculate_shares_to_mint(1_000_000, 2_000_000, 1_000_000).unwrap();
    assert_eq!(shares, 500_000);
    assert_eq!(calculate_assets_to_return(shares, 3_000_000, 1_500_000), Ok(1_000_000));
}

#[test]
fn shares_round_down() {
    assert_eq!(calculate_shares_to_mint(10, 3, 1), Ok(3));
    assert_eq!(calculate_shares_to_mint(2, 3, 1), Ok(0));
    assert_eq!(calculate_shares_to_mint(7, 2, 3), Ok(10));
}

#[test]
fn assets_round_down() {
    assert_eq!(calculate_assets_to_return(1, 10, 3), Ok(3));
    assert_eq!(calculate_assets_to_return(2, 10, 3), Ok(6));
    assert_eq!(calculate_assets_to_return(1, 1, 2), Ok(0));
}

#[test]
fn nothing_is_redeemable_without_shares() {
    assert_eq!(calculate_assets_to_return(0, 0, 0), Ok(0));
    assert_eq!(calculate_assets_to_return(5, 1_000, 0), Ok(0));
    assert_eq!(calculate_assets_to_return(u64::MAX, u64::MAX, 0), Ok(0));
}

#[test]
fn shares_survive_a_product_beyond_sixty_four_bits() {
    assert_eq!(calculate_shares_to_mint(u64::MAX, u64::MAX, u64::MAX), Ok(u64::MAX));
    assert_eq!(calculate_shares_to_mint(u64::MAX, 2, 1), Ok(u64::MAX / 2));
    assert_eq!(calculate_assets_to_return(u64::MAX, u64::MAX, u64::MAX), Ok(u64::MAX));
}

#[test]
fn shares_beyond_sixty_four_bits_overflow() {
    assert_eq!(calculate_shares_to_mint(u64::MAX, 1, 2), Err(VaultError::ArithmeticOverflow));
    assert_eq!(
        calculate_shares_to_mint(1 << 63, 1, 2),
        Err(VaultError::ArithmeticOverflow)
    );
    assert_eq!(calculate_shares_to_mint((1 << 63) - 1, 1, 2), Ok(u64::MAX - 1));
}

#[test]
fn assets_beyond_sixty_four_bits_overflow() {
    assert_eq!(calculate_assets_to_return(u64::MAX, 2, 1), Err(VaultError::ArithmeticOverflow));
    assert_eq!(calculate_assets_to_return(3, u64::MAX, 2), Err(VaultError::ArithmeticOverflow));
    assert_eq!(calculate_assets_to_return(2, u64::MAX, 2), Ok(u64::MAX));
}

#[test]
fn round_trip_never_returns_more_than_the_deposit() {
    let pools: [(u64, u64); 6] = [
        (1, 1),
        (3, 7),
        (7, 3),
        (1_000_003, 999_983),
        (u64::MAX, 1),
        (u64::MAX - 1, u64::MAX),
    ];
    let amounts: [u64; 7] = [0, 1, 2, 9, 1_000, 123_456_789, u64::MAX];
    for (total_assets, total_shares) in pools {
        for amount in amounts {
            if let Ok(shares) = calculate_shares_to_mint(amount, total_assets, total_shares) {
                let back = calculate_assets_to_return(shares, total_assets, total_shares);
                assert!(matches!(back, Ok(assets) if assets <= amount));
            }
        }
    }
}

#[test]
fn deposit_redeemed_against_the_grown_pool_never_gains() {
    let pools: [(u64, u64); 4] = [(1, 1), (3, 7), (7, 3), (1_000_003, 999_983)];
    let amounts: [u64; 5] = [1, 2, 9, 1_000, 123_456_789];
    for (total_assets, total_shares) in pools {
        for amount in amounts {
            let shares = calculate_shares_to_mint(amount, total_assets, total_shares).unwrap();
            let back = calculate_assets_to_return(
                shares,
                total_assets + amount,
                total_shares + shares,
            )
            .unwrap();
            assert!(back <= amount);
        }
    }
}
