use amm::curve::XYAmounts;
use amm::error::AmmError;
use amm::state::{Config, DepositReceipt, Pubkey};

fn key(byte: u8) -> Pubkey {
    Pubkey { bytes: [byte; 32] }
}

fn pool(locked: bool) -> Config {
    Config {
        authority: Some(key(9)),
        mint_x: key(1),
        mint_y: key(2),
        locked,
        config_bump: 254,
        lp_bump: 253,
    }
}

#[test]
fn keys_compare_byte_for_byte() {
    assert!(key(1).same(&key(1)));
    assert!(!key(1).same(&key(2)));
    let mut last = key(1);
    last.bytes[31] = 0;
    assert!(!key(1).same(&last));
    let mut first = key(1);
    first.bytes[0] = 0;
    assert!(!first.same(&key(1)));
}

#[test]
fn scenario_bootstrap() {
    for requested in [1u64, 5, 2_000_000, u64::MAX] {
        assert_eq!(
            pool(false).deposit(0, 0, 0, requested, 1_000_000, 4_000_000),
            Ok(DepositReceipt { minted_shares: 2_000_000, spent_x: 1_000_000, spent_y: 4_000_000 })
        );
    }
}

#[test]
fn scenario_proportional_deposit() {
    assert_eq!(
        pool(false).deposit(1_000_000, 4_000_000, 2_000_000, 1_000_000, 600_000, 2_100_000),
        Ok(DepositReceipt { minted_shares: 1_000_000, spent_x: 500_000, spent_y: 2_000_000 })
    );
}

#[test]
fn scenario_slippage_rejection() {
    assert_eq!(
        pool(false).deposit(1_000_000, 4_000_000, 2_000_000, 1_000_000, 400_000, 2_000_000),
        Err(AmmError::SlippageExceeded)
    );
}

#[test]
fn scenario_withdraw() {
    assert_eq!(
        pool(false).withdraw(1_500_000, 6_000_000, 3_000_000, 1_000_000, 490_000, 1_950_000),
        Ok(XYAmounts { x: 500_000, y: 2_000_000 })
    );
}

#[test]
fn scenario_locked_pool() {
    let cases: [(u64, u64, u64, u64, u64, u64); 5] = [
        (0, 0, 0, 1, 1_000_000, 4_000_000),
        (1_000_000, 4_000_000, 2_000_000, 1_000_000, 600_000, 2_100_000),
        (1_000_000, 4_000_000, 2_000_000, 0, 0, 0),
        (1_500_000, 6_000_000, 3_000_000, 1_000_000, 490_000, 1_950_000),
        (u64::MAX, u64::MAX, 1, u64::MAX, u64::MAX, u64::MAX),
    ];
    for (x, y, l, a, bx, by) in cases {
        assert_eq!(pool(true).deposit(x, y, l, a, bx, by), Err(AmmError::PoolLocked));
        assert_eq!(pool(true).withdraw(x, y, l, a, bx, by), Err(AmmError::PoolLocked));
    }
}

#[test]
fn zero_shares_are_rejected() {
    let snapshots: [(u64, u64, u64); 4] =
        [(0, 0, 0), (1_000_000, 4_000_000, 2_000_000), (5, 0, 0), (u64::MAX, u64::MAX, u64::MAX)];
    for (x, y, l) in snapshots {
        for (bx, by) in [(0u64, 0u64), (1, 1), (u64::MAX, u64::MAX)] {
            assert_eq!(pool(false).deposit(x, y, l, 0, bx, by), Err(AmmError::InvalidAmount));
            assert_eq!(pool(false).withdraw(x, y, l, 0, bx, by), Err(AmmError::InvalidAmount));
        }
    }
}

#[test]
fn bootstrap_with_a_zero_seed_is_rejected() {
    assert_eq!(pool(false).deposit(0, 0, 0, 1, 0, 4_000_000), Err(AmmError::InvalidAmount));
    assert_eq!(pool(false).deposit(0, 0, 0, 1, 1_000_000, 0), Err(AmmError::InvalidAmount));
    assert_eq!(pool(false).deposit(0, 0, 0, 1, 0, 0), Err(AmmError::InvalidAmount));
}

#[test]
fn bootstrap_spends_the_bounds_in_full() {
    assert_eq!(
        pool(false).deposit(0, 0, 0, 1, 2, 3),
        Ok(DepositReceipt { minted_shares: 2, spent_x: 2, spent_y: 3 })
    );
    assert_eq!(
        pool(false).deposit(0, 0, 0, 1, u64::MAX, u64::MAX),
        Ok(DepositReceipt { minted_shares: u64::MAX, spent_x: u64::MAX, spent_y: u64::MAX })
    );
}

#[test]
fn deposit_at_the_bounds_is_accepted() {
    assert_eq!(
        pool(false).deposit(1_000_000, 4_000_000, 2_000_000, 1_000_000, 500_000, 2_000_000),
        Ok(DepositReceipt { minted_shares: 1_000_000, spent_x: 500_000, spent_y: 2_000_000 })
    );
    assert_eq!(
        pool(false).deposit(1_000_000, 4_000_000, 2_000_000, 1_000_000, 500_000, 1_999_999),
        Err(AmmError::SlippageExceeded)
    );
    assert_eq!(
        pool(false).deposit(1_000_000, 4_000_000, 2_000_000, 1_000_000, 499_999, 2_000_000),
        Err(AmmError::SlippageExceeded)
    );
}

#[test]
fn deposit_rounds_against_the_depositor() {
    assert_eq!(
        pool(false).deposit(10, 20, 3, 1, 100, 100),
        Ok(DepositReceipt { minted_shares: 1, spent_x: 4, spent_y: 7 })
    );
}

#[test]
fn deposit_into_reserves_without_shares_overflows() {
    // reserves were funded from outside before any share was issued
    assert_eq!(pool(false).deposit(5, 0, 0, 1, 10, 10), Err(AmmError::MathOverflow));
    assert_eq!(pool(false).deposit(0, 5, 0, 1, 10, 10), Err(AmmError::MathOverflow));
}

#[test]
fn deposit_too_large_overflows() {
    assert_eq!(
        pool(false).deposit(u64::MAX, 1, 1, 2, u64::MAX, u64::MAX),
        Err(AmmError::MathOverflow)
    );
}

#[test]
fn successful_deposits_mint_shares_and_do_not_dilute() {
    let cases: [(u64, u64, u64, u64); 6] = [
        (0, 0, 0, 1),
        (10, 20, 3, 1),
        (1_000_000, 4_000_000, 2_000_000, 1),
        (1_000_000, 4_000_000, 2_000_000, 999_999),
        (7, 11, 13, 5),
        (123_456_789, 987_654_321, 1_000_000_007, 31_337),
    ];
    for (x, y, l, a) in cases {
        let r = pool(false).deposit(x, y, l, a, 1 << 40, 1 << 40).unwrap();
        assert!(r.minted_shares > 0);
        let minted = r.minted_shares as u128;
        assert!(minted * x as u128 <= r.spent_x as u128 * l as u128);
        assert!(minted * y as u128 <= r.spent_y as u128 * l as u128);
        // the cross product of new and old reserves is off by less than a reserve
        let new_x = x as i128 + r.spent_x as i128;
        let new_y = y as i128 + r.spent_y as i128;
        let cross = new_x * y as i128 - x as i128 * new_y;
        assert!(cross <= y as i128 && -cross <= x as i128);
    }
}

#[test]
fn withdraw_needs_a_floor_on_one_side() {
    assert_eq!(
        pool(false).withdraw(1_500_000, 6_000_000, 3_000_000, 1_000_000, 0, 0),
        Err(AmmError::InvalidAmount)
    );
    assert_eq!(
        pool(false).withdraw(1_500_000, 6_000_000, 3_000_000, 1_000_000, 1, 0),
        Ok(XYAmounts { x: 500_000, y: 2_000_000 })
    );
    assert_eq!(
        pool(false).withdraw(1_500_000, 6_000_000, 3_000_000, 1_000_000, 0, 1),
        Ok(XYAmounts { x: 500_000, y: 2_000_000 })
    );
}

#[test]
fn withdraw_below_a_floor_is_slippage() {
    assert_eq!(
        pool(false).withdraw(1_500_000, 6_000_000, 3_000_000, 1_000_000, 500_001, 1),
        Err(AmmError::SlippageExceeded)
    );
    assert_eq!(
        pool(false).withdraw(1_500_000, 6_000_000, 3_000_000, 1_000_000, 1, 2_000_001),
        Err(AmmError::SlippageExceeded)
    );
    assert_eq!(
        pool(false).withdraw(1_500_000, 6_000_000, 3_000_000, 1_000_000, 500_000, 2_000_000),
        Ok(XYAmounts { x: 500_000, y: 2_000_000 })
    );
}

#[test]
fn withdraw_of_more_than_the_supply_is_invalid() {
    assert_eq!(pool(false).withdraw(10, 20, 3, 4, 1, 1), Err(AmmError::InvalidAmount));
    assert_eq!(pool(false).withdraw(10, 20, 0, 1, 1, 1), Err(AmmError::InvalidAmount));
}

#[test]
fn withdraw_never_pays_more_than_the_reserves() {
    let cases: [(u64, u64, u64, u64); 5] = [
        (10, 20, 3, 1),
        (10, 20, 3, 3),
        (1_500_000, 6_000_000, 3_000_000, 2_999_999),
        (u64::MAX, u64::MAX, u64::MAX, u64::MAX),
        (u64::MAX, 1, 3, 2),
    ];
    for (x, y, l, a) in cases {
        let out = pool(false).withdraw(x, y, l, a, 0, 1).unwrap_or(XYAmounts { x: 0, y: 0 });
        assert!(out.x <= x && out.y <= y);
        if a == l {
            assert_eq!(out, XYAmounts { x, y });
        }
    }
}

#[test]
fn round_trip_after_bootstrap_returns_the_seeds() {
    let r = pool(false).deposit(0, 0, 0, 1, 1_000_000, 4_000_000).unwrap();
    let out = pool(false)
        .withdraw(r.spent_x, r.spent_y, r.minted_shares, r.minted_shares, 1, 1)
        .unwrap();
    assert_eq!(out, XYAmounts { x: 1_000_000, y: 4_000_000 });
}

#[test]
fn round_trip_returns_no_more_than_was_paid() {
    let r = pool(false).deposit(10, 20, 3, 1, 100, 100).unwrap();
    let out = pool(false)
        .withdraw(10 + r.spent_x, 20 + r.spent_y, 3 + r.minted_shares, r.minted_shares, 1, 1)
        .unwrap();
    assert_eq!(out, XYAmounts { x: 3, y: 6 });
    assert!(out.x <= r.spent_x && out.y <= r.spent_y);
}

#[test]
fn shares_are_outstanding_exactly_while_the_pool_holds_something() {
    let first = pool(false).deposit(0, 0, 0, 1, 9, 4).unwrap();
    assert!(first.minted_shares > 0 && first.spent_x > 0 && first.spent_y > 0);
    let (x, y, l) = (first.spent_x, first.spent_y, first.minted_shares);
    let part = pool(false).withdraw(x, y, l, l - 1, 0, 1).unwrap();
    assert!(part.x < x && part.y < y);
    let rest = pool(false).withdraw(x - part.x, y - part.y, 1, 1, 1, 1).unwrap();
    assert_eq!(rest, XYAmounts { x: x - part.x, y: y - part.y });
}
