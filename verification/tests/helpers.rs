use enigmaduel::error::ContractError;
use enigmaduel::helpers::{cal_min_required, create_key_hash, decimal_string};
use enigmaduel::msg::UpdateBalanceMode;

#[test]
fn stake_is_half_of_the_pool_without_both_fees() {
    assert_eq!(cal_min_required(1_500_000_000, 100_000_000), Ok(650_000_000));
    assert_eq!(cal_min_required(1_500_000_000, 0), Ok(750_000_000));
}

#[test]
fn fee_is_set_aside_twice_before_the_pool_is_halved() {
    // (1_500_000_000 - 2 * 100_000_000) / 2, and neither
    // (1_500_000_000 - 100_000_000) / 2 nor 1_500_000_000 / 2
    let stake = cal_min_required(1_500_000_000, 100_000_000).unwrap();
    assert_eq!(stake, 650_000_000);
    assert_ne!(stake, 700_000_000);
    assert_ne!(stake, 750_000_000);
    // with an odd pool the halves of the two formulas would differ by the rounding
    assert_eq!(cal_min_required(1_000_000_001, 100_000_000), Ok(400_000_000));
    assert_eq!(cal_min_required(11, 3), Ok(2));
}

#[test]
fn stake_rounds_down() {
    assert_eq!(cal_min_required(1_501, 100), Ok(650));
    assert_eq!(cal_min_required(7, 1), Ok(2));
    assert_eq!(cal_min_required(1, 0), Ok(0));
}

#[test]
fn stake_of_a_pool_that_is_all_fee_is_zero() {
    assert_eq!(cal_min_required(200, 100), Ok(0));
    assert_eq!(cal_min_required(0, 0), Ok(0));
}

#[test]
fn stake_of_the_largest_pool_fits() {
    assert_eq!(cal_min_required(u128::MAX, 0), Ok(u128::MAX / 2));
    assert_eq!(cal_min_required(u128::MAX, 1), Ok((u128::MAX - 2) / 2));
}

#[test]
fn pool_below_twice_the_fee_is_rejected() {
    assert_eq!(
        cal_min_required(199, 100),
        Err(ContractError::InsufficientPrizePool { prize_pool: 199, fee: 100 })
    );
    assert_eq!(
        cal_min_required(0, 1),
        Err(ContractError::InsufficientPrizePool { prize_pool: 0, fee: 1 })
    );
}

#[test]
fn fee_whose_double_leaves_the_range_is_rejected() {
    assert_eq!(
        cal_min_required(u128::MAX, u128::MAX),
        Err(ContractError::InsufficientPrizePool { prize_pool: u128::MAX, fee: u128::MAX })
    );
    assert_eq!(
        cal_min_required(u128::MAX, u128::MAX / 2 + 1),
        Err(ContractError::InsufficientPrizePool {
            prize_pool: u128::MAX,
            fee: u128::MAX / 2 + 1
        })
    );
}

#[test]
fn decimal_string_writes_digits() {
    assert_eq!(decimal_string(0), "0");
    assert_eq!(decimal_string(7), "7");
    assert_eq!(decimal_string(10), "10");
    assert_eq!(decimal_string(109), "109");
    assert_eq!(decimal_string(1_500_000_000), "1500000000");
    assert_eq!(decimal_string(u128::MAX), "340282366920938463463374607431768211455");
}

#[test]
fn decimal_string_agrees_with_the_standard_rendering() {
    let mut n: u128 = 1;
    while n < u128::MAX / 7 {
        assert_eq!(decimal_string(n), format!("{}", n));
        assert_eq!(decimal_string(n - 1), format!("{}", n - 1));
        n *= 7;
    }
}

#[test]
fn key_is_the_base64_of_the_quoted_text() {
    // the text is 8:addr3333addr4444, between double quotes
    assert_eq!(
        create_key_hash("addr3333".to_string(), "addr4444".to_string()),
        "Ijg6YWRkcjMzMzNhZGRyNDQ0NCI="
    );
    assert_eq!(create_key_hash("".to_string(), "".to_string()), "IjA6Ig==");
}

#[test]
fn key_escapes_quotes_and_backslashes() {
    assert_eq!(
        create_key_hash("q\"uote\\".to_string(), "\u{221a}".to_string()),
        "Ijc6cVwidW90ZVxc4oiaIg=="
    );
}

#[test]
fn key_depends_on_the_order_of_the_contestants() {
    let forward = create_key_hash("addr3333".to_string(), "addr4444".to_string());
    let backward = create_key_hash("addr4444".to_string(), "addr3333".to_string());
    assert_eq!(backward, "Ijg6YWRkcjQ0NDRhZGRyMzMzMyI=");
    assert_ne!(forward, backward);
}

#[test]
fn key_tells_apart_pairs_with_the_same_concatenation() {
    let left = create_key_hash("a".to_string(), "bc".to_string());
    let right = create_key_hash("ab".to_string(), "c".to_string());
    assert_eq!(left, "IjE6YWJjIg==");
    assert_eq!(right, "IjI6YWJjIg==");
    assert_ne!(left, right);
}

#[test]
fn key_is_the_same_every_time() {
    assert_eq!(
        create_key_hash("addr3333".to_string(), "addr4444".to_string()),
        create_key_hash("addr3333".to_string(), "addr4444".to_string())
    );
}

#[test]
fn key_length_counts_characters() {
    // one character of three bytes: the prefix is 1, not 3
    let key = create_key_hash("\u{221a}".to_string(), "x".to_string());
    assert_eq!(key, "IjE64oiaeCI=");
}

#[test]
fn deposit_is_described() {
    let deposit = UpdateBalanceMode::Deposit { user: Some("addr3333".to_string()), amount: 1_000_000_000 };
    assert_eq!(deposit.to_string(), "Deposit 1000000000 tokens for user addr3333 ");
}

#[test]
fn deposit_without_a_user_is_described() {
    let deposit = UpdateBalanceMode::Deposit { user: None, amount: 0 };
    assert_eq!(deposit.to_string(), "Deposit 0 tokens for user  ");
}

#[test]
fn withdrawal_is_described() {
    let withdrawal = UpdateBalanceMode::Withdraw {
        user: Some("addr0000".to_string()),
        amount: 200_000_000,
        receiver: "addr5555".to_string(),
    };
    assert_eq!(
        withdrawal.to_string(),
        "withdraw 200000000 tokens for user addr5555 from addr0000 "
    );
    let anonymous = UpdateBalanceMode::Withdraw {
        user: None,
        amount: 5,
        receiver: "addr5555".to_string(),
    };
    assert_eq!(anonymous.to_string(), "withdraw 5 tokens for user addr5555 from  ");
}
