use staking_ledger::{
    calculate_points, same_identity, update_points, StakeAccount, StakeError, POINT_SCALE,
    SECONDS_PER_DAY,
};

fn account(staked_amount: u64, total_points: u64, last_stake_time: i64) -> StakeAccount {
    StakeAccount { owner: [7u8; 32], staked_amount, total_points, last_stake_time, bump: 255 }
}

#[test]
fn constants_have_their_values() {
    assert_eq!(POINT_SCALE, 1_000_000);
    assert_eq!(SECONDS_PER_DAY, 86_400);
}

#[test]
fn points_for_half_a_day() {
    assert_eq!(calculate_points(500, 43_200), Ok(250));
}

#[test]
fn points_for_a_whole_day_equal_the_amount() {
    assert_eq!(calculate_points(1_000_000, 86_400), Ok(1_000_000));
    assert_eq!(calculate_points(1, 86_400), Ok(1));
}

#[test]
fn points_are_rounded_down() {
    assert_eq!(calculate_points(1, 86_399), Ok(0));
    assert_eq!(calculate_points(3, 100_000), Ok(3));
    assert_eq!(calculate_points(7, 12_345), Ok(1));
    assert_eq!(calculate_points(86_399, 1), Ok(0));
}

#[test]
fn points_of_nothing_are_nothing() {
    assert_eq!(calculate_points(0, 86_400), Ok(0));
    assert_eq!(calculate_points(1_000, 0), Ok(0));
    assert_eq!(calculate_points(0, 0), Ok(0));
}

#[test]
fn points_do_not_fall_as_amount_or_time_rises() {
    let pairs: [(u64, u64); 6] =
        [(1, 1), (10, 8_000), (10, 9_000), (11, 9_000), (500, 43_200), (501, 86_400)];
    let mut i = 0;
    while i + 1 < pairs.len() {
        let (a, e) = pairs[i];
        let (b, f) = pairs[i + 1];
        assert!(a <= b && e <= f);
        assert!(calculate_points(a, e).unwrap() <= calculate_points(b, f).unwrap());
        i += 1;
    }
    assert_eq!(calculate_points(10, 8_000), Ok(0));
    assert_eq!(calculate_points(10, 9_000), Ok(1));
    assert_eq!(calculate_points(501, 86_400), Ok(501));
}

#[test]
fn points_at_the_edge_of_the_range() {
    assert_eq!(calculate_points(u64::MAX, 86_400), Ok(u64::MAX));
    assert_eq!(calculate_points(u64::MAX, 86_399), Ok(u64::MAX - 213_503_982_334_602));
}

#[test]
fn points_beyond_sixty_four_bits_overflow() {
    assert_eq!(calculate_points(u64::MAX, 86_401), Err(StakeError::Overflow));
    assert_eq!(calculate_points(u64::MAX, 172_800), Err(StakeError::Overflow));
}

#[test]
fn scaled_product_beyond_the_wide_range_overflows() {
    assert_eq!(calculate_points(u64::MAX, u64::MAX), Err(StakeError::Overflow));
    assert_eq!(calculate_points(1 << 60, 1 << 60), Err(StakeError::Overflow));
}

#[test]
fn accrual_adds_the_points_earned_and_moves_the_time() {
    let mut a = account(500, 10, 0);
    assert_eq!(update_points(&mut a, 43_200), Ok(()));
    assert_eq!(a, account(500, 260, 43_200));
}

#[test]
fn accrual_twice_at_one_time_adds_nothing() {
    let mut a = account(500, 0, 0);
    assert_eq!(update_points(&mut a, 43_200), Ok(()));
    let after_first = a;
    assert_eq!(update_points(&mut a, 43_200), Ok(()));
    assert_eq!(a, after_first);
    assert_eq!(a.total_points, 250);
}

#[test]
fn accrual_with_nothing_staked_only_moves_the_time() {
    let mut a = account(0, 42, 100);
    assert_eq!(update_points(&mut a, 1_000_000), Ok(()));
    assert_eq!(a, account(0, 42, 1_000_000));
}

#[test]
fn accrual_with_no_time_gone_by_changes_nothing() {
    let mut a = account(1_000, 42, 100);
    assert_eq!(update_points(&mut a, 100), Ok(()));
    assert_eq!(a, account(1_000, 42, 100));
}

#[test]
fn accrual_counts_from_a_negative_time() {
    let mut a = account(2, 0, -86_400);
    assert_eq!(update_points(&mut a, 86_400), Ok(()));
    assert_eq!(a, account(2, 4, 86_400));
}

#[test]
fn accrual_refuses_a_time_before_the_last() {
    let mut a = account(500, 10, 1_000);
    assert_eq!(update_points(&mut a, 999), Err(StakeError::InvalidTimestamp));
    assert_eq!(a, account(500, 10, 1_000));
}

#[test]
fn accrual_refuses_a_span_too_long_to_count() {
    let mut a = account(500, 10, i64::MIN);
    assert_eq!(update_points(&mut a, 0), Err(StakeError::InvalidTimestamp));
    assert_eq!(a, account(500, 10, i64::MIN));

    let mut b = account(0, 10, -1);
    assert_eq!(update_points(&mut b, i64::MAX), Err(StakeError::InvalidTimestamp));
    assert_eq!(b, account(0, 10, -1));

    let mut c = account(0, 10, 0);
    assert_eq!(update_points(&mut c, i64::MAX), Ok(()));
    assert_eq!(c, account(0, 10, i64::MAX));
}

#[test]
fn accrual_refuses_a_total_that_cannot_be_held() {
    let mut a = account(86_400, u64::MAX, 0);
    assert_eq!(update_points(&mut a, 1), Err(StakeError::Overflow));
    assert_eq!(a, account(86_400, u64::MAX, 0));

    let mut b = account(86_400, u64::MAX - 1, 0);
    assert_eq!(update_points(&mut b, 1), Ok(()));
    assert_eq!(b, account(86_400, u64::MAX, 1));
}

#[test]
fn accrual_refuses_points_that_cannot_be_held() {
    let mut a = account(u64::MAX, 0, 0);
    assert_eq!(update_points(&mut a, 86_401), Err(StakeError::Overflow));
    assert_eq!(a, account(u64::MAX, 0, 0));
}

#[test]
fn identities_are_compared_byte_by_byte() {
    let a = [1u8; 32];
    let mut b = [1u8; 32];
    assert!(same_identity(&a, &b));
    b[31] = 2;
    assert!(!same_identity(&a, &b));
    b[31] = 1;
    b[0] = 0;
    assert!(!same_identity(&a, &b));
}
