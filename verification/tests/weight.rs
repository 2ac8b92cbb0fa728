use backstop_manager::errors::BackstopManagerErrors;
use backstop_manager::weight::{claim_share, WEIGHT_SCALE};

#[test]
fn weight_scale_is_ten_million() {
    assert_eq!(WEIGHT_SCALE, 10_000_000);
}

#[test]
fn claim_share_of_eight_tenths() {
    let total: i128 = 79999893651;
    assert_eq!(claim_share(total, 8000000, 10000000), Ok(63999914920));
    assert_eq!(claim_share(total, 8000000, 10000000), Ok(total * 8 / 10));
}

#[test]
fn claim_share_of_a_bootstrap() {
    assert_eq!(claim_share(99999990399, 8000000, WEIGHT_SCALE), Ok(79999992319));
}

#[test]
fn claim_share_rounds_down() {
    assert_eq!(claim_share(10, 3, 10), Ok(3));
    assert_eq!(claim_share(19, 1, 10), Ok(1));
    assert_eq!(claim_share(9, 1, 10), Ok(0));
    assert_eq!(claim_share(1, 9_999_999, WEIGHT_SCALE), Ok(0));
    assert_eq!(claim_share(1, WEIGHT_SCALE, WEIGHT_SCALE), Ok(1));
    assert_eq!(claim_share(0, 8000000, WEIGHT_SCALE), Ok(0));
    assert_eq!(claim_share(12345, 0, WEIGHT_SCALE), Ok(0));
}

#[test]
fn claim_share_rounds_down_below_zero() {
    assert_eq!(claim_share(-10, 3, 10), Ok(-3));
    assert_eq!(claim_share(-9, 1, 10), Ok(-1));
    assert_eq!(claim_share(-1, 1, 10), Ok(-1));
    assert_eq!(claim_share(9, -1, 10), Ok(-1));
    assert_eq!(claim_share(-9, -1, 10), Ok(0));
    assert_eq!(claim_share(-11, 1, 10), Ok(-2));
}

#[test]
fn claim_shares_need_not_add_up() {
    let total: i128 = 101;
    let first = claim_share(total, 5_000_000, WEIGHT_SCALE).unwrap();
    let second = claim_share(total, 5_000_000, WEIGHT_SCALE).unwrap();
    assert_eq!(first, 50);
    assert_eq!(second, 50);
    assert_eq!(first + second, total - 1);
}

#[test]
fn claim_share_refuses_overflow() {
    assert_eq!(claim_share(i128::MAX, 2, WEIGHT_SCALE), Err(BackstopManagerErrors::OverflowError));
    assert_eq!(claim_share(i128::MIN, 2, WEIGHT_SCALE), Err(BackstopManagerErrors::OverflowError));
    assert_eq!(claim_share(i128::MIN, -1, 1), Err(BackstopManagerErrors::OverflowError));
    assert_eq!(
        claim_share(i128::MAX / 2 + 1, 2, WEIGHT_SCALE),
        Err(BackstopManagerErrors::OverflowError)
    );
}

#[test]
fn claim_share_at_the_limits() {
    assert_eq!(claim_share(i128::MAX, 1, 1), Ok(i128::MAX));
    assert_eq!(claim_share(i128::MIN, 1, 1), Ok(i128::MIN));
    assert_eq!(claim_share(i128::MAX / 2, 2, 2), Ok(i128::MAX / 2));
    assert_eq!(claim_share(i128::MAX, 1, i128::MAX), Ok(1));
    assert_eq!(claim_share(i128::MIN, 1, i128::MAX), Ok(-2));
}

#[test]
fn two_shares_of_the_whole_lose_at_most_one() {
    for total in [0i128, 1, 7, 101, 79999893651, 99999990399] {
        for first in [0i128, 1, 2_000_000, 3_333_333, 5_000_000, 8_000_000, 10_000_000] {
            let a = claim_share(total, first, WEIGHT_SCALE).unwrap();
            let b = claim_share(total, WEIGHT_SCALE - first, WEIGHT_SCALE).unwrap();
            assert!(a + b == total || a + b == total - 1);
        }
    }
}
