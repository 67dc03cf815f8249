//! Exact values of the commission arithmetic.

use token_time_lock_agreement::settlement::commission_amount;

#[test]
fn commission_is_floor_of_basis_points() {
    // 1% of 1000
    assert_eq!(commission_amount(1000, 100), 10);
    // 1% of 500
    assert_eq!(commission_amount(500, 100), 5);
    // floor: 2.5% of 99 is 2.475, truncated to 2
    assert_eq!(commission_amount(99, 250), 2);
    // floor favours the payer on tiny amounts
    assert_eq!(commission_amount(1, 9999), 0);
}

#[test]
fn commission_at_rate_bounds() {
    assert_eq!(commission_amount(12345, 0), 0);
    assert_eq!(commission_amount(12345, 10000), 12345);
    assert_eq!(commission_amount(0, 10000), 0);
}

#[test]
fn commission_on_largest_amount_does_not_overflow() {
    assert_eq!(commission_amount(u64::MAX, 10000), u64::MAX);
    assert_eq!(commission_amount(u64::MAX, 5000), u64::MAX / 2);
}

#[test]
fn commission_and_net_split_the_amount_exactly() {
    for rate in [0u16, 1, 99, 100, 2500, 9999, 10000] {
        for amount in [0u64, 1, 7, 999, 1000, 123_456_789] {
            let c = commission_amount(amount, rate);
            assert!(c <= amount);
            assert_eq!(c + (amount - c), amount);
            assert_eq!(c as u128, amount as u128 * rate as u128 / 10000);
        }
    }
}
