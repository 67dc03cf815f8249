//! Commission arithmetic.
//!
//! All settlement math is integer floor division scaled by basis points
//! (1/10000ths). Truncation favours the paying party: the commission rounds
//! down and the net payout receives the remainder.

use vstd::prelude::*;

verus! {

/// One whole, in basis points: rates are fractions of 10000.
pub const BASIC_POINTS: u64 = 10_000;

/// The commission owed on `amount` at `rate_bp` basis points:
/// `floor(amount * rate_bp / 10000)`.
pub open spec fn commission_of(amount: int, rate_bp: int) -> int {
    amount * rate_bp / (BASIC_POINTS as int)
}

/// What the receiving party keeps of `amount` after commission.
pub open spec fn net_of(amount: int, rate_bp: int) -> int {
    amount - commission_of(amount, rate_bp)
}

/// The commission never exceeds the settled amount, so the commission and
/// the net payout always split the amount exactly: for every `amount` and
/// every rate in `[0, 10000]` basis points,
/// `commission_of + net_of == amount` with both parts in `[0, amount]`.
pub proof fn lemma_settlement_split(amount: u64, rate_bp: u16)
    requires
        rate_bp <= BASIC_POINTS,
    ensures
        0 <= commission_of(amount as int, rate_bp as int) <= amount,
        commission_of(amount as int, rate_bp as int) + net_of(amount as int, rate_bp as int)
            == amount,
        0 <= net_of(amount as int, rate_bp as int) <= amount,
{
    let a = amount as int;
    let r = rate_bp as int;
    assert(0 <= a * r <= a * (BASIC_POINTS as int)) by (nonlinear_arith)
        requires
            0 <= a,
            0 <= r <= BASIC_POINTS as int,
    ;
    assert(0 <= a * r / (BASIC_POINTS as int) <= a) by (nonlinear_arith)
        requires
            0 <= a * r <= a * (BASIC_POINTS as int),
    ;
}

/// Computes `floor(amount * rate_bp / 10000)` exactly, widening to 128 bits
/// so that the product cannot overflow.
pub fn commission_amount(amount: u64, rate_bp: u16) -> (c: u64)
    requires
        rate_bp <= BASIC_POINTS,
    ensures
        c == commission_of(amount as int, rate_bp as int),
        c <= amount,
{
    proof {
        lemma_settlement_split(amount, rate_bp);
        assert(amount as int * rate_bp as int <= u128::MAX as int) by (nonlinear_arith)
            requires
                amount as int <= u64::MAX as int,
                rate_bp as int <= BASIC_POINTS as int,
        ;
    }
    let product: u128 = (amount as u128) * (rate_bp as u128);
    let c: u128 = product / (BASIC_POINTS as u128);
    c as u64
}

} // verus!
