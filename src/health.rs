//! The health evaluator: collateralization ratios in basis points, computed
//! with double-width intermediates so that `value * 10000` never overflows.

use vstd::prelude::*;

verus! {

/// Basis points in one whole (10000 bps = 100%).
pub const BPS: u64 = 10000;

/// A position's collateral-to-debt ratio in basis points, rounded down;
/// `None` stands for the unbounded ratio of a position without debt.
pub open spec fn ratio_of(collateral_value: int, borrowed_amount: int) -> Option<int> {
    if borrowed_amount == 0 {
        None
    } else {
        Some(collateral_value * 10000 / borrowed_amount)
    }
}

/// The largest debt that `collateral_value` supports at `ratio_bps`.
pub open spec fn max_borrow_of(collateral_value: int, ratio_bps: int) -> int {
    collateral_value * 10000 / ratio_bps
}

/// A debt is covered when the collateral, scaled to basis points, is at least
/// the debt times the required ratio.
pub open spec fn covers(collateral_value: int, borrowed_amount: int, ratio_bps: int) -> bool {
    collateral_value * 10000 >= borrowed_amount * ratio_bps
}

/// For a positive divisor, a floored quotient reaches `c` exactly when the
/// dividend reaches `b * c`.
pub proof fn lemma_floor_div_reaches(a: int, b: int, c: int)
    requires
        a >= 0,
        b > 0,
        c >= 0,
    ensures
        (a / b >= c) <==> (a >= b * c),
{
    let q = a / b;
    let r = a % b;
    vstd::arithmetic::div_mod::lemma_fundamental_div_mod(a, b);
    assert(0 <= r < b) by {
        vstd::arithmetic::div_mod::lemma_mod_bound(a, b);
    }
    if q >= c {
        assert(b * q >= b * c) by (nonlinear_arith)
            requires
                q >= c,
                b > 0,
        ;
    } else {
        assert(b * (q + 1) <= b * c) by (nonlinear_arith)
            requires
                q + 1 <= c,
                b > 0,
        ;
        assert(b * (q + 1) == b * q + b) by (nonlinear_arith);
    }
}

/// A debt fits under the borrow ceiling exactly when it is covered.
pub proof fn lemma_ceiling_is_coverage(collateral_value: int, debt: int, ratio_bps: int)
    requires
        collateral_value >= 0,
        debt >= 0,
        ratio_bps > 0,
    ensures
        (debt <= max_borrow_of(collateral_value, ratio_bps)) <==> covers(
            collateral_value,
            debt,
            ratio_bps,
        ),
{
    assert(collateral_value * 10000 >= 0) by (nonlinear_arith)
        requires
            collateral_value >= 0,
    ;
    // debt <= floor(cv * 10000 / R)  <==>  not (floor(..) >= debt + 1)
    lemma_floor_div_reaches(collateral_value * 10000, ratio_bps, debt + 1);
    lemma_floor_div_reaches(collateral_value * 10000, ratio_bps, debt);
    assert(ratio_bps * (debt + 1) == ratio_bps * debt + ratio_bps) by (nonlinear_arith);
    assert(ratio_bps * debt == debt * ratio_bps) by (nonlinear_arith);
}

/// A position's ratio is at or above `required_bps` exactly when its debt is
/// covered at that ratio; a position without debt always is.
pub proof fn lemma_ratio_meets_requirement(
    collateral_value: int,
    borrowed_amount: int,
    required_bps: int,
)
    requires
        collateral_value >= 0,
        borrowed_amount >= 0,
        required_bps >= 0,
    ensures
        (match ratio_of(collateral_value, borrowed_amount) {
            None => true,
            Some(r) => r >= required_bps,
        }) <==> covers(collateral_value, borrowed_amount, required_bps),
{
    assert(collateral_value * 10000 >= 0) by (nonlinear_arith)
        requires
            collateral_value >= 0,
    ;
    if borrowed_amount > 0 {
        lemma_floor_div_reaches(collateral_value * 10000, borrowed_amount, required_bps);
        assert(borrowed_amount * required_bps == required_bps * borrowed_amount)
            by (nonlinear_arith);
    }
}

/// A 64-bit value scaled to basis points fits in 128 bits.
proof fn lemma_scaled_fits(v: u64)
    ensures
        0 <= v * 10000 <= 0xffff_ffff_ffff_ffff * 10000,
        0xffff_ffff_ffff_ffff * 10000 < u128::MAX,
{
    assert(0 <= v * 10000 <= 0xffff_ffff_ffff_ffff * 10000) by (nonlinear_arith)
        requires
            0 <= v <= 0xffff_ffff_ffff_ffff,
    ;
}

/// The collateralization ratio of a position in basis points, rounded down;
/// `u128::MAX` (no finite ratio reaches it) when nothing is borrowed.
pub fn ratio_bps(collateral_value: u64, borrowed_amount: u64) -> (r: u128)
    ensures
        borrowed_amount == 0 ==> r == u128::MAX,
        borrowed_amount > 0 ==> r == (collateral_value * 10000) / (borrowed_amount as int),
        ratio_of(collateral_value as int, borrowed_amount as int) matches Some(x) ==> r == x,
        r < u128::MAX <==> borrowed_amount > 0,
{
    if borrowed_amount == 0 {
        u128::MAX
    } else {
        proof {
            lemma_scaled_fits(collateral_value);
        }
        let scaled: u128 = (collateral_value as u128) * (BPS as u128);
        let r: u128 = scaled / (borrowed_amount as u128);
        assert(r <= scaled) by {
            vstd::arithmetic::div_mod::lemma_div_is_ordered_by_denominator(
                scaled as int,
                1,
                borrowed_amount as int,
            );
        }
        r
    }
}

/// The borrow ceiling of `collateral_value` at `ratio_bps`, rounded down.
pub fn max_borrow(collateral_value: u64, ratio_bps: u64) -> (r: u128)
    requires
        ratio_bps > 0,
    ensures
        r == max_borrow_of(collateral_value as int, ratio_bps as int),
        r <= collateral_value * 10000,
{
    proof {
        lemma_scaled_fits(collateral_value);
    }
    let scaled: u128 = (collateral_value as u128) * (BPS as u128);
    let r: u128 = scaled / (ratio_bps as u128);
    assert(r <= scaled) by {
        vstd::arithmetic::div_mod::lemma_div_is_ordered_by_denominator(
            scaled as int,
            1,
            ratio_bps as int,
        );
    }
    r
}

/// Whether a debt is covered at the required ratio, decided through the
/// position's ratio as [`ratio_bps`] computes it.
pub fn is_healthy(collateral_value: u64, borrowed_amount: u64, required_bps: u64) -> (r: bool)
    ensures
        r == covers(collateral_value as int, borrowed_amount as int, required_bps as int),
{
    let ratio = ratio_bps(collateral_value, borrowed_amount);
    proof {
        lemma_ratio_meets_requirement(
            collateral_value as int,
            borrowed_amount as int,
            required_bps as int,
        );
    }
    ratio >= required_bps as u128
}

} // verus!
