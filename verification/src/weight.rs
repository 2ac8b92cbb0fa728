//! The share of a pooled amount that falls to a weight.

use vstd::prelude::*;
use crate::errors::BackstopManagerErrors;

verus! {

/// The base that the liquidity pool normalizes its token weights to: a
/// weight of `WEIGHT_SCALE` is the whole pool.
pub const WEIGHT_SCALE: i128 = 10_000_000;

/// The share of `total_pooled_amount` that falls to a weight of
/// `normalized_weight` out of `weight_scale`, rounded down.
pub open spec fn spec_claim_share(
    total_pooled_amount: int,
    normalized_weight: int,
    weight_scale: int,
) -> int {
    (total_pooled_amount * normalized_weight) / weight_scale
}

/// The share is the floor of the exact quotient: the largest amount whose
/// multiple by the scale does not exceed the weighted total.
pub proof fn lemma_claim_share_is_floor(
    total_pooled_amount: int,
    normalized_weight: int,
    weight_scale: int,
)
    requires
        weight_scale > 0,
    ensures
        spec_claim_share(total_pooled_amount, normalized_weight, weight_scale) * weight_scale
            <= total_pooled_amount * normalized_weight,
        total_pooled_amount * normalized_weight < (spec_claim_share(
            total_pooled_amount,
            normalized_weight,
            weight_scale,
        ) + 1) * weight_scale,
{
    let p = total_pooled_amount * normalized_weight;
    assert((p / weight_scale) * weight_scale <= p < (p / weight_scale + 1) * weight_scale)
        by (nonlinear_arith)
        requires
            weight_scale > 0,
    ;
}

/// Shares are not reconciled: the shares of two weights that make up the
/// whole scale add up to the total or to one less, never to more.
pub proof fn lemma_claim_shares_lose_at_most_one(
    total_pooled_amount: int,
    first_weight: int,
    second_weight: int,
    weight_scale: int,
)
    requires
        weight_scale > 0,
        first_weight + second_weight == weight_scale,
    ensures
        total_pooled_amount - 1 <= spec_claim_share(
            total_pooled_amount,
            first_weight,
            weight_scale,
        ) + spec_claim_share(total_pooled_amount, second_weight, weight_scale)
            <= total_pooled_amount,
{
    let a = total_pooled_amount * first_weight;
    let b = total_pooled_amount * second_weight;
    assert(a + b == total_pooled_amount * weight_scale) by (nonlinear_arith)
        requires
            a == total_pooled_amount * first_weight,
            b == total_pooled_amount * second_weight,
            first_weight + second_weight == weight_scale,
    ;
    lemma_claim_share_is_floor(total_pooled_amount, first_weight, weight_scale);
    lemma_claim_share_is_floor(total_pooled_amount, second_weight, weight_scale);
    let x = a / weight_scale;
    let y = b / weight_scale;
    assert((x + 1) * weight_scale == x * weight_scale + weight_scale) by (nonlinear_arith);
    assert((y + 1) * weight_scale == y * weight_scale + weight_scale) by (nonlinear_arith);
    assert((x + y) * weight_scale == x * weight_scale + y * weight_scale) by (nonlinear_arith);
    assert((x + y + 2) * weight_scale == x * weight_scale + y * weight_scale + 2 * weight_scale)
        by (nonlinear_arith);
    assert(x + y <= total_pooled_amount) by (nonlinear_arith)
        requires
            (x + y) * weight_scale <= total_pooled_amount * weight_scale,
            weight_scale > 0,
    ;
    assert(total_pooled_amount < x + y + 2) by (nonlinear_arith)
        requires
            total_pooled_amount * weight_scale < (x + y + 2) * weight_scale,
            weight_scale > 0,
    ;
}

/// A quotient by a positive divisor lies between zero and the dividend.
proof fn lemma_quotient_within_dividend(p: int, d: int)
    requires
        d > 0,
    ensures
        p >= 0 ==> 0 <= p / d <= p,
        p < 0 ==> p <= p / d < 0,
{
    assert(p >= 0 ==> 0 <= p / d <= p) by (nonlinear_arith)
        requires
            d > 0,
    ;
    assert(p < 0 ==> p <= p / d < 0) by (nonlinear_arith)
        requires
            d > 0,
    ;
}

/// Computes the share of `total_pooled_amount` that falls to
/// `normalized_weight` out of `weight_scale`, rounded down.
///
/// The weighted total is formed in 128 bits; where it does not fit, the
/// share is refused with `OverflowError`.
pub fn claim_share(
    total_pooled_amount: i128,
    normalized_weight: i128,
    weight_scale: i128,
) -> (share: Result<i128, BackstopManagerErrors>)
    requires
        weight_scale > 0,
    ensures
        match share {
            Ok(amount) => {
                &&& i128::MIN <= total_pooled_amount * normalized_weight <= i128::MAX
                &&& amount == spec_claim_share(
                    total_pooled_amount as int,
                    normalized_weight as int,
                    weight_scale as int,
                )
            },
            Err(e) => {
                &&& e == BackstopManagerErrors::OverflowError
                &&& !(i128::MIN <= total_pooled_amount * normalized_weight <= i128::MAX)
            },
        },
{
    match total_pooled_amount.checked_mul(normalized_weight) {
        None => Err(BackstopManagerErrors::OverflowError),
        Some(weighted) => {
            proof {
                lemma_quotient_within_dividend(weighted as int, weight_scale as int);
            }
            match weighted.checked_div_euclid(weight_scale) {
                Some(amount) => Ok(amount),
                None => {
                    proof {
                        assert(false);
                    }
                    Err(BackstopManagerErrors::InternalError)
                },
            }
        },
    }
}

} // verus!
