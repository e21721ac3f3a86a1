//! The least acceptable output of a trade under a slippage tolerance.

use crate::amount::{amount_limit, checked_mul, checked_sub, div, Amount};
use vstd::prelude::*;

verus! {

/// The number of basis points in the whole: a tolerance of this many gives
/// up all protection.
pub const BASIS_POINTS: u64 = 10_000;

/// Why no bound could be computed.
#[derive(Clone, Copy, Debug, PartialEq, Eq, Structural)]
pub enum BoundError {
    /// The tolerance is above 10000 basis points.
    InvalidSlippage,
    /// The expected output times the kept share does not fit in 256 bits.
    Overflow,
}

/// The bound as a matter of arithmetic: the expected output scaled by the
/// share that the tolerance keeps, rounded down; and the two ways in which
/// there is none.
pub open spec fn min_out(expected: nat, slippage_bps: nat) -> Result<nat, BoundError> {
    if slippage_bps > BASIS_POINTS {
        Err(BoundError::InvalidSlippage)
    } else if expected * (BASIS_POINTS - slippage_bps) >= amount_limit() {
        Err(BoundError::Overflow)
    } else {
        Ok((expected * (BASIS_POINTS - slippage_bps) / (BASIS_POINTS as int)) as nat)
    }
}

/// The result of `calculate_minout` with each amount taken as the integer
/// it stands for.
pub open spec fn bound_view(res: Result<Amount, BoundError>) -> Result<nat, BoundError> {
    match res {
        Ok(v) => Ok(v@),
        Err(e) => Err(e),
    }
}

/// Computes the least output to accept when `expected` is the output hoped
/// for and `slippage_bps` the tolerated shortfall in basis points.
///
/// The product is formed in 256 bits before the division: a product that
/// does not fit is reported, never wrapped.
pub fn calculate_minout(expected: Amount, slippage_bps: Amount) -> (res: Result<
    Amount,
    BoundError,
>)
    ensures
        bound_view(res) == min_out(expected@, slippage_bps@),
{
    let whole = Amount::from_u64(BASIS_POINTS);
    let kept = match checked_sub(&whole, &slippage_bps) {
        Some(k) => k,
        None => {
            return Err(BoundError::InvalidSlippage);
        },
    };
    let scaled = match checked_mul(&expected, &kept) {
        Some(p) => p,
        None => {
            return Err(BoundError::Overflow);
        },
    };
    Ok(div(&scaled, &whole))
}

/// With no tolerance the bound is the expected output itself, as long as
/// the expected output times 10000 fits in 256 bits.
pub proof fn lemma_no_slippage_keeps_all(expected: nat)
    requires
        expected * 10_000 < amount_limit(),
    ensures
        min_out(expected, 0) == Ok::<nat, BoundError>(expected),
{
}

/// With a tolerance of 10000 basis points the bound is zero, whatever the
/// expected output.
pub proof fn lemma_full_slippage_keeps_nothing(expected: nat)
    ensures
        min_out(expected, 10_000) == Ok::<nat, BoundError>(0),
{
}

/// For a fixed expected output a larger tolerance never raises the bound:
/// where the smaller tolerance has a bound, so has the larger, and it is no
/// greater.
pub proof fn lemma_bound_falls_with_slippage(expected: nat, low_bps: nat, high_bps: nat)
    requires
        low_bps <= high_bps <= 10_000,
        min_out(expected, low_bps) is Ok,
    ensures
        min_out(expected, high_bps) is Ok,
        min_out(expected, high_bps)->Ok_0 <= min_out(expected, low_bps)->Ok_0,
{
    let low_share = (10_000 - low_bps) as nat;
    let high_share = (10_000 - high_bps) as nat;
    assert(expected * high_share <= expected * low_share) by (nonlinear_arith)
        requires
            high_share <= low_share,
    ;
}

} // verus!
