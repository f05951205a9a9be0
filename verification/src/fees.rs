//! Fractional fee rates and the exact arithmetic of taking a cut.
//!
//! Royalty percentages and marketplace fee rates are fractions of one,
//! held as integer parts per million. The cut taken from an amount is the
//! scaled product rounded toward zero, so the cut and the remainder always
//! partition the original amount exactly, with no rounding drift.

use vstd::arithmetic::div_mod::lemma_div_is_ordered;
use vstd::arithmetic::div_mod::lemma_div_multiples_vanish;
use vstd::arithmetic::div_mod::lemma_div_pos_is_pos;
use vstd::arithmetic::mul::lemma_mul_inequality;
use vstd::arithmetic::mul::lemma_mul_nonnegative;
use vstd::arithmetic::mul::lemma_mul_upper_bound;
use vstd::prelude::*;

verus! {

/// One whole, as parts per million: a rate of `RATE_SCALE` is 100%.
pub const RATE_SCALE: u64 = 1_000_000;

/// A fractional rate in [0, 1], held as parts per million.
#[derive(Clone, Copy, PartialEq, Eq, Structural, Debug)]
pub struct Rate {
    pub ppm: u64,
}

impl Rate {
    /// A rate is a fraction of one whole.
    pub open spec fn wf(self) -> bool {
        self.ppm <= RATE_SCALE
    }

    /// Builds a rate from parts per million, rejecting anything over 100%.
    pub fn new(ppm: u64) -> (r: Option<Rate>)
        ensures
            ppm <= RATE_SCALE ==> r == Some(Rate { ppm }),
            ppm > RATE_SCALE ==> r is None,
    {
        if ppm <= RATE_SCALE {
            Some(Rate { ppm })
        } else {
            None
        }
    }

    /// The zero rate: no cut at all.
    pub fn zero() -> (r: Rate)
        ensures
            r == (Rate { ppm: 0u64 }),
            r.wf(),
    {
        Rate { ppm: 0 }
    }
}

/// What a rate of `ppm` parts per million takes from `amount`:
/// the product scaled back down, rounded toward zero.
pub open spec fn fee_int(amount: int, ppm: int) -> int {
    (amount * ppm) / (RATE_SCALE as int)
}

/// A cut at a rate of at most 100% is never negative and never exceeds
/// the amount it is taken from.
pub proof fn lemma_fee_bounds(amount: int, ppm: int)
    requires
        0 <= amount,
        0 <= ppm <= RATE_SCALE,
    ensures
        0 <= fee_int(amount, ppm) <= amount,
{
    let scale = RATE_SCALE as int;
    lemma_mul_nonnegative(amount, ppm);
    lemma_div_pos_is_pos(amount * ppm, scale);
    lemma_mul_inequality(ppm, scale, amount);
    lemma_mul_upper_bound(amount, amount, ppm, scale);
    lemma_div_is_ordered(amount * ppm, amount * scale, scale);
    lemma_div_multiples_vanish(amount, scale);
}

/// The cut and what is left of the amount after it partition the amount
/// exactly: for any amount and any rate in [0, 1], cut plus remainder is
/// the original amount, and the remainder is itself a valid amount.
pub proof fn lemma_fee_remainder_split(amount: int, ppm: int)
    requires
        0 <= amount,
        0 <= ppm <= RATE_SCALE,
    ensures
        fee_int(amount, ppm) + (amount - fee_int(amount, ppm)) == amount,
        0 <= amount - fee_int(amount, ppm) <= amount,
        0 <= fee_int(amount, ppm) <= amount,
{
    lemma_fee_bounds(amount, ppm);
}

/// Takes a rate's cut of an amount, rounding toward zero.
pub fn fee_amount(amount: u64, rate: Rate) -> (f: u64)
    requires
        rate.wf(),
    ensures
        f == fee_int(amount as int, rate.ppm as int),
        f <= amount,
{
    proof {
        lemma_mul_upper_bound(amount as int, u64::MAX as int, rate.ppm as int, u64::MAX as int);
        lemma_fee_bounds(amount as int, rate.ppm as int);
    }
    let wide: u128 = (amount as u128) * (rate.ppm as u128);
    let quotient: u128 = wide / (RATE_SCALE as u128);
    quotient as u64
}

} // verus!
