//! The fixed initial supply of a newly created token.
//!
//! A new token starts with one million whole tokens. The ledger counts in base units, of
//! which a whole token has `10^decimals`, so the initial supply is `1,000,000 * 10^decimals`
//! base units. Base units are held in 64 bits: a precision whose supply does not fit is
//! rejected, never wrapped or saturated.

use vstd::arithmetic::power::{lemma_pow0, lemma_pow_increases, lemma_pow_positive, pow};
use vstd::prelude::*;

verus! {

/// Whole tokens handed to the creator when a token is created.
pub const WHOLE_TOKENS: u64 = 1_000_000;

/// Largest decimal precision whose initial supply still fits in 64 bits.
pub const MAX_DECIMALS: u8 = 13;

/// The initial supply in base units, as a mathematical integer.
pub open spec fn initial_supply_units(decimals: u8) -> int {
    WHOLE_TOKENS * pow(10, decimals as nat)
}

/// Whether the initial supply for `decimals` can be held in 64 bits.
pub open spec fn supply_fits(decimals: u8) -> bool {
    initial_supply_units(decimals) <= u64::MAX
}

/// The supply is never less than the million whole tokens.
pub proof fn lemma_supply_positive(decimals: u8)
    ensures
        initial_supply_units(decimals) >= WHOLE_TOKENS,
{
    lemma_pow_positive(10, decimals as nat);
    assert(WHOLE_TOKENS * pow(10, decimals as nat) >= WHOLE_TOKENS) by (nonlinear_arith)
        requires
            pow(10, decimals as nat) >= 1,
    ;
}

/// Raising the precision by one multiplies the supply by ten.
pub proof fn lemma_supply_step(decimals: u8)
    requires
        decimals < u8::MAX,
    ensures
        initial_supply_units((decimals + 1) as u8) == 10 * initial_supply_units(decimals),
{
    reveal(pow);
    assert(pow(10, (decimals + 1) as nat) == 10 * pow(10, decimals as nat));
    assert(WHOLE_TOKENS * (10 * pow(10, decimals as nat)) == 10 * (WHOLE_TOKENS * pow(
        10,
        decimals as nat,
    ))) by (nonlinear_arith);
}

/// The supply grows with the precision.
pub proof fn lemma_supply_monotonic(low: u8, high: u8)
    requires
        low <= high,
    ensures
        initial_supply_units(low) <= initial_supply_units(high),
{
    lemma_pow_increases(10, low as nat, high as nat);
    assert(WHOLE_TOKENS * pow(10, low as nat) <= WHOLE_TOKENS * pow(10, high as nat))
        by (nonlinear_arith)
        requires
            pow(10, low as nat) <= pow(10, high as nat),
    ;
}

/// The supply fits in 64 bits exactly for precisions up to [`MAX_DECIMALS`].
pub proof fn lemma_supply_fits_iff(decimals: u8)
    ensures
        supply_fits(decimals) <==> decimals <= MAX_DECIMALS,
{
    assert(pow(10, 13) == 10_000_000_000_000int && pow(10, 14) == 100_000_000_000_000int) by {
        reveal_with_fuel(pow, 15);
    }
    if decimals <= MAX_DECIMALS {
        lemma_supply_monotonic(decimals, 13);
    } else {
        lemma_supply_monotonic(14, decimals);
    }
}

/// Computes the initial supply for `decimals`, or `None` where it would overflow 64 bits.
pub fn initial_supply(decimals: u8) -> (supply: Option<u64>)
    ensures
        supply_fits(decimals) <==> supply.is_some(),
        supply matches Some(units) ==> units == initial_supply_units(decimals),
        supply.is_some() <==> decimals <= MAX_DECIMALS,
{
    proof {
        lemma_supply_fits_iff(decimals);
        lemma_pow0(10);
    }
    let mut units: u64 = WHOLE_TOKENS;
    let mut scaled: u8 = 0;
    while scaled < decimals
        invariant
            scaled <= decimals,
            units == initial_supply_units(scaled),
        decreases decimals - scaled,
    {
        proof {
            lemma_supply_step(scaled);
        }
        match units.checked_mul(10) {
            Some(next) => {
                units = next;
            },
            None => {
                proof {
                    lemma_supply_monotonic((scaled + 1) as u8, decimals);
                    lemma_supply_fits_iff(decimals);
                }
                return None;
            },
        }
        scaled = scaled + 1;
    }
    Some(units)
}

} // verus!
