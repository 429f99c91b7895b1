//! Fixed-point decimal quantities.
//!
//! A [`Decimal`] stores a non-negative decimal quantity as an integer count of
//! `10^-12` units, so twelve fractional digits are carried exactly —
//! comfortably more than the four digits used for reporting.

use vstd::prelude::*;

verus! {

/// Number of `10^-12` units in one whole: a `Decimal` whose `units` equal
/// `SCALE` has the value one.
pub const SCALE: u128 = 1_000_000_000_000;

/// Largest raw quote the normalizer accepts; `MAX_QUOTE * SCALE` still fits
/// in a `u128`.
pub const MAX_QUOTE: u128 = 100_000_000_000_000_000_000_000_000;

/// Largest rate (in `10^-12` units) the evaluator accepts.
pub const MAX_RATE_UNITS: u128 = 100_000_000_000_000_000_000;

/// Largest trade amount (in `10^-12` units) the evaluator accepts; together
/// with [`MAX_RATE_UNITS`] it keeps every profit computation inside `i128`.
pub const MAX_AMOUNT_UNITS: u128 = 100_000_000_000_000_000;

/// Largest cost or threshold (in `10^-12` units) the evaluator accepts.
pub const MAX_COST_UNITS: u128 = 100_000_000_000_000_000_000;

/// A non-negative decimal quantity held as `units` of `10^-12`: the value
/// represented is `units / SCALE`.
#[derive(Clone, Copy, Debug, PartialEq, Eq, Structural)]
pub struct Decimal {
    pub units: u128,
}

/// 10 raised to the power `e`.
pub open spec fn pow10(e: nat) -> nat
    decreases e,
{
    if e == 0 {
        1
    } else {
        10 * pow10((e - 1) as nat)
    }
}

pub proof fn lemma_pow10_pos(e: nat)
    ensures
        pow10(e) >= 1,
    decreases e,
{
    if e > 0 {
        lemma_pow10_pos((e - 1) as nat);
    }
}

pub proof fn lemma_pow10_increases(a: nat, b: nat)
    requires
        a <= b,
    ensures
        pow10(a) <= pow10(b),
    decreases b,
{
    if a < b {
        lemma_pow10_increases(a, (b - 1) as nat);
        lemma_pow10_pos((b - 1) as nat);
    }
}

pub proof fn lemma_pow10_18_value()
    ensures
        pow10(18) == 1_000_000_000_000_000_000,
{
    reveal_with_fuel(pow10, 19);
}

/// 10 to the power `e`, for the small exponents that serve as token decimal
/// precisions.
pub fn pow10_u128(e: u32) -> (r: u128)
    requires
        e <= 18,
    ensures
        r == pow10(e as nat),
{
    let mut i: u32 = 0;
    let mut acc: u128 = 1;
    while i < e
        invariant
            i <= e,
            e <= 18,
            acc == pow10(i as nat),
        decreases e - i,
    {
        proof {
            lemma_pow10_increases((i + 1) as nat, 18);
            lemma_pow10_18_value();
        }
        acc = acc * 10;
        i = i + 1;
    }
    acc
}

/// The units of the normalized rate for raw quote `q` at `d` fractional
/// digits: the integer part of `q / 10^d`, taken at scale [`SCALE`].
pub open spec fn rate_units_spec(q: u128, d: u32) -> int {
    (q * SCALE) / (pow10(d as nat) as int)
}

/// Converts a venue's raw integer quote into a comparable rate: the quote
/// divided by `10^quote_decimals`, held as a [`Decimal`]. The divisor uses
/// the quote token's precision; the matching conversion of a trade amount
/// into base units ([`to_base_units`]) uses the base token's precision.
pub fn normalize(raw_quote: u128, quote_decimals: u32) -> (r: Decimal)
    requires
        quote_decimals <= 18,
        raw_quote <= MAX_QUOTE,
    ensures
        r.units == rate_units_spec(raw_quote, quote_decimals),
{
    let divisor: u128 = pow10_u128(quote_decimals);
    proof {
        lemma_pow10_pos(quote_decimals as nat);
        lemma_pow10_increases(quote_decimals as nat, 18);
        lemma_pow10_18_value();
    }
    Decimal { units: (raw_quote * SCALE) / divisor }
}

/// Converts a configured trade amount into the base token's smallest unit:
/// `amount * 10^base_decimals`, rounded toward zero. Mirrors the normalizer:
/// this conversion uses the base token's precision, never the quote token's.
pub fn to_base_units(amount: Decimal, base_decimals: u32) -> (r: u128)
    requires
        base_decimals <= 18,
        amount.units <= MAX_AMOUNT_UNITS,
    ensures
        r == (amount.units * pow10(base_decimals as nat)) / (SCALE as int),
{
    let factor: u128 = pow10_u128(base_decimals);
    proof {
        lemma_pow10_pos(base_decimals as nat);
        lemma_pow10_increases(base_decimals as nat, 18);
        lemma_pow10_18_value();
        vstd::arithmetic::mul::lemma_mul_upper_bound(
            amount.units as int,
            MAX_AMOUNT_UNITS as int,
            factor as int,
            1_000_000_000_000_000_000,
        );
    }
    (amount.units * factor) / SCALE
}

/// Normalization is exact to within one `10^-12` unit: the computed units,
/// multiplied back by the divisor `10^d`, bracket `q * SCALE` within one
/// divisor. Read at scale [`SCALE`], the returned rate therefore differs
/// from the true quotient `q / 10^d` by less than `10^-12`.
pub proof fn lemma_normalize_error_bound(q: u128, d: u32)
    requires
        d <= 18,
    ensures
        rate_units_spec(q, d) >= 0,
        rate_units_spec(q, d) * (pow10(d as nat) as int) <= q * SCALE,
        q * SCALE < (rate_units_spec(q, d) + 1) * (pow10(d as nat) as int),
{
    let x = q * SCALE;
    let den = pow10(d as nat) as int;
    lemma_pow10_pos(d as nat);
    vstd::arithmetic::div_mod::lemma_fundamental_div_mod(x, den);
    vstd::arithmetic::div_mod::lemma_mod_bound(x, den);
    vstd::arithmetic::div_mod::lemma_div_pos_is_pos(x, den);
    assert((rate_units_spec(q, d) + 1) * den == rate_units_spec(q, d) * den + den)
        by (nonlinear_arith);
    assert(rate_units_spec(q, d) * den == den * rate_units_spec(q, d)) by (nonlinear_arith);
}

} // verus!
