//! One polling tick: turn the two venues' fetch results into an outcome.
//!
//! The unverified shell owns the timer and the network: each tick it fetches
//! both venues' quoted amounts (a failed fetch arrives as `None`) and hands
//! them here. The whole decision — extracting the quoted amount, normalizing
//! it, comparing the two rates — is made in this module. If either venue's
//! fetch fails the entire tick is skipped: no partial evaluation and no
//! stale-data fallback, and the next tick starts afresh.

use crate::decimal::Decimal;
use crate::decimal::MAX_AMOUNT_UNITS;
use crate::decimal::MAX_QUOTE;
use crate::decimal::MAX_RATE_UNITS;
use crate::decimal::normalize;
use crate::decimal::rate_units_spec;
use crate::evaluator::OpportunityResult;
use crate::evaluator::evaluate;
use crate::evaluator::evaluate_spec;
use crate::model::CostModel;
use crate::model::TickError;
use crate::model::TradingPair;
use crate::model::Venue;
use crate::model::cost_model_wf;
use vstd::prelude::*;

verus! {

/// What one tick produced: an evaluated opportunity, or the reason the tick
/// was skipped. Each tick's outcome is independent of every other tick's.
#[derive(Clone, Debug, PartialEq, Eq)]
pub enum TickOutcome {
    Evaluated(OpportunityResult),
    Skipped(TickError),
}

/// Extracts the quoted output amount from a venue's answer: the element at
/// index one. Fewer than two amounts, or a zero output, is an incomplete
/// quote — a missing price, never a valid price of zero.
pub fn quote_from_amounts(amounts: &Vec<u128>) -> (r: Result<u128, TickError>)
    ensures
        amounts@.len() >= 2 && amounts@[1] > 0 ==> r == Result::<u128, TickError>::Ok(
            amounts@[1],
        ),
        amounts@.len() < 2 || amounts@[1] == 0 ==> r == Result::<u128, TickError>::Err(
            TickError::QuoteIncomplete,
        ),
{
    if amounts.len() < 2 {
        Err(TickError::QuoteIncomplete)
    } else {
        let amount: u128 = amounts[1];
        if amount == 0 {
            Err(TickError::QuoteIncomplete)
        } else {
            Ok(amount)
        }
    }
}

/// The rate one venue's fetch yields, or why it yields none. A fetch that
/// never completed is a fetch failure; an answer without a usable output
/// amount is an incomplete quote; an amount or rate too large for the
/// fixed-point range is treated as a malformed response, hence a fetch
/// failure.
pub open spec fn venue_rate_spec(fetch: Option<Vec<u128>>, quote_decimals: u32) -> Result<
    int,
    TickError,
> {
    match fetch {
        Option::None => Result::Err(TickError::FetchFailure),
        Option::Some(amounts) => {
            if amounts@.len() < 2 || amounts@[1] == 0 {
                Result::Err(TickError::QuoteIncomplete)
            } else if amounts@[1] > MAX_QUOTE {
                Result::Err(TickError::FetchFailure)
            } else {
                let units = rate_units_spec(amounts@[1], quote_decimals);
                if units > MAX_RATE_UNITS {
                    Result::Err(TickError::FetchFailure)
                } else {
                    Result::Ok(units)
                }
            }
        },
    }
}

/// What [`run_tick`] returns: venue A's failure is reported first, then
/// venue B's; only when both venues yielded a rate is the pair evaluated.
pub open spec fn tick_spec(
    venue_a: Venue,
    venue_b: Venue,
    fetch_a: Option<Vec<u128>>,
    fetch_b: Option<Vec<u128>>,
    quote_decimals: u32,
    amount_in: Decimal,
    cost_model: CostModel,
) -> TickOutcome {
    match venue_rate_spec(fetch_a, quote_decimals) {
        Result::Err(e) => TickOutcome::Skipped(e),
        Result::Ok(units_a) => match venue_rate_spec(fetch_b, quote_decimals) {
            Result::Err(e) => TickOutcome::Skipped(e),
            Result::Ok(units_b) => TickOutcome::Evaluated(
                evaluate_spec(
                    venue_a,
                    venue_b,
                    Decimal { units: units_a as u128 },
                    Decimal { units: units_b as u128 },
                    amount_in,
                    cost_model,
                ),
            ),
        },
    }
}

/// Turns one venue's fetch result into its rate, or the error that skips the
/// tick.
fn venue_rate(fetch: Option<Vec<u128>>, quote_decimals: u32) -> (r: Result<Decimal, TickError>)
    requires
        quote_decimals <= 18,
    ensures
        (match venue_rate_spec(fetch, quote_decimals) {
            Result::Ok(units) => r == Result::<Decimal, TickError>::Ok(
                Decimal { units: units as u128 },
            ),
            Result::Err(e) => r == Result::<Decimal, TickError>::Err(e),
        }),
        r is Ok ==> r->Ok_0.units <= MAX_RATE_UNITS,
{
    match fetch {
        None => Err(TickError::FetchFailure),
        Some(amounts) => match quote_from_amounts(&amounts) {
            Err(e) => Err(e),
            Ok(quote) => {
                if quote > MAX_QUOTE {
                    Err(TickError::FetchFailure)
                } else {
                    let rate: Decimal = normalize(quote, quote_decimals);
                    if rate.units > MAX_RATE_UNITS {
                        Err(TickError::FetchFailure)
                    } else {
                        Ok(rate)
                    }
                }
            },
        },
    }
}

/// Runs the decision half of one polling tick.
///
/// Both venues' fetches are already complete, successfully or not, when this
/// is called; a venue whose fetch failed arrives as `None`. If either venue
/// yields no usable rate the tick is skipped with that venue's error (A
/// checked before B) and nothing is evaluated; otherwise the two rates are
/// evaluated against the cost model. The outcome is a function of this
/// tick's arguments alone: no state survives from one tick to the next.
pub fn run_tick(
    venue_a: Venue,
    venue_b: Venue,
    fetch_a: Option<Vec<u128>>,
    fetch_b: Option<Vec<u128>>,
    pair: &TradingPair,
    amount_in: Decimal,
    cost_model: &CostModel,
) -> (r: TickOutcome)
    requires
        pair.quote_decimals <= 18,
        amount_in.units <= MAX_AMOUNT_UNITS,
        cost_model_wf(*cost_model),
    ensures
        r == tick_spec(
            venue_a,
            venue_b,
            fetch_a,
            fetch_b,
            pair.quote_decimals,
            amount_in,
            *cost_model,
        ),
        fetch_a is None ==> r == TickOutcome::Skipped(TickError::FetchFailure),
        venue_rate_spec(fetch_a, pair.quote_decimals) is Err || venue_rate_spec(
            fetch_b,
            pair.quote_decimals,
        ) is Err ==> r is Skipped,
        venue_rate_spec(fetch_a, pair.quote_decimals) is Ok && venue_rate_spec(
            fetch_b,
            pair.quote_decimals,
        ) is Ok ==> r is Evaluated,
{
    let rate_a: Decimal = match venue_rate(fetch_a, pair.quote_decimals) {
        Err(e) => {
            return TickOutcome::Skipped(e);
        },
        Ok(rate) => rate,
    };
    let rate_b: Decimal = match venue_rate(fetch_b, pair.quote_decimals) {
        Err(e) => {
            return TickOutcome::Skipped(e);
        },
        Ok(rate) => rate,
    };
    TickOutcome::Evaluated(
        evaluate(venue_a, venue_b, rate_a, rate_b, amount_in, cost_model),
    )
}

/// Ticks keep no state: the outcome is a function of the tick's own inputs
/// alone, so two ticks given identical inputs produce identical, independent
/// outcomes — nothing accumulates from one tick into the next.
pub proof fn lemma_tick_isolation(
    first: TickOutcome,
    second: TickOutcome,
    venue_a: Venue,
    venue_b: Venue,
    fetch_a: Option<Vec<u128>>,
    fetch_b: Option<Vec<u128>>,
    quote_decimals: u32,
    amount_in: Decimal,
    cost_model: CostModel,
)
    requires
        first == tick_spec(venue_a, venue_b, fetch_a, fetch_b, quote_decimals, amount_in, cost_model),
        second == tick_spec(
            venue_a,
            venue_b,
            fetch_a,
            fetch_b,
            quote_decimals,
            amount_in,
            cost_model,
        ),
    ensures
        first == second,
{
}

} // verus!
