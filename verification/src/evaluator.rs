//! The opportunity evaluator: direction selection and the profit formula.
//!
//! Rates and amounts are fixed-point at scale `10^-12`
//! ([`crate::decimal::SCALE`]); profits multiply two such quantities and are
//! therefore fixed-point at scale `10^-24`, held exactly — no rounding
//! happens anywhere in the evaluation.

use crate::decimal::Decimal;
use crate::decimal::MAX_AMOUNT_UNITS;
use crate::decimal::MAX_COST_UNITS;
use crate::decimal::MAX_RATE_UNITS;
use crate::decimal::SCALE;
use crate::model::CostModel;
use crate::model::Venue;
use vstd::prelude::*;

verus! {

/// The outcome of comparing two venues' rates on one tick: which side to buy
/// and sell, the two rates, and the profit figures. `gross_units` and
/// `net_units` are at scale `10^-24` (the product of two `10^-12` scales).
/// Produced fresh each tick and never accumulated.
#[derive(Clone, Debug, PartialEq, Eq)]
pub struct OpportunityResult {
    pub buy_venue: Venue,
    pub sell_venue: Venue,
    pub buy_rate: Decimal,
    pub sell_rate: Decimal,
    /// `(sell_rate - buy_rate) * amount_in`, exact, at scale `10^-24`.
    pub gross_units: u128,
    /// `gross - simulated_cost`, exact, at scale `10^-24`; may be negative.
    pub net_units: i128,
    /// Whether the net profit strictly exceeds the configured threshold.
    pub actionable: bool,
}

/// Gross profit in `10^-24` units: the rate spread times the trade amount.
pub open spec fn gross_units_spec(buy_units: int, sell_units: int, amount_units: int) -> int {
    (sell_units - buy_units) * amount_units
}

/// Net profit in `10^-24` units: gross minus the simulated cost (a `10^-12`
/// quantity, re-scaled by [`SCALE`] to match).
pub open spec fn net_units_spec(gross_units: int, cost_units: int) -> int {
    gross_units - cost_units * SCALE
}

/// An opportunity is actionable exactly when net profit strictly exceeds the
/// threshold; equality is not enough.
pub open spec fn actionable_spec(net_units: int, threshold_units: int) -> bool {
    net_units > threshold_units * SCALE
}

/// The result with buy and sell sides already chosen.
pub open spec fn opportunity_of(
    buy_venue: Venue,
    sell_venue: Venue,
    buy_rate: Decimal,
    sell_rate: Decimal,
    amount_in: Decimal,
    cost_model: CostModel,
) -> OpportunityResult {
    let gross = gross_units_spec(buy_rate.units as int, sell_rate.units as int, amount_in.units as int);
    let net = net_units_spec(gross, cost_model.simulated_cost.units as int);
    OpportunityResult {
        buy_venue: buy_venue,
        sell_venue: sell_venue,
        buy_rate: buy_rate,
        sell_rate: sell_rate,
        gross_units: gross as u128,
        net_units: net as i128,
        actionable: actionable_spec(net, cost_model.minimum_profit_threshold.units as int),
    }
}

/// What [`evaluate`] returns: the venue with the strictly lower rate is the
/// buy side; on a tie, the first venue sells and the second buys.
pub open spec fn evaluate_spec(
    venue_a: Venue,
    venue_b: Venue,
    rate_a: Decimal,
    rate_b: Decimal,
    amount_in: Decimal,
    cost_model: CostModel,
) -> OpportunityResult {
    if rate_a.units < rate_b.units {
        opportunity_of(venue_a, venue_b, rate_a, rate_b, amount_in, cost_model)
    } else {
        opportunity_of(venue_b, venue_a, rate_b, rate_a, amount_in, cost_model)
    }
}

/// Compares the two venues' rates and evaluates the profit formula.
///
/// The venue with the strictly lower rate is bought on, the other sold on;
/// equal rates deterministically make the first venue the sell side. Gross
/// profit is the spread times the trade amount, net profit subtracts the
/// simulated cost, and the result is actionable exactly when net profit
/// strictly exceeds the threshold. Pure: the result is a function of the
/// arguments alone.
pub fn evaluate(
    venue_a: Venue,
    venue_b: Venue,
    rate_a: Decimal,
    rate_b: Decimal,
    amount_in: Decimal,
    cost_model: &CostModel,
) -> (r: OpportunityResult)
    requires
        rate_a.units <= MAX_RATE_UNITS,
        rate_b.units <= MAX_RATE_UNITS,
        amount_in.units <= MAX_AMOUNT_UNITS,
        cost_model.simulated_cost.units <= MAX_COST_UNITS,
        cost_model.minimum_profit_threshold.units <= MAX_COST_UNITS,
    ensures
        r == evaluate_spec(venue_a, venue_b, rate_a, rate_b, amount_in, *cost_model),
        rate_a.units < rate_b.units ==> r.buy_venue == venue_a && r.sell_venue == venue_b
            && r.buy_rate == rate_a && r.sell_rate == rate_b,
        rate_a.units >= rate_b.units ==> r.buy_venue == venue_b && r.sell_venue == venue_a
            && r.buy_rate == rate_b && r.sell_rate == rate_a,
        r.buy_rate.units <= r.sell_rate.units,
        r.gross_units == gross_units_spec(
            r.buy_rate.units as int,
            r.sell_rate.units as int,
            amount_in.units as int,
        ),
        r.net_units == net_units_spec(
            r.gross_units as int,
            cost_model.simulated_cost.units as int,
        ),
        r.actionable == actionable_spec(
            r.net_units as int,
            cost_model.minimum_profit_threshold.units as int,
        ),
{
    let (buy_venue, sell_venue, buy_rate, sell_rate) = if rate_a.units < rate_b.units {
        (venue_a, venue_b, rate_a, rate_b)
    } else {
        (venue_b, venue_a, rate_b, rate_a)
    };
    let spread: u128 = sell_rate.units - buy_rate.units;
    proof {
        vstd::arithmetic::mul::lemma_mul_upper_bound(
            spread as int,
            MAX_RATE_UNITS as int,
            amount_in.units as int,
            MAX_AMOUNT_UNITS as int,
        );
    }
    let gross: u128 = spread * amount_in.units;
    let cost_scaled: u128 = cost_model.simulated_cost.units * SCALE;
    let net: i128 = (gross as i128) - (cost_scaled as i128);
    let threshold_scaled: i128 = (cost_model.minimum_profit_threshold.units * SCALE) as i128;
    let actionable: bool = net > threshold_scaled;
    OpportunityResult {
        buy_venue,
        sell_venue,
        buy_rate,
        sell_rate,
        gross_units: gross,
        net_units: net,
        actionable,
    }
}

/// The buy side of an ordered rate list: the position of the lowest rate.
/// When several venues tie, the last of them is chosen — on two venues this
/// is exactly [`evaluate`]'s tie-break, which makes the second venue the buy
/// side.
pub fn best_buy_index(rates: &Vec<Decimal>) -> (best: usize)
    requires
        rates@.len() >= 1,
    ensures
        best < rates@.len(),
        forall|j: int| 0 <= j < rates@.len() ==> rates@[best as int].units <= rates@[j].units,
        forall|j: int| best < j < rates@.len() ==> rates@[best as int].units < rates@[j].units,
{
    let mut best: usize = 0;
    let mut i: usize = 1;
    while i < rates.len()
        invariant
            1 <= i <= rates@.len(),
            best < i,
            forall|j: int| 0 <= j < i ==> rates@[best as int].units <= rates@[j].units,
            forall|j: int| best < j < i ==> rates@[best as int].units < rates@[j].units,
        decreases rates@.len() - i,
    {
        if rates[i].units <= rates[best].units {
            best = i;
        }
        i = i + 1;
    }
    best
}

/// The sell side of an ordered rate list: the position of the highest rate.
/// When several venues tie, the first of them is chosen — on two venues this
/// is exactly [`evaluate`]'s tie-break, which makes the first venue the sell
/// side.
pub fn best_sell_index(rates: &Vec<Decimal>) -> (best: usize)
    requires
        rates@.len() >= 1,
    ensures
        best < rates@.len(),
        forall|j: int| 0 <= j < rates@.len() ==> rates@[j].units <= rates@[best as int].units,
        forall|j: int| 0 <= j < best ==> rates@[j].units < rates@[best as int].units,
{
    let mut best: usize = 0;
    let mut i: usize = 1;
    while i < rates.len()
        invariant
            1 <= i <= rates@.len(),
            best < i,
            forall|j: int| 0 <= j < i ==> rates@[j].units <= rates@[best as int].units,
            forall|j: int| 0 <= j < best ==> rates@[j].units < rates@[best as int].units,
        decreases rates@.len() - i,
    {
        if rates[i].units > rates[best].units {
            best = i;
        }
        i = i + 1;
    }
    best
}

/// Widening the spread while the trade amount and cost stay fixed strictly
/// increases both the gross and the net profit, for any positive amount.
pub proof fn lemma_profit_monotonic(
    buy1: int,
    sell1: int,
    buy2: int,
    sell2: int,
    amount: int,
    cost: int,
)
    requires
        sell1 - buy1 < sell2 - buy2,
        amount >= 1,
    ensures
        gross_units_spec(buy1, sell1, amount) < gross_units_spec(buy2, sell2, amount),
        net_units_spec(gross_units_spec(buy1, sell1, amount), cost)
            < net_units_spec(gross_units_spec(buy2, sell2, amount), cost),
{
    assert((sell1 - buy1) * amount < (sell2 - buy2) * amount) by (nonlinear_arith)
        requires
            sell1 - buy1 < sell2 - buy2,
            amount >= 1,
    ;
}

/// A net profit exactly equal to the threshold is not actionable; one
/// `10^-24` unit above it is.
pub proof fn lemma_threshold_boundary(threshold_units: int)
    ensures
        !actionable_spec(threshold_units * SCALE, threshold_units),
        actionable_spec(threshold_units * SCALE + 1, threshold_units),
{
}

} // verus!
