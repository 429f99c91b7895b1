//! Immutable data loaded once at startup, and the error taxonomy.
//!
//! A [`Config`] is built from externally supplied values, checked once by
//! [`validate_config`], and read-only for the life of the process. Per-tick
//! failures are [`TickError`] values; they never terminate the process.

use crate::decimal::Decimal;
use crate::decimal::MAX_AMOUNT_UNITS;
use crate::decimal::MAX_COST_UNITS;
use vstd::prelude::*;

verus! {

/// One price-quoting source: its display name. The opaque handle used to
/// issue quote requests stays with the unverified shell, which passes this
/// library only the amounts a venue returned.
#[derive(Clone, Debug, PartialEq, Eq)]
pub struct Venue {
    pub name: String,
}

/// The traded pair: token identifiers and their decimal precisions. The base
/// token's precision converts the trade amount into smallest units; the quote
/// token's precision normalizes raw quotes into rates. Mixing the two
/// corrupts comparisons, so each conversion's contract names the one it uses.
#[derive(Clone, Debug, PartialEq, Eq)]
pub struct TradingPair {
    pub base_token: String,
    pub quote_token: String,
    pub base_decimals: u32,
    pub quote_decimals: u32,
}

/// The cost model: the minimum net profit that makes an opportunity
/// actionable, and the flat simulated transaction cost.
#[derive(Clone, Copy, Debug, PartialEq, Eq, Structural)]
pub struct CostModel {
    pub minimum_profit_threshold: Decimal,
    pub simulated_cost: Decimal,
}

/// Everything the process is configured with, immutable after startup.
#[derive(Clone, Debug, PartialEq, Eq)]
pub struct Config {
    /// Whole seconds between ticks; at least one.
    pub check_interval_seconds: u64,
    /// The fixed trade amount moved through both venues in the simulation.
    pub amount_in: Decimal,
    pub pair: TradingPair,
    pub cost_model: CostModel,
    /// The quoting venues, in configured order; at least two are required.
    pub venues: Vec<Venue>,
}

/// A per-tick failure. Both variants abandon the tick; neither is retried
/// within it and neither ends the process.
#[derive(Clone, Copy, Debug, PartialEq, Eq, Structural)]
pub enum TickError {
    /// The quote request to a venue could not be completed, or what came
    /// back was unusable (network failure, revert, malformed response).
    FetchFailure,
    /// A venue answered with fewer than two amounts, or with a zero output
    /// amount — a missing price, not a price of zero.
    QuoteIncomplete,
}

/// A startup failure: the configuration cannot drive the monitor. Fatal;
/// polling must not begin.
#[derive(Clone, Copy, Debug, PartialEq, Eq, Structural)]
pub enum ConfigError {
    ConfigurationInvalid,
}

/// A pair is well formed when both precisions fit the fixed-point scale.
pub open spec fn pair_wf(pair: TradingPair) -> bool {
    pair.base_decimals <= 18 && pair.quote_decimals <= 18
}

/// A cost model is well formed when both figures are small enough for the
/// profit computation to stay within machine integers.
pub open spec fn cost_model_wf(cost_model: CostModel) -> bool {
    cost_model.minimum_profit_threshold.units <= MAX_COST_UNITS
        && cost_model.simulated_cost.units <= MAX_COST_UNITS
}

/// A configuration is well formed when the interval is at least one second,
/// at least two venues are configured, and every numeric field is within the
/// range the evaluator works in.
pub open spec fn config_wf(config: Config) -> bool {
    &&& config.check_interval_seconds >= 1
    &&& config.amount_in.units <= MAX_AMOUNT_UNITS
    &&& pair_wf(config.pair)
    &&& cost_model_wf(config.cost_model)
    &&& config.venues@.len() >= 2
}

/// Accepts exactly the well-formed configurations; any other fails with
/// [`ConfigError::ConfigurationInvalid`] before any polling begins.
pub fn validate_config(config: &Config) -> (r: Result<(), ConfigError>)
    ensures
        r is Ok <==> config_wf(*config),
        r is Err ==> r == Result::<(), ConfigError>::Err(ConfigError::ConfigurationInvalid),
{
    if config.check_interval_seconds >= 1
        && config.amount_in.units <= MAX_AMOUNT_UNITS
        && config.pair.base_decimals <= 18
        && config.pair.quote_decimals <= 18
        && config.cost_model.minimum_profit_threshold.units <= MAX_COST_UNITS
        && config.cost_model.simulated_cost.units <= MAX_COST_UNITS
        && config.venues.len() >= 2
    {
        Ok(())
    } else {
        Err(ConfigError::ConfigurationInvalid)
    }
}

} // verus!
