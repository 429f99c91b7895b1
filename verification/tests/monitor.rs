use arb_monitor::decimal::normalize;
use arb_monitor::decimal::pow10_u128;
use arb_monitor::decimal::to_base_units;
use arb_monitor::decimal::Decimal;
use arb_monitor::evaluator::best_buy_index;
use arb_monitor::evaluator::best_sell_index;
use arb_monitor::evaluator::evaluate;
use arb_monitor::evaluator::OpportunityResult;
use arb_monitor::model::Config;
use arb_monitor::model::ConfigError;
use arb_monitor::model::CostModel;
use arb_monitor::model::TickError;
use arb_monitor::model::TradingPair;
use arb_monitor::model::validate_config;
use arb_monitor::model::Venue;
use arb_monitor::tick::quote_from_amounts;
use arb_monitor::tick::run_tick;
use arb_monitor::tick::TickOutcome;

const SCALE: u128 = 1_000_000_000_000;
const PROFIT_SCALE: u128 = SCALE * SCALE;

fn dec(units: u128) -> Decimal {
    Decimal { units }
}

fn whole(n: u128) -> Decimal {
    Decimal { units: n * SCALE }
}

fn venue(name: &str) -> Venue {
    Venue { name: name.to_string() }
}

fn pair() -> TradingPair {
    TradingPair {
        base_token: "WETH".to_string(),
        quote_token: "USDC".to_string(),
        base_decimals: 18,
        quote_decimals: 6,
    }
}

fn cost_model(cost_units: u128, threshold_units: u128) -> CostModel {
    CostModel {
        minimum_profit_threshold: dec(threshold_units),
        simulated_cost: dec(cost_units),
    }
}

fn config_with(venues: Vec<Venue>, interval: u64) -> Config {
    Config {
        check_interval_seconds: interval,
        amount_in: whole(1),
        pair: pair(),
        cost_model: cost_model(2 * SCALE, SCALE),
        venues,
    }
}

#[test]
fn pow10_small_values() {
    assert_eq!(pow10_u128(0), 1);
    assert_eq!(pow10_u128(1), 10);
    assert_eq!(pow10_u128(6), 1_000_000);
    assert_eq!(pow10_u128(18), 1_000_000_000_000_000_000);
}

#[test]
fn normalize_exact_six_decimals() {
    // 1800.000000 quote units at 6 decimals is the rate 1800.
    let r = normalize(1_800_000_000, 6);
    assert_eq!(r.units, 1800 * SCALE);
}

#[test]
fn normalize_zero_decimals() {
    let r = normalize(7, 0);
    assert_eq!(r.units, 7 * SCALE);
}

#[test]
fn normalize_keeps_fractional_digits() {
    // 1805.500000 at 6 decimals keeps the half exactly.
    let r = normalize(1_805_500_000, 6);
    assert_eq!(r.units, 1_805_500_000_000_000);
}

#[test]
fn normalize_floors_below_scale() {
    // One quote unit at 18 decimals is 10^-18, below the 10^-12 scale.
    let r = normalize(1, 18);
    assert_eq!(r.units, 0);
    // 10^6 quote units at 18 decimals is exactly one 10^-12 unit.
    let r = normalize(1_000_000, 18);
    assert_eq!(r.units, 1);
}

#[test]
fn to_base_units_whole_amount() {
    assert_eq!(to_base_units(whole(1), 18), 1_000_000_000_000_000_000);
}

#[test]
fn to_base_units_fractional_amount() {
    // 0.5 of a token with 6 base decimals is 500000 smallest units.
    assert_eq!(to_base_units(dec(SCALE / 2), 6), 500_000);
}

#[test]
fn direction_lower_rate_is_buy_side() {
    let r = evaluate(
        venue("A"),
        venue("B"),
        whole(1800),
        whole(1805),
        whole(1),
        &cost_model(0, 0),
    );
    assert_eq!(r.buy_venue, venue("A"));
    assert_eq!(r.sell_venue, venue("B"));
    assert_eq!(r.buy_rate, whole(1800));
    assert_eq!(r.sell_rate, whole(1805));
}

#[test]
fn direction_reversed_when_second_venue_cheaper() {
    let r = evaluate(
        venue("A"),
        venue("B"),
        whole(1805),
        whole(1800),
        whole(1),
        &cost_model(0, 0),
    );
    assert_eq!(r.buy_venue, venue("B"));
    assert_eq!(r.sell_venue, venue("A"));
}

#[test]
fn direction_tie_sells_on_first_venue() {
    let r = evaluate(
        venue("A"),
        venue("B"),
        whole(1800),
        whole(1800),
        whole(1),
        &cost_model(0, 0),
    );
    assert_eq!(r.buy_venue, venue("B"));
    assert_eq!(r.sell_venue, venue("A"));
    assert_eq!(r.gross_units, 0);
    assert!(!r.actionable);
}

#[test]
fn concrete_actionable_scenario() {
    // amount 1.0, rates 1800.0000 and 1805.5000, cost 2.0, threshold 1.0.
    let r = evaluate(
        venue("A"),
        venue("B"),
        whole(1800),
        dec(1_805_500_000_000_000),
        whole(1),
        &cost_model(2 * SCALE, SCALE),
    );
    assert_eq!(r.buy_venue, venue("A"));
    assert_eq!(r.sell_venue, venue("B"));
    // gross 5.5, net 3.5, at the 10^-24 profit scale.
    assert_eq!(r.gross_units, 55 * PROFIT_SCALE / 10);
    assert_eq!(r.net_units, (35 * PROFIT_SCALE / 10) as i128);
    assert!(r.actionable);
}

#[test]
fn concrete_not_actionable_scenario() {
    // Same rates but cost 5.0: net 0.5 is below the threshold 1.0.
    let r = evaluate(
        venue("A"),
        venue("B"),
        whole(1800),
        dec(1_805_500_000_000_000),
        whole(1),
        &cost_model(5 * SCALE, SCALE),
    );
    assert_eq!(r.net_units, (PROFIT_SCALE / 2) as i128);
    assert!(!r.actionable);
}

#[test]
fn threshold_equality_is_not_actionable() {
    // Spread 1.0 on amount 1.0 with no cost: net equals the threshold 1.0.
    let r = evaluate(
        venue("A"),
        venue("B"),
        whole(1800),
        whole(1801),
        whole(1),
        &cost_model(0, SCALE),
    );
    assert_eq!(r.net_units, PROFIT_SCALE as i128);
    assert!(!r.actionable);
}

#[test]
fn threshold_one_unit_above_is_actionable() {
    // A spread of one 10^-12 unit on the smallest amount puts net exactly
    // one 10^-24 unit above a zero threshold.
    let r = evaluate(
        venue("A"),
        venue("B"),
        dec(1_000_000_000_000),
        dec(1_000_000_000_001),
        dec(1),
        &cost_model(0, 0),
    );
    assert_eq!(r.net_units, 1);
    assert!(r.actionable);
}

#[test]
fn wider_spread_strictly_increases_profit() {
    let narrow = evaluate(
        venue("A"),
        venue("B"),
        whole(1800),
        whole(1803),
        whole(2),
        &cost_model(SCALE, 0),
    );
    let wide = evaluate(
        venue("A"),
        venue("B"),
        whole(1800),
        whole(1804),
        whole(2),
        &cost_model(SCALE, 0),
    );
    assert!(narrow.gross_units < wide.gross_units);
    assert!(narrow.net_units < wide.net_units);
}

#[test]
fn quote_needs_two_amounts() {
    assert_eq!(
        quote_from_amounts(&vec![5u128]),
        Err(TickError::QuoteIncomplete)
    );
    assert_eq!(quote_from_amounts(&vec![]), Err(TickError::QuoteIncomplete));
}

#[test]
fn quote_zero_output_is_incomplete() {
    assert_eq!(
        quote_from_amounts(&vec![5u128, 0u128]),
        Err(TickError::QuoteIncomplete)
    );
}

#[test]
fn quote_takes_second_amount() {
    assert_eq!(quote_from_amounts(&vec![5u128, 9u128, 4u128]), Ok(9));
}

#[test]
fn tick_evaluates_when_both_venues_answer() {
    let out = run_tick(
        venue("A"),
        venue("B"),
        Some(vec![10u128.pow(18), 1_800_000_000]),
        Some(vec![10u128.pow(18), 1_805_500_000]),
        &pair(),
        whole(1),
        &cost_model(2 * SCALE, SCALE),
    );
    match out {
        TickOutcome::Evaluated(r) => {
            assert_eq!(r.buy_venue, venue("A"));
            assert_eq!(r.sell_venue, venue("B"));
            assert_eq!(r.gross_units, 55 * PROFIT_SCALE / 10);
            assert!(r.actionable);
        }
        TickOutcome::Skipped(e) => panic!("tick skipped: {:?}", e),
    }
}

#[test]
fn tick_skipped_when_first_venue_fails() {
    // Venue A's fetch failed, venue B's succeeded: no result, one failure.
    let out = run_tick(
        venue("A"),
        venue("B"),
        None,
        Some(vec![10u128.pow(18), 1_805_500_000]),
        &pair(),
        whole(1),
        &cost_model(2 * SCALE, SCALE),
    );
    assert_eq!(out, TickOutcome::Skipped(TickError::FetchFailure));
}

#[test]
fn tick_skipped_when_second_venue_fails() {
    let out = run_tick(
        venue("A"),
        venue("B"),
        Some(vec![10u128.pow(18), 1_800_000_000]),
        None,
        &pair(),
        whole(1),
        &cost_model(2 * SCALE, SCALE),
    );
    assert_eq!(out, TickOutcome::Skipped(TickError::FetchFailure));
}

#[test]
fn tick_skipped_on_incomplete_quote() {
    let out = run_tick(
        venue("A"),
        venue("B"),
        Some(vec![10u128.pow(18)]),
        Some(vec![10u128.pow(18), 1_805_500_000]),
        &pair(),
        whole(1),
        &cost_model(2 * SCALE, SCALE),
    );
    assert_eq!(out, TickOutcome::Skipped(TickError::QuoteIncomplete));
}

#[test]
fn tick_skipped_on_zero_quote() {
    let out = run_tick(
        venue("A"),
        venue("B"),
        Some(vec![10u128.pow(18), 0u128]),
        Some(vec![10u128.pow(18), 1_805_500_000]),
        &pair(),
        whole(1),
        &cost_model(2 * SCALE, SCALE),
    );
    assert_eq!(out, TickOutcome::Skipped(TickError::QuoteIncomplete));
}

#[test]
fn tick_skipped_on_oversized_quote() {
    // A quote beyond the representable range reads as a malformed response.
    let out = run_tick(
        venue("A"),
        venue("B"),
        Some(vec![10u128.pow(18), u128::MAX]),
        Some(vec![10u128.pow(18), 1_805_500_000]),
        &pair(),
        whole(1),
        &cost_model(2 * SCALE, SCALE),
    );
    assert_eq!(out, TickOutcome::Skipped(TickError::FetchFailure));
}

#[test]
fn identical_ticks_produce_identical_outcomes() {
    let run = || {
        run_tick(
            venue("A"),
            venue("B"),
            Some(vec![10u128.pow(18), 1_800_000_000]),
            Some(vec![10u128.pow(18), 1_805_500_000]),
            &pair(),
            whole(1),
            &cost_model(2 * SCALE, SCALE),
        )
    };
    let first = run();
    let second = run();
    assert_eq!(first, second);
    // No accumulation across ticks: the second tick reports the same
    // profit, not a running total.
    match (first, second) {
        (TickOutcome::Evaluated(a), TickOutcome::Evaluated(b)) => {
            assert_eq!(a.net_units, b.net_units);
        }
        _ => panic!("both ticks should evaluate"),
    }
}

#[test]
fn tick_after_failure_proceeds_normally() {
    let failed = run_tick(
        venue("A"),
        venue("B"),
        None,
        Some(vec![10u128.pow(18), 1_805_500_000]),
        &pair(),
        whole(1),
        &cost_model(2 * SCALE, SCALE),
    );
    assert_eq!(failed, TickOutcome::Skipped(TickError::FetchFailure));
    // The next tick carries nothing over from the failed one.
    let next = run_tick(
        venue("A"),
        venue("B"),
        Some(vec![10u128.pow(18), 1_800_000_000]),
        Some(vec![10u128.pow(18), 1_805_500_000]),
        &pair(),
        whole(1),
        &cost_model(2 * SCALE, SCALE),
    );
    assert!(matches!(next, TickOutcome::Evaluated(_)));
}

#[test]
fn best_buy_picks_lowest_rate() {
    let rates = vec![whole(1805), whole(1800), whole(1803)];
    assert_eq!(best_buy_index(&rates), 1);
}

#[test]
fn best_sell_picks_highest_rate() {
    let rates = vec![whole(1805), whole(1800), whole(1803)];
    assert_eq!(best_sell_index(&rates), 0);
}

#[test]
fn scan_tie_break_matches_two_venue_rule() {
    // Equal rates: the first venue sells, the second buys.
    let rates = vec![whole(1800), whole(1800)];
    assert_eq!(best_buy_index(&rates), 1);
    assert_eq!(best_sell_index(&rates), 0);
}

#[test]
fn validate_accepts_two_venues() {
    let config = config_with(vec![venue("A"), venue("B")], 10);
    assert_eq!(validate_config(&config), Ok(()));
}

#[test]
fn validate_rejects_single_venue() {
    let config = config_with(vec![venue("A")], 10);
    assert_eq!(
        validate_config(&config),
        Err(ConfigError::ConfigurationInvalid)
    );
}

#[test]
fn validate_rejects_zero_interval() {
    let config = config_with(vec![venue("A"), venue("B")], 0);
    assert_eq!(
        validate_config(&config),
        Err(ConfigError::ConfigurationInvalid)
    );
}

#[test]
fn validate_rejects_oversized_decimals() {
    let mut config = config_with(vec![venue("A"), venue("B")], 10);
    config.pair.quote_decimals = 19;
    assert_eq!(
        validate_config(&config),
        Err(ConfigError::ConfigurationInvalid)
    );
}

#[test]
fn evaluated_results_do_not_share_state() {
    // Two results built from the same inputs are equal but independent.
    let make = || -> OpportunityResult {
        evaluate(
            venue("A"),
            venue("B"),
            whole(1800),
            whole(1805),
            whole(1),
            &cost_model(2 * SCALE, SCALE),
        )
    };
    let first = make();
    let second = make();
    assert_eq!(first, second);
}
