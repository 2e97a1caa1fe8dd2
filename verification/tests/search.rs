use simulation::search::{search_optimal_amount, SAFETY_MAX_ITERATIONS};

fn concave(x: u64) -> Option<(u64, i64)> {
    let p = 1000 * x as i64 - (x as i64) * (x as i64);
    if p > 0 {
        Some((2 * x, p))
    } else {
        None
    }
}

fn better(a: i64, b: i64) -> bool {
    a > b
}

#[test]
fn search_finds_peak_of_concave_profit() {
    let r = search_optimal_amount(10_000, 10, 900, concave, |_l: u64| 1, better, i64::MIN);
    assert_eq!(r, Some((500, 1000, 250_000)));
}

#[test]
fn search_stops_at_precision() {
    let r = search_optimal_amount(10_000, 10, 900, concave, |l: u64| l / 10, better, i64::MIN);
    assert_eq!(r, Some((504, 1008, 249_984)));
}

#[test]
fn search_finds_profitability_boundary() {
    let ev = |x: u64| if x <= 300 { Some((x + 1, x as i64)) } else { None };
    let r = search_optimal_amount(10_000, 10, 1000, ev, |_l: u64| 1, better, i64::MIN);
    assert_eq!(r, Some((300, 301, 300)));
}

#[test]
fn search_none_when_minimum_unprofitable() {
    let ev = |_x: u64| -> Option<(u64, i64)> { None };
    let r = search_optimal_amount(10_000, 10, 1000, ev, |_l: u64| 1, better, i64::MIN);
    assert_eq!(r, None);
}

#[test]
fn search_none_when_range_empty_or_no_balance() {
    assert_eq!(search_optimal_amount(10_000, 1000, 1000, concave, |_l: u64| 1, better, i64::MIN), None);
    assert_eq!(search_optimal_amount(10_000, 1000, 900, concave, |_l: u64| 1, better, i64::MIN), None);
    assert_eq!(search_optimal_amount(0, 10, 900, concave, |_l: u64| 1, better, i64::MIN), None);
}

#[test]
fn search_flat_profit_keeps_minimum() {
    let ev = |x: u64| Some((x, 5i64));
    let r = search_optimal_amount(100, 10, 40, ev, |_l: u64| 1, better, i64::MIN);
    assert_eq!(r, Some((10, 10, 5)));
}

#[test]
fn search_stays_within_position_limit_when_limit_unprofitable() {
    // Doubling reaches 80 and the limit 100 is not profitable: the search
    // stays in [10, 100] and never tries an amount above the limit.
    let ev = |x: u64| {
        assert!(x <= 100, "amount {} above the position limit", x);
        if x != 100 { Some((x, x as i64)) } else { None }
    };
    let r = search_optimal_amount(100, 10, 100, ev, |_l: u64| 1, better, i64::MIN);
    assert_eq!(r, Some((99, 99, 99)));
}

#[test]
fn search_growing_profit_reaches_position_limit() {
    let r = search_optimal_amount(20, 1, 10, |x: u64| Some((x, x as i64)), |_l: u64| 0, better, i64::MIN);
    assert_eq!(r, Some((10, 10, 10)));
}

#[test]
fn search_floor_rejects_everything() {
    let r = search_optimal_amount(10_000, 10, 900, concave, |_l: u64| 1, better, i64::MAX);
    assert_eq!(r, None);
}

#[test]
fn search_iteration_cap_value() {
    assert_eq!(SAFETY_MAX_ITERATIONS, 256);
}

#[test]
fn search_handles_limits_up_to_u64_max() {
    let grow = |x: u64| Some((x, x));
    let better_u = |a: u64, b: u64| a > b;
    let r = search_optimal_amount(1, u64::MAX - 10, u64::MAX, grow, |_l: u64| 1, better_u, 0u64);
    assert_eq!(r, Some((u64::MAX, u64::MAX, u64::MAX)));
    let r = search_optimal_amount(1, 1, u64::MAX, grow, |_l: u64| 1, better_u, 0u64);
    assert_eq!(r, Some((u64::MAX, u64::MAX, u64::MAX)));
}

#[test]
fn search_stops_early_with_zero_minimum_or_no_balance() {
    let calls = std::cell::Cell::new(0u32);
    let profitable = |x: u64| {
        calls.set(calls.get() + 1);
        Some((x, x as i64))
    };
    // No balance: nothing is evaluated, even with a profitable zero minimum.
    assert_eq!(search_optimal_amount(0, 0, u64::MAX, &profitable, |_l: u64| 1, better, i64::MIN), None);
    // Empty range.
    assert_eq!(search_optimal_amount(5, 7, 7, &profitable, |_l: u64| 1, better, i64::MIN), None);
    assert_eq!(calls.get(), 0);
    // An unprofitable minimum is evaluated once.
    let once = std::cell::Cell::new(0u32);
    let none = |_x: u64| -> Option<(u64, i64)> {
        once.set(once.get() + 1);
        None
    };
    assert_eq!(search_optimal_amount(5, 0, u64::MAX, &none, |_l: u64| 1, better, i64::MIN), None);
    assert_eq!(once.get(), 1);
}
