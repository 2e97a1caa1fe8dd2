use vstd::prelude::*;

verus! {

/// Upper bound on the rounds of the ternary phase of the search.
pub const SAFETY_MAX_ITERATIONS: usize = 256;

/// The search sees `evaluate` as a deterministic function.
pub open spec fn deterministic<P, F: Fn(u64) -> Option<(u64, P)>>(evaluate: F) -> bool {
    forall|x: u64, r1: Option<(u64, P)>, r2: Option<(u64, P)>|
        evaluate.ensures((x,), r1) && evaluate.ensures((x,), r2) ==> r1 == r2
}

/// Every profit that `evaluate` reports beats `floor` under `better`.
pub open spec fn profits_beat_floor<P, F: Fn(u64) -> Option<(u64, P)>, B: Fn(P, P) -> bool>(
    evaluate: F,
    better: B,
    floor: P,
) -> bool {
    forall|x: u64, o: u64, p: P, b: bool|
        evaluate.ensures((x,), Some((o, p))) && better.ensures((p, floor), b) ==> b
}

/// The largest of `t` and 1.
pub open spec fn spec_at_least_one(t: u64) -> u64 {
    if t < 1 {
        1
    } else {
        t
    }
}

/// The largest of `t` and 1.
fn at_least_one(t: u64) -> (r: u64)
    ensures
        r == spec_at_least_one(t),
{
    if t < 1 {
        1
    } else {
        t
    }
}

/// What `evaluate` gives for `x`, when it is deterministic.
pub open spec fn profit_at<P, F: Fn(u64) -> Option<(u64, P)>>(evaluate: F, x: u64) -> Option<(u64, P)> {
    choose|r: Option<(u64, P)>| evaluate.ensures((x,), r)
}

/// The search sees `precision` as a deterministic function.
pub open spec fn deterministic_step<G: Fn(u64) -> u64>(precision: G) -> bool {
    forall|x: u64, r1: u64, r2: u64|
        precision.ensures((x,), r1) && precision.ensures((x,), r2) ==> r1 == r2
}

/// What `precision` gives for `x`, when it is deterministic.
pub open spec fn step_at<G: Fn(u64) -> u64>(precision: G, x: u64) -> u64 {
    choose|r: u64| precision.ensures((x,), r)
}

/// The search sees `better` as a deterministic relation.
pub open spec fn deterministic_order<P, B: Fn(P, P) -> bool>(better: B) -> bool {
    forall|a: P, b: P, r1: bool, r2: bool|
        better.ensures((a, b), r1) && better.ensures((a, b), r2) ==> r1 == r2
}

/// Whether `better` ranks `a` above `b`, when it is deterministic.
pub open spec fn beats<P, B: Fn(P, P) -> bool>(better: B, a: P, b: P) -> bool {
    choose|r: bool| better.ensures((a, b), r)
}

/// The doubling phase: from `test` (twice the last profitable amount
/// `last_valid`, whose profit is `last_profit`), double while the amount
/// stays within `right` and profitable; the first unprofitable amount becomes
/// the upper end. Gives the final `(test, last_valid, last_profit, right)`.
pub open spec fn doubling<P, F: Fn(u64) -> Option<(u64, P)>>(
    evaluate: F,
    test: nat,
    last_valid: nat,
    last_profit: P,
    right: nat,
) -> (nat, nat, P, nat)
    decreases 2 * right - test,
{
    if test == 0 || test > right {
        (test, last_valid, last_profit, right)
    } else {
        match profit_at(evaluate, test as u64) {
            Some(res) => doubling(evaluate, 2 * test, test, res.1, right),
            None => (test, last_valid, last_profit, test),
        }
    }
}

/// The best amount and profit after seeing `amount` with profit `p`: it
/// takes their place when `better` ranks `p` above the best profit.
pub open spec fn keep_best<P, B: Fn(P, P) -> bool>(better: B, amount: nat, p: P, best: (nat, P)) -> (nat, P) {
    if beats(better, p, best.1) {
        (amount, p)
    } else {
        best
    }
}

/// The ternary phase from the range `[left, right]` after `iterations`
/// rounds, with the best amount and profit seen so far: gives the final
/// range and best amount.
pub open spec fn ternary<P, F: Fn(u64) -> Option<(u64, P)>, G: Fn(u64) -> u64, B: Fn(P, P) -> bool>(
    evaluate: F,
    precision: G,
    better: B,
    left: nat,
    right: nat,
    iterations: nat,
    best: (nat, P),
) -> (nat, nat, nat)
    decreases SAFETY_MAX_ITERATIONS - iterations,
{
    if !(right - left > spec_at_least_one(step_at(precision, left as u64)))
        || iterations >= SAFETY_MAX_ITERATIONS {
        (left, right, best.0)
    } else {
        let mid1: nat = left + (right - left) as nat / 3;
        let mid2: nat = left + (2 * (right - left)) as nat / 3;
        match (profit_at(evaluate, mid1 as u64), profit_at(evaluate, mid2 as u64)) {
            (Some((_, p1)), Some((_, p2))) => {
                let best2 = keep_best(better, mid2, p2, keep_best(better, mid1, p1, best));
                let (l, r) = if beats(better, p2, p1) {
                    (mid1, right)
                } else {
                    (left, mid2)
                };
                if l == left && r == right {
                    (l, r, best2.0)
                } else {
                    ternary(evaluate, precision, better, l, r, iterations + 1, best2)
                }
            },
            (Some((_, p1)), None) => {
                let best2 = keep_best(better, mid1, p1, best);
                if mid2 == right {
                    (left, right, best2.0)
                } else {
                    ternary(evaluate, precision, better, left, mid2, iterations + 1, best2)
                }
            },
            (None, Some((_, p2))) => {
                let best2 = keep_best(better, mid2, p2, best);
                if mid1 == left {
                    (left, right, best2.0)
                } else {
                    ternary(evaluate, precision, better, mid1, right, iterations + 1, best2)
                }
            },
            (None, None) => (left, right, best.0),
        }
    }
}

/// The final choice among `candidates`, in order: the first whose profit
/// `better` ranks above every earlier profit, starting from `best_profit`.
pub open spec fn pick_best<P, F: Fn(u64) -> Option<(u64, P)>, B: Fn(P, P) -> bool>(
    evaluate: F,
    better: B,
    candidates: Seq<u64>,
    best: Option<(u64, u64, P)>,
    best_profit: P,
) -> Option<(u64, u64, P)>
    decreases candidates.len(),
{
    if candidates.len() == 0 {
        best
    } else {
        let c = candidates[0];
        match profit_at(evaluate, c) {
            Some((o, p)) => if beats(better, p, best_profit) {
                pick_best(evaluate, better, candidates.drop_first(), Some((c, o, p)), p)
            } else {
                pick_best(evaluate, better, candidates.drop_first(), best, best_profit)
            },
            None => pick_best(evaluate, better, candidates.drop_first(), best, best_profit),
        }
    }
}

/// The result of the search, step by step as `search_optimal_amount`
/// describes it, for deterministic `evaluate`, `precision` and `better`.
pub open spec fn search_result<P, F: Fn(u64) -> Option<(u64, P)>, G: Fn(u64) -> u64, B: Fn(P, P) -> bool>(
    balance: u64,
    min_amount: u64,
    max_amount: u64,
    evaluate: F,
    precision: G,
    better: B,
    floor: P,
) -> Option<(u64, u64, P)> {
    if max_amount <= min_amount || balance == 0 {
        None
    } else {
        match profit_at(evaluate, min_amount) {
            None => None,
            Some((_, first_profit)) => {
                let (test, _, last_profit, right) = doubling(
                    evaluate,
                    2 * min_amount as nat,
                    min_amount as nat,
                    first_profit,
                    max_amount as nat,
                );
                let start_profit = if test > right {
                    match profit_at(evaluate, right as u64) {
                        Some((_, p)) => p,
                        None => last_profit,
                    }
                } else {
                    last_profit
                };
                let (l, r, best) = ternary(
                    evaluate,
                    precision,
                    better,
                    min_amount as nat,
                    right,
                    0,
                    (min_amount as nat, start_profit),
                );
                pick_best(
                    evaluate,
                    better,
                    seq![best as u64, l as u64, r as u64, ((l + r) / 2) as u64],
                    None,
                    floor,
                )
            },
        }
    }
}

/// Over the amounts `lo..=hi`, `peak` is the one best amount: it is
/// profitable, an unprofitable amount makes every larger amount unprofitable
/// too, profits rise strictly up to `peak` and never rise after it.
pub open spec fn single_peak<P, F: Fn(u64) -> Option<(u64, P)>, B: Fn(P, P) -> bool>(
    evaluate: F,
    better: B,
    lo: nat,
    hi: nat,
    peak: u64,
) -> bool {
    &&& lo <= peak <= hi <= u64::MAX
    &&& profit_at(evaluate, peak) is Some
    &&& forall|x: u64, y: u64|
        #![trigger profit_at(evaluate, x), profit_at(evaluate, y)]
        lo <= x < y <= hi && profit_at(evaluate, x) is None ==> profit_at(evaluate, y) is None
    &&& forall|x: u64, y: u64|
        #![trigger profit_at(evaluate, x), profit_at(evaluate, y)]
        lo <= x < y <= peak ==> beats(better, (profit_at(evaluate, y)->0).1, (profit_at(evaluate, x)->0).1)
    &&& forall|x: u64, y: u64|
        #![trigger profit_at(evaluate, x), profit_at(evaluate, y)]
        peak <= x < y <= hi && profit_at(evaluate, y) is Some ==> !beats(
            better,
            (profit_at(evaluate, y)->0).1,
            (profit_at(evaluate, x)->0).1,
        )
}

/// Doubling never stops below the single peak: the upper end it finds is
/// at or above it.
pub proof fn lemma_doubling_keeps_peak<P, F: Fn(u64) -> Option<(u64, P)>, B: Fn(P, P) -> bool>(
    evaluate: F,
    better: B,
    lo: nat,
    hi: nat,
    peak: u64,
    test: nat,
    last_valid: nat,
    last_profit: P,
    right: nat,
)
    requires
        single_peak(evaluate, better, lo, hi, peak),
        lo <= test,
        peak <= right <= hi,
    ensures
        peak <= doubling(evaluate, test, last_valid, last_profit, right).3,
    decreases 2 * right - test,
{
    if test == 0 || test > right {
    } else {
        let t = test as u64;
        match profit_at(evaluate, t) {
            Some(res) => {
                lemma_doubling_keeps_peak(evaluate, better, lo, hi, peak, 2 * test, test, res.1, right);
            },
            None => {
                if t <= peak {
                    if t < peak {
                        assert(profit_at(evaluate, peak) is None);
                    }
                }
            },
        }
    }
}

/// No ternary step loses the single peak: the range the ternary phase ends
/// with still holds it. A step that moves the left end past `mid1` does so
/// only when the profit at `mid2` beats the one at `mid1`, which puts the
/// peak above `mid1`; an unprofitable `mid2` keeps the left end.
pub proof fn lemma_ternary_keeps_peak<P, F: Fn(u64) -> Option<(u64, P)>, G: Fn(u64) -> u64, B: Fn(P, P) -> bool>(
    evaluate: F,
    precision: G,
    better: B,
    lo: nat,
    hi: nat,
    peak: u64,
    left: nat,
    right: nat,
    iterations: nat,
    best: (nat, P),
)
    requires
        single_peak(evaluate, better, lo, hi, peak),
        lo <= left <= peak <= right <= hi,
    ensures
        ternary(evaluate, precision, better, left, right, iterations, best).0 <= peak,
        peak <= ternary(evaluate, precision, better, left, right, iterations, best).1,
    decreases SAFETY_MAX_ITERATIONS - iterations,
{
    if !(right - left > spec_at_least_one(step_at(precision, left as u64)))
        || iterations >= SAFETY_MAX_ITERATIONS {
    } else {
        let d: nat = (right - left) as nat;
        let mid1: nat = left + (right - left) as nat / 3;
        let mid2: nat = left + (2 * (right - left)) as nat / 3;
        assert(mid1 < mid2 <= right) by (nonlinear_arith)
            requires
                d >= 2,
                d == right - left,
                mid1 == left + d / 3,
                mid2 == left + (2 * d) / 3,
        ;
        let m1 = mid1 as u64;
        let m2 = mid2 as u64;
        match (profit_at(evaluate, m1), profit_at(evaluate, m2)) {
            (Some((_, p1)), Some((_, p2))) => {
                let best2 = keep_best(better, mid2, p2, keep_best(better, mid1, p1, best));
                if beats(better, p2, p1) {
                    if peak <= m1 {
                        assert(!beats(better, (profit_at(evaluate, m2)->0).1, (profit_at(evaluate, m1)->0).1));
                    }
                    if !(mid1 == left) {
                        lemma_ternary_keeps_peak(evaluate, precision, better, lo, hi, peak, mid1, right, iterations + 1, best2);
                    }
                } else {
                    if peak >= m2 {
                        assert(beats(better, (profit_at(evaluate, m2)->0).1, (profit_at(evaluate, m1)->0).1));
                    }
                    if !(mid2 == right) {
                        lemma_ternary_keeps_peak(evaluate, precision, better, lo, hi, peak, left, mid2, iterations + 1, best2);
                    }
                }
            },
            (Some((_, p1)), None) => {
                let best2 = keep_best(better, mid1, p1, best);
                if peak >= m2 {
                    if peak > m2 {
                        assert(profit_at(evaluate, peak) is None);
                    }
                }
                if !(mid2 == right) {
                    lemma_ternary_keeps_peak(evaluate, precision, better, lo, hi, peak, left, mid2, iterations + 1, best2);
                }
            },
            (None, Some(_)) => {
                assert(profit_at(evaluate, m2) is None);
            },
            (None, None) => {},
        }
    }
}

/// `better` is a strict order on profits: no profit beats itself, and
/// beating carries over.
pub open spec fn strict_order<P, B: Fn(P, P) -> bool>(better: B) -> bool {
    &&& forall|a: P| !#[trigger] beats(better, a, a)
    &&& forall|a: P, b: P, c: P|
        #![trigger beats(better, a, b), beats(better, b, c)]
        beats(better, a, b) && beats(better, b, c) ==> beats(better, a, c)
}

/// The profit that a final choice stands on: the chosen candidate's, or the
/// starting profit when none was chosen.
pub open spec fn chosen_profit<P>(r: Option<(u64, u64, P)>, start: P) -> P {
    match r {
        Some((_, _, p)) => p,
        None => start,
    }
}

/// The final choice takes a candidate's own evaluation, and no candidate's
/// profit beats the profit it stands on, which is the starting profit or
/// beats it.
pub proof fn lemma_pick_best_is_maximal<P, F: Fn(u64) -> Option<(u64, P)>, B: Fn(P, P) -> bool>(
    evaluate: F,
    better: B,
    candidates: Seq<u64>,
    best: Option<(u64, u64, P)>,
    best_profit: P,
)
    requires
        strict_order(better),
        best matches Some((_, _, p)) ==> p == best_profit,
    ensures
        ({
            let r = pick_best(evaluate, better, candidates, best, best_profit);
            let rp = chosen_profit(r, best_profit);
            &&& r == best || (r matches Some((c, o, p)) && candidates.contains(c) && profit_at(evaluate, c) == Some((o, p)))
            &&& rp == best_profit || beats(better, rp, best_profit)
            &&& r == best ==> rp == best_profit
            &&& forall|j: int|
                0 <= j < candidates.len() && #[trigger] profit_at(evaluate, candidates[j]) is Some
                    ==> !beats(better, (profit_at(evaluate, candidates[j])->0).1, rp)
        }),
    decreases candidates.len(),
{
    if candidates.len() > 0 {
        let c = candidates[0];
        let rest = candidates.drop_first();
        assert forall|j: int| 0 < j < candidates.len() implies candidates[j] == rest[j - 1] by {}
        match profit_at(evaluate, c) {
            Some((o, p)) => {
                if beats(better, p, best_profit) {
                    lemma_pick_best_is_maximal(evaluate, better, rest, Some((c, o, p)), p);
                    let r = pick_best(evaluate, better, rest, Some((c, o, p)), p);
                    if r != Some((c, o, p)) {
                        let c2 = (r->0).0;
                        assert(rest.contains(c2));
                        let k = choose|k: int| 0 <= k < rest.len() && rest[k] == c2;
                        assert(candidates[k + 1] == c2);
                    }
                    assert(candidates[0] == c);
                } else {
                    lemma_pick_best_is_maximal(evaluate, better, rest, best, best_profit);
                    let r = pick_best(evaluate, better, rest, best, best_profit);
                    if r != best {
                        let c2 = (r->0).0;
                        let k = choose|k: int| 0 <= k < rest.len() && rest[k] == c2;
                        assert(candidates[k + 1] == c2);
                    }
                    let rp = chosen_profit(r, best_profit);
                    if rp != best_profit {
                        assert(!beats(better, p, rp));
                    }
                    assert(candidates[0] == c);
                }
            },
            None => {
                lemma_pick_best_is_maximal(evaluate, better, rest, best, best_profit);
                let r = pick_best(evaluate, better, rest, best, best_profit);
                if r != best {
                    let c2 = (r->0).0;
                    let k = choose|k: int| 0 <= k < rest.len() && rest[k] == c2;
                    assert(candidates[k + 1] == c2);
                }
            },
        }
    }
}

proof fn lemma_profit_at<P, F: Fn(u64) -> Option<(u64, P)>>(evaluate: F, x: u64, r: Option<(u64, P)>)
    requires
        deterministic(evaluate),
        evaluate.ensures((x,), r),
    ensures
        profit_at(evaluate, x) == r,
{
}

proof fn lemma_step_at<G: Fn(u64) -> u64>(precision: G, x: u64, r: u64)
    requires
        deterministic_step(precision),
        precision.ensures((x,), r),
    ensures
        step_at(precision, x) == r,
{
}

proof fn lemma_beats<P, B: Fn(P, P) -> bool>(better: B, a: P, b: P, r: bool)
    requires
        deterministic_order(better),
        better.ensures((a, b), r),
    ensures
        beats(better, a, b) == r,
{
}

/// Searches `[min_amount, max_amount]` for the swap amount that maximises
/// the profit reported by `evaluate_profit` (which gives the expected output
/// and the profit of an amount, or `None` where the amount is not worth
/// trading). No amount above `max_amount`, the position limit, is tried or
/// returned.
///
/// The search first doubles from `min_amount` while amounts stay profitable
/// and within `max_amount` (trying `max_amount` itself when every doubling
/// was profitable), then narrows the range by ternary steps (at most
/// `SAFETY_MAX_ITERATIONS` of them, stopping once the range is no wider than
/// `precision(left)`, and at least 1), and finally re-evaluates the best
/// amount seen, both ends of the range and its middle, keeping the first of
/// them whose profit is strictly `better` than every earlier one, starting
/// from `floor`. It returns `(amount, expected_output, profit)`:
/// `search_result` when the three closures are deterministic.
pub fn search_optimal_amount<P: Copy, F, G, B>(
    balance: u64,
    min_amount: u64,
    max_amount: u64,
    evaluate_profit: F,
    precision: G,
    better: B,
    floor: P,
) -> (r: Option<(u64, u64, P)>) where
    F: Fn(u64) -> Option<(u64, P)>,
    G: Fn(u64) -> u64,
    B: Fn(P, P) -> bool,

    requires
        max_amount > min_amount && balance > 0 && min_amount == 0 ==> forall|res: Option<(u64, P)>|
            evaluate_profit.ensures((0u64,), res) ==> res is None,
        forall|x: u64| evaluate_profit.requires((x,)),
        forall|x: u64| precision.requires((x,)),
        forall|a: P, b: P| better.requires((a, b)),
    ensures
        deterministic(evaluate_profit) && deterministic_step(precision) && deterministic_order(better)
            ==> r == search_result(balance, min_amount, max_amount, evaluate_profit, precision, better, floor),
        max_amount <= min_amount || balance == 0 ==> r is None,
        (forall|res: Option<(u64, P)>| evaluate_profit.ensures((min_amount,), res) ==> res is None)
            ==> r is None,
        r matches Some((a, o, p)) ==> {
            &&& min_amount <= a <= max_amount
            &&& evaluate_profit.ensures((a,), Some((o, p)))
        },
        ({
            &&& max_amount > min_amount
            &&& balance > 0
            &&& deterministic(evaluate_profit)
            &&& profits_beat_floor(evaluate_profit, better, floor)
            &&& exists|v: (u64, P)| evaluate_profit.ensures((min_amount,), Some(v))
        }) ==> r is Some,
{
    let ghost det = deterministic(evaluate_profit) && deterministic_step(precision)
        && deterministic_order(better);
    if max_amount <= min_amount || balance == 0 {
        return None;
    }
    let mut left = min_amount;
    let mut right = max_amount;

    // Step 1: double the amount while it stays profitable.
    let profit_left = evaluate_profit(left);
    proof {
        if det {
            lemma_profit_at(evaluate_profit, left, profit_left);
        }
    }
    let (first_output, first_profit) = match profit_left {
        Some(v) => v,
        None => {
            return None;
        },
    };
    let ghost best_witness: (u64, P) = (first_output, first_profit);
    assert(left >= 1);

    let mut test_amount: u128 = (left as u128) * 2;
    let mut last_valid = left;
    let mut last_valid_profit = first_profit;
    let ghost doubled = doubling(
        evaluate_profit,
        2 * min_amount as nat,
        min_amount as nat,
        first_profit,
        max_amount as nat,
    );

    while test_amount <= right as u128
        invariant_except_break
            test_amount == 2 * last_valid,
            1 <= last_valid,
            min_amount <= last_valid <= right,
            right == max_amount,
            det ==> doubling(evaluate_profit, test_amount as nat, last_valid as nat, last_valid_profit, right as nat)
                == doubled,
        invariant
            det == (deterministic(evaluate_profit) && deterministic_step(precision) && deterministic_order(better)),
            min_amount < max_amount,
            left == min_amount,
            forall|x: u64| evaluate_profit.requires((x,)),
        ensures
            test_amount == 2 * last_valid,
            min_amount <= last_valid <= max_amount,
            right <= max_amount,
            test_amount > right && right == max_amount || right == test_amount,
            det ==> doubled == (test_amount as nat, last_valid as nat, last_valid_profit, right as nat),
        decreases 2 * right - test_amount,
    {
        let amount = test_amount as u64;
        let res = evaluate_profit(amount);
        proof {
            if det {
                lemma_profit_at(evaluate_profit, amount, res);
            }
        }
        match res {
            Some(result) => {
                last_valid = amount;
                last_valid_profit = result.1;
                test_amount = test_amount * 2;
            },
            None => {
                right = amount;
                break ;
            },
        }
    }

    // When every doubling was profitable, try the position limit itself.
    if test_amount > right as u128 {
        let res = evaluate_profit(right);
        proof {
            if det {
                lemma_profit_at(evaluate_profit, right, res);
            }
        }
        match res {
            Some(result) => {
                last_valid = right;
                last_valid_profit = result.1;
            },
            None => {},
        }
    }
    assert(min_amount <= left <= right <= max_amount);
    // The upper end is never above twice the last profitable amount, so it
    // needs no further refinement before the ternary steps.
    assert(right <= 2 * last_valid);

    // Step 2: ternary search between `left` and `right`.
    let mut iterations: usize = 0;
    let mut best_amount = left;
    let mut best_profit = last_valid_profit;
    let ghost narrowed = ternary(
        evaluate_profit,
        precision,
        better,
        left as nat,
        right as nat,
        0,
        (left as nat, last_valid_profit),
    );
    proof {
        if det {
            assert(narrowed == ({
                let (test, _, last_profit, right0) = doubled;
                let start_profit = if test > right0 {
                    match profit_at(evaluate_profit, right0 as u64) {
                        Some((_, p)) => p,
                        None => last_profit,
                    }
                } else {
                    last_profit
                };
                ternary(evaluate_profit, precision, better, min_amount as nat, right0, 0, (min_amount as nat, start_profit))
            }));
        }
    }

    loop
        invariant_except_break
            det ==> ternary(evaluate_profit, precision, better, left as nat, right as nat, iterations as nat, (best_amount as nat, best_profit))
                == narrowed,
        invariant
            det == (deterministic(evaluate_profit) && deterministic_step(precision) && deterministic_order(better)),
            min_amount <= left <= right <= max_amount,
            iterations <= SAFETY_MAX_ITERATIONS,
            forall|x: u64| evaluate_profit.requires((x,)),
            forall|x: u64| precision.requires((x,)),
            forall|a: P, b: P| better.requires((a, b)),
            min_amount <= best_amount <= max_amount,
            evaluate_profit.ensures((best_amount,), Some(best_witness)),
        ensures
            det ==> narrowed == (left as nat, right as nat, best_amount as nat),
        decreases SAFETY_MAX_ITERATIONS - iterations,
    {
        let step = precision(left);
        proof {
            if det {
                lemma_step_at(precision, left, step);
            }
        }
        if !(right - left > at_least_one(step)) {
            break ;
        }
        if iterations >= SAFETY_MAX_ITERATIONS {
            break ;
        }
        let ghost old_iterations = iterations;
        iterations = iterations + 1;

        let prev_left = left;
        let prev_right = right;
        let mid1 = left + (right - left) / 3;
        let mid2 = (left as u128 + 2 * ((right - left) as u128) / 3) as u64;

        let profit1 = evaluate_profit(mid1);
        let profit2 = evaluate_profit(mid2);
        proof {
            if det {
                lemma_profit_at(evaluate_profit, mid1, profit1);
                lemma_profit_at(evaluate_profit, mid2, profit2);
            }
        }

        match (profit1, profit2) {
            (Some((o1, p1)), Some((o2, p2))) => {
                let b1 = better(p1, best_profit);
                proof {
                    if det {
                        lemma_beats(better, p1, best_profit, b1);
                    }
                }
                if b1 {
                    best_profit = p1;
                    best_amount = mid1;
                    proof {
                        best_witness = (o1, p1);
                    }
                }
                let b2 = better(p2, best_profit);
                proof {
                    if det {
                        lemma_beats(better, p2, best_profit, b2);
                    }
                }
                if b2 {
                    best_profit = p2;
                    best_amount = mid2;
                    proof {
                        best_witness = (o2, p2);
                    }
                }
                let b3 = better(p2, p1);
                proof {
                    if det {
                        lemma_beats(better, p2, p1, b3);
                    }
                }
                if b3 {
                    left = mid1;
                } else {
                    right = mid2;
                }
            },
            (Some((o1, p1)), None) => {
                let b1 = better(p1, best_profit);
                proof {
                    if det {
                        lemma_beats(better, p1, best_profit, b1);
                    }
                }
                if b1 {
                    best_profit = p1;
                    best_amount = mid1;
                    proof {
                        best_witness = (o1, p1);
                    }
                }
                right = mid2;
            },
            (None, Some((o2, p2))) => {
                let b2 = better(p2, best_profit);
                proof {
                    if det {
                        lemma_beats(better, p2, best_profit, b2);
                    }
                }
                if b2 {
                    best_profit = p2;
                    best_amount = mid2;
                    proof {
                        best_witness = (o2, p2);
                    }
                }
                left = mid1;
            },
            (None, None) => {
                break ;
            },
        }

        if left == prev_left && right == prev_right {
            break ;
        }
    }

    // Step 3: re-evaluate the best amount, both ends and the middle.
    let final_amount = ((left as u128 + right as u128) / 2) as u64;
    let candidates: [u64; 4] = [best_amount, left, right, final_amount];
    assert(candidates@[0] == best_amount);
    proof {
        if det {
            assert(candidates@ =~= seq![best_amount, left, right, final_amount]);
            assert(candidates@.subrange(0, 4) =~= candidates@);
        }
    }

    let mut best_result: Option<(u64, u64, P)> = None;
    let mut best_final_profit = floor;
    let mut i: usize = 0;
    while i < 4
        invariant
            det == (deterministic(evaluate_profit) && deterministic_step(precision) && deterministic_order(better)),
            0 <= i <= 4,
            candidates@.len() == 4,
            candidates@[0] == best_amount,
            forall|k: int| 0 <= k < 4 ==> min_amount <= #[trigger] candidates@[k] <= max_amount,
            forall|x: u64| evaluate_profit.requires((x,)),
            forall|a: P, b: P| better.requires((a, b)),
            evaluate_profit.ensures((best_amount,), Some(best_witness)),
            best_result matches Some((a, o, p)) ==> {
                &&& min_amount <= a <= max_amount
                &&& evaluate_profit.ensures((a,), Some((o, p)))
            },
            i == 0 ==> best_final_profit == floor && best_result is None,
            ({
                &&& deterministic(evaluate_profit)
                &&& profits_beat_floor(evaluate_profit, better, floor)
                &&& i > 0
            }) ==> best_result is Some,
            det ==> pick_best(evaluate_profit, better, candidates@.subrange(i as int, 4), best_result, best_final_profit)
                == pick_best(evaluate_profit, better, candidates@, None, floor),
        decreases 4 - i,
    {
        let candidate = candidates[i];
        let res = evaluate_profit(candidate);
        proof {
            if det {
                lemma_profit_at(evaluate_profit, candidate, res);
                assert(candidates@.subrange(i as int, 4).drop_first() =~= candidates@.subrange(i + 1, 4));
                assert(candidates@.subrange(i as int, 4)[0] == candidate);
            }
        }
        match res {
            Some((output, profit)) => {
                let b = better(profit, best_final_profit);
                proof {
                    if det {
                        lemma_beats(better, profit, best_final_profit, b);
                    }
                }
                if b {
                    best_final_profit = profit;
                    best_result = Some((candidate, output, profit));
                }
            },
            None => {},
        }
        i = i + 1;
    }
    proof {
        if det {
            assert(candidates@.subrange(4, 4) =~= Seq::<u64>::empty());
        }
    }
    best_result
}

} // verus!
