use vstd::prelude::*;

use crate::trading::SwapDirection;

verus! {

/// Counters kept by an arbitrage manager over a simulation.
#[derive(Clone, Copy, Debug, PartialEq, Eq, Structural)]
pub struct ArbitrageStats {
    pub opportunities_found: u32,
    pub arbitrages_executed: u32,
    pub failed_arbitrages: u32,
}

/// The vault that a single-vault arbitrage trades against.
#[derive(Clone, Copy, Debug, PartialEq, Eq, Structural)]
pub struct SingleVaultData {
    pub vault_index: u8,
}

/// The pair of vaults that a dual-vault arbitrage trades against.
#[derive(Clone, Copy, Debug, PartialEq, Eq, Structural)]
pub struct DualVaultData {
    pub vault1_index: u8,
    pub vault2_index: u8,
}

impl ArbitrageStats {
    /// All counters at zero.
    pub fn new() -> (r: ArbitrageStats)
        ensures
            r.opportunities_found == 0,
            r.arbitrages_executed == 0,
            r.failed_arbitrages == 0,
    {
        ArbitrageStats { opportunities_found: 0, arbitrages_executed: 0, failed_arbitrages: 0 }
    }

    /// Counts what one bot's turn in a round gave: an executed opportunity
    /// counts as found and executed, an error as failed, no opportunity as
    /// nothing.
    pub fn record_outcome<T, E>(&mut self, outcome: &Result<Option<T>, E>)
        requires
            outcome matches Ok(Some(_)) ==> old(self).opportunities_found < u32::MAX
                && old(self).arbitrages_executed < u32::MAX,
            outcome is Err ==> old(self).failed_arbitrages < u32::MAX,
        ensures
            final(self).opportunities_found == old(self).opportunities_found + (
            if outcome matches Ok(Some(_)) {
                1int
            } else {
                0int
            }),
            final(self).arbitrages_executed == old(self).arbitrages_executed + (
            if outcome matches Ok(Some(_)) {
                1int
            } else {
                0int
            }),
            final(self).failed_arbitrages == old(self).failed_arbitrages + (if outcome is Err {
                1int
            } else {
                0int
            }),
    {
        match outcome {
            Ok(Some(_)) => {
                self.opportunities_found = self.opportunities_found + 1;
                self.arbitrages_executed = self.arbitrages_executed + 1;
            },
            Ok(None) => {},
            Err(_) => {
                self.failed_arbitrages = self.failed_arbitrages + 1;
            },
        }
    }
}

/// Of the best opportunity in each direction (by expected profit), the one
/// to take: A to B wins ties.
pub fn best_direction(a_to_b_profit: Option<u64>, b_to_a_profit: Option<u64>) -> (r: Option<
    SwapDirection,
>)
    ensures
        r is None <==> a_to_b_profit is None && b_to_a_profit is None,
        r == Some(SwapDirection::AtoB) <==> (a_to_b_profit matches Some(a) && (
        b_to_a_profit matches Some(b) ==> a >= b)),
{
    match (a_to_b_profit, b_to_a_profit) {
        (Some(a), Some(b)) => {
            if a >= b {
                Some(SwapDirection::AtoB)
            } else {
                Some(SwapDirection::BtoA)
            }
        },
        (Some(_), None) => Some(SwapDirection::AtoB),
        (None, Some(_)) => Some(SwapDirection::BtoA),
        (None, None) => None,
    }
}

/// `i` is the first position holding the largest expected profit of
/// `profits`, where `None` marks a target without an opportunity.
pub open spec fn is_first_best(profits: Seq<Option<u64>>, i: int) -> bool {
    &&& 0 <= i < profits.len()
    &&& profits[i] is Some
    &&& forall|j: int|
        0 <= j < profits.len() && #[trigger] profits[j] is Some ==> profits[j]->0 <= profits[i]->0
    &&& forall|j: int|
        0 <= j < i && #[trigger] profits[j] is Some ==> profits[j]->0 < profits[i]->0
}

/// Picks, among the targets scanned in order, the one whose opportunity has
/// the largest expected profit; a later target replaces the current best
/// only when strictly better.
pub fn best_candidate_index(profits: &Vec<Option<u64>>) -> (r: Option<usize>)
    ensures
        r matches Some(i) ==> is_first_best(profits@, i as int),
        r is None <==> forall|j: int| 0 <= j < profits@.len() ==> #[trigger] profits@[j] is None,
{
    let mut best: Option<usize> = None;
    let mut best_profit: u64 = 0;
    let mut k: usize = 0;
    while k < profits.len()
        invariant
            k <= profits@.len(),
            best matches Some(i) ==> {
                &&& i < k
                &&& profits@[i as int] == Some(best_profit)
                &&& forall|j: int|
                    0 <= j < k && #[trigger] profits@[j] is Some ==> profits@[j]->0 <= best_profit
                &&& forall|j: int|
                    0 <= j < i && #[trigger] profits@[j] is Some ==> profits@[j]->0 < best_profit
            },
            best is None ==> forall|j: int| 0 <= j < k ==> #[trigger] profits@[j] is None,
        decreases profits@.len() - k,
    {
        match profits[k] {
            Some(p) => {
                let is_better = match best {
                    Some(_) => p > best_profit,
                    None => true,
                };
                if is_better {
                    best = Some(k);
                    best_profit = p;
                }
            },
            None => {},
        }
        k = k + 1;
    }
    best
}

/// A dual arbitrage considers a pair only when both vaults exist and
/// differ.
pub fn is_eligible_pair(pair: (u8, u8), vault_count: u8) -> (r: bool)
    ensures
        r == (pair.0 < vault_count && pair.1 < vault_count && pair.0 != pair.1),
{
    !(pair.0 >= vault_count || pair.1 >= vault_count || pair.0 == pair.1)
}

/// No pair occurs twice.
pub open spec fn no_duplicate_pairs(pairs: Seq<(u8, u8)>) -> bool {
    forall|i: int, j: int| 0 <= i < j < pairs.len() ==> pairs[i] != pairs[j]
}

/// Whether `pairs` holds `pair`.
pub fn contains_pair(pairs: &Vec<(u8, u8)>, pair: (u8, u8)) -> (r: bool)
    ensures
        r == pairs@.contains(pair),
{
    let mut k: usize = 0;
    while k < pairs.len()
        invariant
            k <= pairs@.len(),
            forall|j: int| 0 <= j < k ==> pairs@[j] != pair,
        decreases pairs@.len() - k,
    {
        if pairs[k].0 == pair.0 && pairs[k].1 == pair.1 {
            assert(pairs@[k as int] == pair);
            return true;
        }
        k = k + 1;
    }
    false
}

/// After a successful dual arbitrage its pair joins the shared list unless
/// the list holds it already.
pub fn record_pair(shared: &mut Vec<(u8, u8)>, pair: (u8, u8))
    ensures
        final(shared)@ == if old(shared)@.contains(pair) {
            old(shared)@
        } else {
            old(shared)@.push(pair)
        },
{
    if !contains_pair(shared, pair) {
        shared.push(pair);
    }
}

/// Recording a pair keeps the shared list free of duplicates and leaves the
/// pair in it.
pub proof fn lemma_record_pair_keeps_unique(pairs: Seq<(u8, u8)>, pair: (u8, u8))
    requires
        no_duplicate_pairs(pairs),
    ensures
        ({
            let next = if pairs.contains(pair) {
                pairs
            } else {
                pairs.push(pair)
            };
            no_duplicate_pairs(next) && next.contains(pair)
        }),
{
    if !pairs.contains(pair) {
        let next = pairs.push(pair);
        assert(next[pairs.len() as int] == pair);
        assert forall|i: int, j: int| 0 <= i < j < next.len() implies next[i] != next[j] by {
            if j == pairs.len() {
                assert(next[i] == pairs[i]);
            }
        }
    }
}

/// Shared state that the environment refreshes with the vault pairs that
/// are active in the current slot.
pub trait SharedStateUpdater {
    fn update_from_pairs(&mut self, pairs: &[(u8, u8)]);
}

impl SharedStateUpdater for () {
    fn update_from_pairs(&mut self, _pairs: &[(u8, u8)]) {
    }
}

impl SharedStateUpdater for Vec<(u8, u8)> {
    /// The shared list becomes exactly the active pairs.
    fn update_from_pairs(&mut self, pairs: &[(u8, u8)])
        ensures
            final(self)@ == pairs@,
    {
        self.clear();
        let mut k: usize = 0;
        while k < pairs.len()
            invariant
                k <= pairs@.len(),
                self@ == pairs@.subrange(0, k as int),
            decreases pairs@.len() - k,
        {
            self.push(pairs[k]);
            k = k + 1;
        }
    }
}

/// Reads the reserves of a single vault for arbitrage.
pub struct SingleVaultStrategy;

impl SingleVaultStrategy {
    /// The reserves seen from the other side: for a B to A swap the input
    /// reserve is B's.
    pub fn swap_reserves(&self, reserves: &(u64, u64)) -> (r: (u64, u64))
        ensures
            r == (reserves.1, reserves.0),
    {
        (reserves.1, reserves.0)
    }
}

/// Seeing the reserves from the other side twice gives them back.
pub proof fn lemma_swap_reserves_involution(reserves: (u64, u64))
    ensures
        ((reserves.1, reserves.0).1, (reserves.1, reserves.0).0) == reserves,
{
}

} // verus!
