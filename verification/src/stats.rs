use vstd::prelude::*;

use crate::arbitrage::ArbitrageStats;
use crate::trading::SlotResult;

verus! {

/// The value of `x as i64`: `x` itself up to `i64::MAX`, `x - 2^64` above.
pub open spec fn wrap_i64(x: u64) -> int {
    if x <= i64::MAX {
        x as int
    } else {
        x - 0x1_0000_0000_0000_0000int
    }
}

/// `wrap_i64(a) - wrap_i64(b)` fits an `i64`.
pub open spec fn delta_fits(a: u64, b: u64) -> bool {
    i64::MIN <= wrap_i64(a) - wrap_i64(b) <= i64::MAX
}

fn to_i64(x: u64) -> (r: i64)
    ensures
        r == wrap_i64(x),
{
    let r = x as i64;
    if x <= 0x7fff_ffff_ffff_ffff {
        assert(r == x) by (bit_vector)
            requires
                r == x as i64,
                x <= 0x7fff_ffff_ffff_ffff,
        ;
    } else {
        assert(r == x - 0x1_0000_0000_0000_0000) by (bit_vector)
            requires
                r == x as i64,
                x > 0x7fff_ffff_ffff_ffff,
        ;
    }
    r
}

/// Change between two amounts, each read as `i64`.
fn signed_change(after: u64, before: u64) -> (r: i64)
    requires
        delta_fits(after, before),
    ensures
        r == wrap_i64(after) - wrap_i64(before),
{
    to_i64(after) - to_i64(before)
}

/// Reserves of one vault.
#[derive(Clone, Copy, Debug, PartialEq, Eq, Structural)]
pub struct VaultReserve {
    pub vault_id: usize,
    pub reserve_a: u64,
    pub reserve_b: u64,
}

impl VaultReserve {
    pub fn new(vault_id: usize, reserve_a: u64, reserve_b: u64) -> (r: VaultReserve)
        ensures
            r.vault_id == vault_id,
            r.reserve_a == reserve_a,
            r.reserve_b == reserve_b,
    {
        VaultReserve { vault_id, reserve_a, reserve_b }
    }

    /// Both changes from `other` to `self` fit an `i64`.
    pub open spec fn delta_in_range(&self, other: &VaultReserve) -> bool {
        delta_fits(self.reserve_a, other.reserve_a) && delta_fits(self.reserve_b, other.reserve_b)
    }

    /// Change of both reserves from `other` to `self`, each reserve read as
    /// `i64`.
    pub fn delta(&self, other: &VaultReserve) -> (r: (i64, i64))
        requires
            self.delta_in_range(other),
        ensures
            r.0 == wrap_i64(self.reserve_a) - wrap_i64(other.reserve_a),
            r.1 == wrap_i64(self.reserve_b) - wrap_i64(other.reserve_b),
    {
        (signed_change(self.reserve_a, other.reserve_a), signed_change(self.reserve_b, other.reserve_b))
    }
}

/// A reserve's change from itself is zero, and swapping the two reserves
/// negates the change; reserves up to `i64::MAX` change by their plain
/// difference.
pub proof fn lemma_delta_antisymmetric(x: VaultReserve, y: VaultReserve)
    ensures
        x.delta_in_range(&x),
        wrap_i64(x.reserve_a) - wrap_i64(x.reserve_a) == 0,
        x.delta_in_range(&y) ==> y.delta_in_range(&x) || wrap_i64(x.reserve_a) - wrap_i64(y.reserve_a) == i64::MIN || wrap_i64(x.reserve_b) - wrap_i64(y.reserve_b) == i64::MIN,
        x.reserve_a <= i64::MAX && y.reserve_a <= i64::MAX ==> wrap_i64(x.reserve_a) - wrap_i64(y.reserve_a) == x.reserve_a - y.reserve_a,
        x.reserve_a <= i64::MAX && y.reserve_a <= i64::MAX && x.reserve_b <= i64::MAX && y.reserve_b <= i64::MAX ==> x.delta_in_range(&y),
{
}

/// Results of one simulation run.
#[derive(Debug)]
pub struct SimulationStats {
    pub total_slots: u64,
    pub successful_swaps: u64,
    pub failed_swaps: u64,
    pub initial_reserves: Vec<VaultReserve>,
    pub final_reserves: Vec<VaultReserve>,
    pub arbitrage_profits: Option<ArbitrageStats>,
    pub initial_user_balances: Option<(u64, u64)>,
    pub final_user_balances: Option<(u64, u64)>,
}

impl SimulationStats {
    /// Empty results that start from the given reserves.
    pub fn new(initial_reserves: Vec<VaultReserve>) -> (r: SimulationStats)
        ensures
            r.total_slots == 0,
            r.successful_swaps == 0,
            r.failed_swaps == 0,
            r.initial_reserves@ == initial_reserves@,
            r.final_reserves@.len() == 0,
            r.arbitrage_profits is None,
            r.initial_user_balances is None,
            r.final_user_balances is None,
    {
        SimulationStats {
            total_slots: 0,
            successful_swaps: 0,
            failed_swaps: 0,
            initial_reserves,
            final_reserves: Vec::new(),
            arbitrage_profits: None,
            initial_user_balances: None,
            final_user_balances: None,
        }
    }

    /// Adds a slot's swap counts to the totals.
    pub fn record_slot(&mut self, slot: &SlotResult)
        requires
            old(self).successful_swaps + slot.successful_swaps <= u64::MAX,
            old(self).failed_swaps + slot.failed_swaps <= u64::MAX,
        ensures
            final(self).successful_swaps == old(self).successful_swaps + slot.successful_swaps,
            final(self).failed_swaps == old(self).failed_swaps + slot.failed_swaps,
            final(self).total_slots == old(self).total_slots,
            final(self).initial_reserves@ == old(self).initial_reserves@,
            final(self).final_reserves@ == old(self).final_reserves@,
            final(self).arbitrage_profits == old(self).arbitrage_profits,
            final(self).initial_user_balances == old(self).initial_user_balances,
            final(self).final_user_balances == old(self).final_user_balances,
    {
        self.successful_swaps = self.successful_swaps + slot.successful_swaps;
        self.failed_swaps = self.failed_swaps + slot.failed_swaps;
    }

    /// Every vault's change is in range, pairing final and initial reserves
    /// by position.
    pub open spec fn reserve_deltas_in_range(&self) -> bool {
        forall|i: int|
            0 <= i < self.final_reserves@.len() && i < self.initial_reserves@.len()
                ==> #[trigger] self.final_reserves@[i].delta_in_range(&self.initial_reserves@[i])
    }

    /// The change of each vault's reserves over the run, pairing final and
    /// initial reserves by position, as far as both lists go.
    pub fn reserve_deltas(&self) -> (r: Vec<(i64, i64)>)
        requires
            self.reserve_deltas_in_range(),
        ensures
            r@.len() == if self.final_reserves@.len() < self.initial_reserves@.len() {
                self.final_reserves@.len()
            } else {
                self.initial_reserves@.len()
            },
            forall|i: int|
                #![trigger r@[i]]
                0 <= i < r@.len() ==> {
                    &&& r@[i].0 == wrap_i64(self.final_reserves@[i].reserve_a)
                        - wrap_i64(self.initial_reserves@[i].reserve_a)
                    &&& r@[i].1 == wrap_i64(self.final_reserves@[i].reserve_b) - wrap_i64(
                        self.initial_reserves@[i].reserve_b,
                    )
                },
    {
        let n = if self.final_reserves.len() < self.initial_reserves.len() {
            self.final_reserves.len()
        } else {
            self.initial_reserves.len()
        };
        let mut r: Vec<(i64, i64)> = Vec::new();
        let mut i: usize = 0;
        while i < n
            invariant
                i <= n,
                n <= self.final_reserves@.len(),
                n <= self.initial_reserves@.len(),
                self.reserve_deltas_in_range(),
                r@.len() == i,
                forall|k: int|
                    #![trigger r@[k]]
                    0 <= k < i ==> {
                        &&& r@[k].0 == wrap_i64(self.final_reserves@[k].reserve_a)
                            - wrap_i64(self.initial_reserves@[k].reserve_a)
                        &&& r@[k].1 == wrap_i64(self.final_reserves@[k].reserve_b) - wrap_i64(
                            self.initial_reserves@[k].reserve_b,
                        )
                    },
            decreases n - i,
        {
            let d = self.final_reserves[i].delta(&self.initial_reserves[i]);
            r.push(d);
            i = i + 1;
        }
        r
    }

    /// The change of the users' total balances over the run, when both ends
    /// were recorded.
    pub fn user_balance_delta(&self) -> (r: Option<(i64, i64)>)
        requires
            self.initial_user_balances matches Some((ia, ib)) && self.final_user_balances matches Some((fa, fb)) ==> delta_fits(fa, ia) && delta_fits(fb, ib),
        ensures
            r is Some <==> self.initial_user_balances is Some && self.final_user_balances is Some,
            r matches Some((da, db)) ==> (self.final_user_balances matches Some((fa, fb))
                && self.initial_user_balances matches Some((ia, ib))
                && da == wrap_i64(fa) - wrap_i64(ia) && db == wrap_i64(fb) - wrap_i64(ib)),
    {
        match (self.initial_user_balances, self.final_user_balances) {
            (Some((ia, ib)), Some((fa, fb))) => Some((signed_change(fa, ia), signed_change(fb, ib))),
            _ => None,
        }
    }
}

/// `a + b`, or `u64::MAX` when the sum does not fit.
pub open spec fn saturating_sum(a: u64, b: u64) -> u64 {
    if a + b > u64::MAX {
        u64::MAX
    } else {
        (a + b) as u64
    }
}

/// Totals of both tokens over a list of balances, each sum saturating at
/// `u64::MAX`, adding the balances in order.
pub open spec fn spec_total_balances(balances: Seq<(u64, u64)>) -> (u64, u64)
    decreases balances.len(),
{
    if balances.len() == 0 {
        (0, 0)
    } else {
        let prev = spec_total_balances(balances.drop_last());
        (saturating_sum(prev.0, balances.last().0), saturating_sum(prev.1, balances.last().1))
    }
}

/// Totals of the token balances of a group of accounts (users or
/// arbitrageurs), each saturating at `u64::MAX`.
pub fn total_balances(balances: &Vec<(u64, u64)>) -> (r: (u64, u64))
    ensures
        r == spec_total_balances(balances@),
{
    let mut sum_a: u64 = 0;
    let mut sum_b: u64 = 0;
    let mut i: usize = 0;
    while i < balances.len()
        invariant
            i <= balances@.len(),
            (sum_a, sum_b) == spec_total_balances(balances@.take(i as int)),
        decreases balances@.len() - i,
    {
        let (a, b) = balances[i];
        assert(balances@.take(i + 1).drop_last() =~= balances@.take(i as int));
        sum_a = sum_a.saturating_add(a);
        sum_b = sum_b.saturating_add(b);
        i = i + 1;
    }
    assert(balances@.take(balances@.len() as int) =~= balances@);
    (sum_a, sum_b)
}

/// While no sum saturates, the totals are the plain sums: adding one more
/// account's balances adds them to the totals, and the totals never shrink.
pub proof fn lemma_total_balances_monotone(balances: Seq<(u64, u64)>, extra: (u64, u64))
    ensures
        spec_total_balances(balances.push(extra)).0 >= spec_total_balances(balances).0,
        spec_total_balances(balances.push(extra)).1 >= spec_total_balances(balances).1,
        spec_total_balances(balances).0 + extra.0 <= u64::MAX ==> spec_total_balances(balances.push(extra)).0 == spec_total_balances(balances).0 + extra.0,
        spec_total_balances(balances).1 + extra.1 <= u64::MAX ==> spec_total_balances(balances.push(extra)).1 == spec_total_balances(balances).1 + extra.1,
{
    assert(balances.push(extra).drop_last() =~= balances);
}

/// The runner writes its buffered rows out every this many slots.
pub const FLUSH_INTERVAL_SLOTS: u64 = 1000;

/// Whether the runner flushes its buffers, tops up the actors' lamports and
/// reports progress after `slot`.
pub fn is_flush_slot(slot: u64) -> (r: bool)
    ensures
        r == (slot % FLUSH_INTERVAL_SLOTS == 0),
{
    slot % FLUSH_INTERVAL_SLOTS == 0
}

} // verus!
