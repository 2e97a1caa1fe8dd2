use vstd::prelude::*;
use rand::rngs::StdRng;

use crate::rng::{random_u8_below, random_usize_below};

verus! {

/// How the simulated users route their swaps.
#[derive(Clone, Copy, Debug, PartialEq, Eq, Structural)]
pub enum SwapStrategy {
    /// Every swap goes through one vault.
    SingleVault,
    /// Every swap goes through a pair of vaults (dual swap).
    DualVault,
}

/// Direction of a swap.
#[derive(Clone, Copy, Debug, PartialEq, Eq, Structural)]
pub enum SwapDirection {
    AtoB,
    BtoA,
}

/// What one user swap gave.
#[derive(Debug)]
pub struct SwapResult {
    pub success: bool,
    pub amount_in: u64,
    pub amount_out: u64,
    pub compute_units: u64,
    pub is_a_to_b: bool,
    pub vault_indices: Vec<u8>,
}

impl Default for SwapResult {
    fn default() -> (r: SwapResult)
        ensures
            r.success == false,
            r.amount_in == 0,
            r.amount_out == 0,
            r.compute_units == 0,
            r.is_a_to_b == false,
            r.vault_indices@.len() == 0,
    {
        SwapResult {
            success: false,
            amount_in: 0,
            amount_out: 0,
            compute_units: 0,
            is_a_to_b: false,
            vault_indices: Vec::new(),
        }
    }
}

impl SwapResult {
    /// The result of a swap that went through: it records the amounts, the
    /// compute units and the vaults it used.
    pub fn executed(
        amount_in: u64,
        amount_out: u64,
        compute_units: u64,
        is_a_to_b: bool,
        vault_indices: Vec<u8>,
    ) -> (r: SwapResult)
        ensures
            r.success,
            r.amount_in == amount_in,
            r.amount_out == amount_out,
            r.compute_units == compute_units,
            r.is_a_to_b == is_a_to_b,
            r.vault_indices@ == vault_indices@,
    {
        SwapResult { success: true, amount_in, amount_out, compute_units, is_a_to_b, vault_indices }
    }

    /// The result recorded for a swap that the program rejected: all fields
    /// at their defaults.
    pub fn rejected() -> (r: SwapResult)
        ensures
            r.success == false,
            r.amount_in == 0,
            r.amount_out == 0,
            r.compute_units == 0,
            r.is_a_to_b == false,
            r.vault_indices@.len() == 0,
    {
        SwapResult::default()
    }
}

/// Counters of one trading round of the simulated users.
#[derive(Clone, Copy, Debug, PartialEq, Eq, Structural)]
pub struct TradingRoundStats {
    pub successful_swaps: u32,
    pub failed_swaps: u32,
    pub total_volume_a: u64,
    pub total_volume_b: u64,
    pub single_vault_swaps: u32,
    pub dual_vault_swaps: u32,
}

impl Default for TradingRoundStats {
    fn default() -> (r: TradingRoundStats)
        ensures
            r == TradingRoundStats::zero(),
    {
        TradingRoundStats {
            successful_swaps: 0,
            failed_swaps: 0,
            total_volume_a: 0,
            total_volume_b: 0,
            single_vault_swaps: 0,
            dual_vault_swaps: 0,
        }
    }
}

impl TradingRoundStats {
    /// All counters at zero.
    pub open spec fn zero() -> TradingRoundStats {
        TradingRoundStats {
            successful_swaps: 0,
            failed_swaps: 0,
            total_volume_a: 0,
            total_volume_b: 0,
            single_vault_swaps: 0,
            dual_vault_swaps: 0,
        }
    }

    /// No counter that recording a swap of `amount_in` in the given
    /// direction through `vault_count` vaults moves overflows.
    pub open spec fn can_record(self, amount_in: u64, is_a_to_b: bool, vault_count: nat) -> bool {
        &&& self.successful_swaps < u32::MAX
        &&& is_a_to_b ==> self.total_volume_a + amount_in <= u64::MAX
        &&& !is_a_to_b ==> self.total_volume_b + amount_in <= u64::MAX
        &&& vault_count == 1 ==> self.single_vault_swaps < u32::MAX
        &&& vault_count == 2 ==> self.dual_vault_swaps < u32::MAX
    }

    /// The counters after recording a swap result.
    pub open spec fn spec_record(self, amount_in: u64, is_a_to_b: bool, vault_count: nat) -> TradingRoundStats {
        TradingRoundStats {
            successful_swaps: (self.successful_swaps + 1) as u32,
            failed_swaps: self.failed_swaps,
            total_volume_a: if is_a_to_b {
                (self.total_volume_a + amount_in) as u64
            } else {
                self.total_volume_a
            },
            total_volume_b: if is_a_to_b {
                self.total_volume_b
            } else {
                (self.total_volume_b + amount_in) as u64
            },
            single_vault_swaps: if vault_count == 1 {
                (self.single_vault_swaps + 1) as u32
            } else {
                self.single_vault_swaps
            },
            dual_vault_swaps: if vault_count == 2 {
                (self.dual_vault_swaps + 1) as u32
            } else {
                self.dual_vault_swaps
            },
        }
    }
}

/// Why a trading round or a user swap cannot go ahead.
#[derive(Clone, Copy, Debug, PartialEq, Eq, Structural)]
pub enum UserRoundError {
    /// Single-vault trading with no vault.
    NotEnoughVaults,
    /// Dual-vault trading with no active vault pair.
    NoDualVaultPairs,
    /// A pair index past the active pairs.
    NotEnoughVaultPairs,
}

impl UserRoundError {
    /// The message that the simulation reports for the error.
    pub fn message(&self) -> (r: &'static str)
        ensures
            r@ == match self {
                UserRoundError::NotEnoughVaults => "Not enough vaults"@,
                UserRoundError::NoDualVaultPairs => "No dual vault pairs configured for user simulator"@,
                UserRoundError::NotEnoughVaultPairs => "Not enough vault pairs"@,
            },
    {
        match self {
            UserRoundError::NotEnoughVaults => "Not enough vaults",
            UserRoundError::NoDualVaultPairs => "No dual vault pairs configured for user simulator",
            UserRoundError::NotEnoughVaultPairs => "Not enough vault pairs",
        }
    }
}

/// Decisions taken for the simulated users around each swap.
pub struct ManagerUtils;

impl ManagerUtils {
    /// Counts a swap result of a round: every result that came back counts
    /// as successful, its input adds to the volume of the token sold, and a
    /// swap through one or two vaults counts as a single- or dual-vault
    /// swap.
    pub fn record_swap_stats(stats: &mut TradingRoundStats, swap_result: &SwapResult)
        requires
            old(stats).can_record(
                swap_result.amount_in,
                swap_result.is_a_to_b,
                swap_result.vault_indices@.len(),
            ),
        ensures
            *final(stats) == old(stats).spec_record(
                swap_result.amount_in,
                swap_result.is_a_to_b,
                swap_result.vault_indices@.len(),
            ),
    {
        stats.successful_swaps = stats.successful_swaps + 1;
        if swap_result.is_a_to_b {
            stats.total_volume_a = stats.total_volume_a + swap_result.amount_in;
        } else {
            stats.total_volume_b = stats.total_volume_b + swap_result.amount_in;
        }
        let n = swap_result.vault_indices.len();
        if n == 1 {
            stats.single_vault_swaps = stats.single_vault_swaps + 1;
        } else if n == 2 {
            stats.dual_vault_swaps = stats.dual_vault_swaps + 1;
        }
    }

    /// Bounds a sampled swap amount to `[1, available_balance]`; `None` when
    /// that leaves nothing to swap.
    pub fn clamp_sample_amount(amount: u64, available_balance: u64) -> (r: Option<u64>)
        requires
            available_balance >= 1,
        ensures
            r == Some(
                if amount < 1 {
                    1u64
                } else if amount > available_balance {
                    available_balance
                } else {
                    amount
                },
            ),
    {
        let clamped = if amount < 1 {
            1
        } else if amount > available_balance {
            available_balance
        } else {
            amount
        };
        if clamped == 0 {
            None
        } else {
            Some(clamped)
        }
    }

    /// A random vault for a single-vault swap, none when there are no vaults.
    pub fn pick_single_vault_index(rng: &mut StdRng, vault_count: u8) -> (r: Option<usize>)
        ensures
            vault_count == 0 <==> r is None,
            r matches Some(i) ==> i < vault_count,
    {
        if vault_count == 0 {
            None
        } else {
            Some(random_u8_below(rng, vault_count) as usize)
        }
    }

    /// A random active pair for a dual-vault swap, none when no pair is
    /// active.
    pub fn pick_dual_vault_index(rng: &mut StdRng, vault_pairs: &[(u8, u8)]) -> (r: Option<usize>)
        ensures
            vault_pairs@.len() == 0 <==> r is None,
            r matches Some(i) ==> i < vault_pairs@.len(),
    {
        if vault_pairs.len() == 0 {
            None
        } else {
            Some(random_usize_below(rng, vault_pairs.len()))
        }
    }
}

impl SwapStrategy {
    /// A round can run when single-vault trading has a vault, or dual-vault
    /// trading has an active pair.
    pub fn ensure_vaults_available(&self, vault_count: u8, vault_pairs: &[(u8, u8)]) -> (r: Result<
        (),
        UserRoundError,
    >)
        ensures
            *self == SwapStrategy::SingleVault ==> (r is Err <==> vault_count == 0),
            *self == SwapStrategy::SingleVault && r is Err ==> r == Err::<(), UserRoundError>(UserRoundError::NotEnoughVaults),
            *self == SwapStrategy::DualVault ==> (r is Err <==> vault_pairs@.len() == 0),
            *self == SwapStrategy::DualVault && r is Err ==> r == Err::<(), UserRoundError>(UserRoundError::NoDualVaultPairs),
    {
        match self {
            SwapStrategy::SingleVault => {
                if vault_count == 0 {
                    Err(UserRoundError::NotEnoughVaults)
                } else {
                    Ok(())
                }
            },
            SwapStrategy::DualVault => {
                if vault_pairs.len() == 0 {
                    Err(UserRoundError::NoDualVaultPairs)
                } else {
                    Ok(())
                }
            },
        }
    }

    /// The vault (single) or pair (dual) that a user swap goes through.
    pub fn pick_vault_index(&self, rng: &mut StdRng, vault_count: u8, vault_pairs: &[(u8, u8)]) -> (r: Option<usize>)
        ensures
            *self == SwapStrategy::SingleVault ==> (r is None <==> vault_count == 0) && (r matches Some(i) ==> i < vault_count),
            *self == SwapStrategy::DualVault ==> (r is None <==> vault_pairs@.len() == 0) && (r matches Some(i) ==> i < vault_pairs@.len()),
    {
        match self {
            SwapStrategy::SingleVault => ManagerUtils::pick_single_vault_index(rng, vault_count),
            SwapStrategy::DualVault => ManagerUtils::pick_dual_vault_index(rng, vault_pairs),
        }
    }

    /// The vaults that a user swap with index `vault_index` goes through:
    /// the vault itself for single-vault trading, the indexed active pair
    /// for dual-vault trading.
    pub fn resolve_vaults(&self, vault_index: usize, vault_pairs: &[(u8, u8)]) -> (r: Result<
        Vec<u8>,
        UserRoundError,
    >)
        requires
            *self == SwapStrategy::SingleVault ==> vault_index <= u8::MAX,
        ensures
            *self == SwapStrategy::SingleVault ==> (r matches Ok(v) && v@ == seq![vault_index as u8]),
            *self == SwapStrategy::DualVault ==> (r is Err <==> vault_index >= vault_pairs@.len()),
            *self == SwapStrategy::DualVault && vault_index >= vault_pairs@.len() ==> (r matches Err(e) && e == UserRoundError::NotEnoughVaultPairs),
            *self == SwapStrategy::DualVault && vault_index < vault_pairs@.len() ==> (r matches Ok(v) && v@ == seq![vault_pairs@[vault_index as int].0, vault_pairs@[vault_index as int].1]),
    {
        match self {
            SwapStrategy::SingleVault => {
                let mut v: Vec<u8> = Vec::new();
                v.push(vault_index as u8);
                Ok(v)
            },
            SwapStrategy::DualVault => {
                if vault_index >= vault_pairs.len() {
                    return Err(UserRoundError::NotEnoughVaultPairs);
                }
                let (a, b) = vault_pairs[vault_index];
                let mut v: Vec<u8> = Vec::new();
                v.push(a);
                v.push(b);
                Ok(v)
            },
        }
    }
}

/// Swaps that went through and that failed in one slot.
#[derive(Clone, Copy, Debug, PartialEq, Eq, Structural)]
pub struct SlotResult {
    pub successful_swaps: u64,
    pub failed_swaps: u64,
}

impl Default for SlotResult {
    fn default() -> (r: SlotResult)
        ensures
            r.successful_swaps == 0 && r.failed_swaps == 0,
    {
        SlotResult { successful_swaps: 0, failed_swaps: 0 }
    }
}

impl SlotResult {
    /// The slot's counts from its users' trading round: the round's counters
    /// when it ran, one failed swap when it could not.
    pub fn from_round<E>(round: &Result<TradingRoundStats, E>) -> (r: SlotResult)
        ensures
            round matches Ok(s) ==> r.successful_swaps == s.successful_swaps && r.failed_swaps == s.failed_swaps,
            round is Err ==> r.successful_swaps == 0 && r.failed_swaps == 1,
    {
        let mut result = SlotResult::default();
        match round {
            Ok(stats) => {
                result.successful_swaps = stats.successful_swaps as u64;
                result.failed_swaps = stats.failed_swaps as u64;
            },
            Err(_) => {
                result.failed_swaps = result.failed_swaps + 1;
            },
        }
        result
    }
}

} // verus!
