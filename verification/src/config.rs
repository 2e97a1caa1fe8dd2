use vstd::prelude::*;

verus! {

/// Strategy code of single-vault simulations.
pub const STRATEGY_SINGLE: u8 = 1;

/// Strategy code of dual-vault simulations.
pub const STRATEGY_DUAL: u8 = 2;

/// Why a simulation configuration is refused.
#[derive(Clone, Copy, Debug)]
pub enum ValidationError {
    /// No vault.
    InvalidVaultCount,
    /// A dual-vault simulation with fewer than two vaults.
    InvalidDualVaultCount,
    /// No user.
    InvalidUserCount,
    /// A user balance range whose minimum is not below its maximum; names
    /// the token.
    InvalidBalanceRange(&'static str),
    /// A probability outside `[0, 1]`; names what it is the frequency of.
    InvalidFrequency(&'static str),
}

/// The check that refuses a configuration, first failing check first.
pub open spec fn spec_validate(
    vault_count: u8,
    strategy: u8,
    user_count: usize,
    balance_a: (u64, u64),
    balance_b: (u64, u64),
    swap_frequency_in_range: bool,
) -> Result<(), ValidationError> {
    if vault_count == 0 {
        Err(ValidationError::InvalidVaultCount)
    } else if strategy == 2 && vault_count < 2 {
        Err(ValidationError::InvalidDualVaultCount)
    } else if user_count == 0 {
        Err(ValidationError::InvalidUserCount)
    } else if balance_a.0 >= balance_a.1 {
        Err(ValidationError::InvalidBalanceRange("token A"))
    } else if balance_b.0 >= balance_b.1 {
        Err(ValidationError::InvalidBalanceRange("token B"))
    } else if !swap_frequency_in_range {
        Err(ValidationError::InvalidFrequency("swap"))
    } else {
        Ok(())
    }
}

/// Checks a simulation configuration: vaults and users are present, a dual
/// simulation has two vaults, each user balance range has its minimum below
/// its maximum, and the swap frequency (tested by the caller) lies in
/// `[0, 1]`. `balance_a` and `balance_b` are `(min, max)`.
pub fn validate_config(
    vault_count: u8,
    strategy: u8,
    user_count: usize,
    balance_a: (u64, u64),
    balance_b: (u64, u64),
    swap_frequency_in_range: bool,
) -> (r: Result<(), ValidationError>)
    ensures
        r == spec_validate(vault_count, strategy, user_count, balance_a, balance_b, swap_frequency_in_range),
{
    if vault_count == 0 {
        return Err(ValidationError::InvalidVaultCount);
    }
    if strategy == STRATEGY_DUAL && vault_count < 2 {
        return Err(ValidationError::InvalidDualVaultCount);
    }
    if user_count == 0 {
        return Err(ValidationError::InvalidUserCount);
    }
    if balance_a.0 >= balance_a.1 {
        return Err(ValidationError::InvalidBalanceRange("token A"));
    }
    if balance_b.0 >= balance_b.1 {
        return Err(ValidationError::InvalidBalanceRange("token B"));
    }
    if !swap_frequency_in_range {
        return Err(ValidationError::InvalidFrequency("swap"));
    }
    Ok(())
}

/// The vault count asked for, raised to `min_vaults` when one is given.
pub fn effective_vault_count(vault_count: u8, min_vaults: Option<u8>) -> (r: u8)
    ensures
        r == match min_vaults {
            Some(m) => if vault_count < m { m } else { vault_count },
            None => vault_count,
        },
{
    match min_vaults {
        Some(m) => if vault_count < m {
            m
        } else {
            vault_count
        },
        None => vault_count,
    }
}

/// A dual-vault simulation runs twice as many vaults, forming pairs.
pub fn dual_vault_count(vault_count: u8) -> (r: u8)
    requires
        2 * vault_count <= u8::MAX,
    ensures
        r == 2 * vault_count,
{
    vault_count * 2
}

/// A single-vault simulation puts twice the liquidity in each vault, making
/// up for having half as many vaults.
pub fn single_vault_liquidity(initial_liquidity_a: u64, initial_liquidity_b: u64) -> (r: (u64, u64))
    requires
        2 * initial_liquidity_a <= u64::MAX,
        2 * initial_liquidity_b <= u64::MAX,
    ensures
        r.0 == 2 * initial_liquidity_a,
        r.1 == 2 * initial_liquidity_b,
{
    (initial_liquidity_a * 2, initial_liquidity_b * 2)
}

/// An arbitrageur starts with the deposit of every vault: `vault_count`
/// times each vault's deposit.
pub fn arbitrageur_balances(deposit_a: u64, deposit_b: u64, vault_count: u8) -> (r: (u64, u64))
    requires
        deposit_a * vault_count <= u64::MAX,
        deposit_b * vault_count <= u64::MAX,
    ensures
        r.0 == deposit_a * vault_count,
        r.1 == deposit_b * vault_count,
{
    (deposit_a * vault_count as u64, deposit_b * vault_count as u64)
}

/// Of a valid configuration: it has a vault and a user, and a dual one has
/// at least two vaults.
pub proof fn lemma_valid_config_has_vaults(
    vault_count: u8,
    strategy: u8,
    user_count: usize,
    balance_a: (u64, u64),
    balance_b: (u64, u64),
    swap_frequency_in_range: bool,
)
    requires
        spec_validate(vault_count, strategy, user_count, balance_a, balance_b, swap_frequency_in_range) is Ok,
    ensures
        vault_count >= 1,
        user_count >= 1,
        strategy == 2 ==> vault_count >= 2,
        balance_a.0 < balance_a.1,
        balance_b.0 < balance_b.1,
        swap_frequency_in_range,
{
}

} // verus!
