use vstd::prelude::*;

verus! {

/// Whether an environment runs single-vault or dual-vault swaps.
#[derive(Clone, Copy, Debug, PartialEq, Eq, Structural)]
pub enum EnvMode {
    Single,
    Dual,
}

impl EnvMode {
    /// A dual environment needs at least two vaults; a single one takes any
    /// count.
    pub fn accepts_vault_count(&self, vault_count: u8) -> (r: bool)
        ensures
            r == !(*self == EnvMode::Dual && vault_count < 2),
    {
        !(*self == EnvMode::Dual && vault_count < 2)
    }
}

} // verus!
