use vstd::prelude::*;
use vstd::string::StringSliceAdditionalSpecFns;

use crate::accounts::{
    in_out, pick_in_out, readonly, ro, w, writable, AccountSpec, TokenAccounts,
};
use crate::address::{
    address_of, associated_token_address, derive_address, get_associated_token_address,
    key_bytes, key_view,
};
use crate::fee::FeeOption;
use crate::instruction::{
    data_three_args, data_two_args, data_with_u64_args, discriminator, discriminator_vec,
    push_all,
};
use crate::registry::{spec_decode_registry, RegistryDecodeError, VaultRegistry};

verus! {

/// A program instruction: the program, its accounts in order and its data.
#[derive(Debug)]
pub struct InstructionSpec {
    pub program_id: [u8; 32],
    pub accounts: Vec<AccountSpec>,
    pub data: Vec<u8>,
}

/// Why an instruction cannot be built.
#[derive(Clone, Copy, Debug, PartialEq, Eq, Structural)]
pub enum BuildError {
    /// The registry account's data does not decode.
    Registry(RegistryDecodeError),
    /// An address that the instruction needs has no program address: no
    /// bump seed gives one off the curve, or a seed is too long.
    NoProgramAddress,
}

/// The address of the registry of a mint pair.
pub open spec fn spec_registry_address(program_id: Seq<u8>, seed: Seq<u8>, mint_a: Seq<u8>, mint_b: Seq<u8>) -> Option<Seq<u8>> {
    address_of(seq![seed, mint_a, mint_b], program_id)
}

/// The address of the vault with a given index in a registry.
pub open spec fn spec_vault_address(program_id: Seq<u8>, seed: Seq<u8>, registry: Seq<u8>, index: u8) -> Option<Seq<u8>> {
    address_of(seq![seed, registry, seq![index]], program_id)
}

/// The address of a vault's LP mint.
pub open spec fn spec_lp_mint_address(program_id: Seq<u8>, seed: Seq<u8>, vault: Seq<u8>) -> Option<Seq<u8>> {
    address_of(seq![seed, vault], program_id)
}

/// `t` holds `owner` and its associated token accounts for both mints.
pub open spec fn owns_token_accounts(t: TokenAccounts, owner: [u8; 32], mint_a: Seq<u8>, mint_b: Seq<u8>) -> bool {
    &&& t.owner == owner
    &&& associated_token_address(owner@, mint_a) == Some(t.token_a@)
    &&& associated_token_address(owner@, mint_b) == Some(t.token_b@)
}

/// `owner` has an associated token account for both mints.
pub open spec fn has_token_accounts(owner: Seq<u8>, mint_a: Seq<u8>, mint_b: Seq<u8>) -> bool {
    &&& associated_token_address(owner, mint_a) is Some
    &&& associated_token_address(owner, mint_b) is Some
}

/// The vault with index `index` of the registry has an address, and it has
/// token accounts for both of the registry's mints.
pub open spec fn vault_exists(program_id: Seq<u8>, seed: Seq<u8>, registry: Seq<u8>, index: u8, reg: VaultRegistry) -> bool {
    match spec_vault_address(program_id, seed, registry, index) {
        Some(v) => has_token_accounts(v, reg.token_a@, reg.token_b@),
        None => false,
    }
}

pub open spec fn spec_registry_init_accounts(payer: [u8; 32], registry: [u8; 32], token_program: [u8; 32], system_program: [u8; 32]) -> Seq<AccountSpec> {
    seq![
        writable(payer, true),
        writable(registry, false),
        readonly(token_program),
        readonly(system_program),
    ]
}

pub open spec fn spec_vault_init_accounts(
    payer: [u8; 32],
    registry: [u8; 32],
    vault: TokenAccounts,
    mint_a: [u8; 32],
    mint_b: [u8; 32],
    mint_lp: [u8; 32],
    token_program: [u8; 32],
    associated_token_program: [u8; 32],
    system_program: [u8; 32],
) -> Seq<AccountSpec> {
    seq![
        writable(payer, true),
        writable(registry, false),
        writable(vault.owner, false),
        readonly(mint_a),
        readonly(mint_b),
        writable(mint_lp, false),
        writable(vault.token_a, false),
        writable(vault.token_b, false),
        readonly(token_program),
        readonly(associated_token_program),
        readonly(system_program),
    ]
}

pub open spec fn spec_single_swap_accounts(
    user: TokenAccounts,
    registry: [u8; 32],
    vault: TokenAccounts,
    mint_a: [u8; 32],
    mint_b: [u8; 32],
    token_program: [u8; 32],
    is_a_to_b: bool,
) -> Seq<AccountSpec> {
    seq![
        writable(user.owner, true),
        readonly(registry),
        writable(vault.owner, false),
        writable(in_out(is_a_to_b, vault.token_a, vault.token_b).0, false),
        writable(in_out(is_a_to_b, vault.token_a, vault.token_b).1, false),
        writable(in_out(is_a_to_b, user.token_a, user.token_b).0, false),
        writable(in_out(is_a_to_b, user.token_a, user.token_b).1, false),
        readonly(in_out(is_a_to_b, mint_a, mint_b).0),
        readonly(in_out(is_a_to_b, mint_a, mint_b).1),
        readonly(token_program),
    ]
}

pub open spec fn spec_dual_swap_accounts(
    user: TokenAccounts,
    registry: [u8; 32],
    vault1: TokenAccounts,
    vault2: TokenAccounts,
    mint_a: [u8; 32],
    mint_b: [u8; 32],
    clock: [u8; 32],
    token_program: [u8; 32],
    is_a_to_b: bool,
) -> Seq<AccountSpec> {
    seq![
        writable(user.owner, true),
        readonly(registry),
        writable(vault1.owner, false),
        writable(vault2.owner, false),
        writable(in_out(is_a_to_b, vault1.token_a, vault1.token_b).0, false),
        writable(in_out(is_a_to_b, vault1.token_a, vault1.token_b).1, false),
        writable(in_out(is_a_to_b, vault2.token_a, vault2.token_b).0, false),
        writable(in_out(is_a_to_b, vault2.token_a, vault2.token_b).1, false),
        writable(in_out(is_a_to_b, user.token_a, user.token_b).0, false),
        writable(in_out(is_a_to_b, user.token_a, user.token_b).1, false),
        readonly(in_out(is_a_to_b, mint_a, mint_b).0),
        readonly(in_out(is_a_to_b, mint_a, mint_b).1),
        readonly(clock),
        readonly(token_program),
    ]
}

pub open spec fn spec_liquidity_accounts(
    user: TokenAccounts,
    user_lp_token: [u8; 32],
    registry: [u8; 32],
    vault: TokenAccounts,
    mint_a: [u8; 32],
    mint_b: [u8; 32],
    lp_mint: [u8; 32],
    token_program: [u8; 32],
    associated_token_program: [u8; 32],
    system_program: [u8; 32],
) -> Seq<AccountSpec> {
    seq![
        writable(user.owner, true),
        readonly(registry),
        writable(vault.owner, false),
        readonly(mint_a),
        readonly(mint_b),
        writable(vault.token_a, false),
        writable(vault.token_b, false),
        writable(user.token_a, false),
        writable(user.token_b, false),
        writable(user_lp_token, false),
        writable(lp_mint, false),
        readonly(token_program),
        readonly(associated_token_program),
        readonly(system_program),
    ]
}

/// `a` is the account `key` with the given signer and writable flags.
pub open spec fn account_is(a: AccountSpec, key: [u8; 32], signer: bool, writable: bool) -> bool {
    a.pubkey == key && a.is_signer == signer && a.is_writable == writable
}

/// `a` is a writable, non-signing account whose key is `owner`'s associated
/// token account for `mint`.
pub open spec fn token_account_of(a: AccountSpec, owner: [u8; 32], mint: [u8; 32]) -> bool {
    &&& associated_token_address(owner@, mint@) == Some(a.pubkey@)
    &&& !a.is_signer
    &&& a.is_writable
}

/// The mint that a swap takes in: `mint_a` from A to B, `mint_b` the other
/// way.
pub open spec fn input_mint(is_a_to_b: bool, mint_a: [u8; 32], mint_b: [u8; 32]) -> [u8; 32] {
    if is_a_to_b {
        mint_a
    } else {
        mint_b
    }
}

/// The mint that a swap pays out.
pub open spec fn output_mint(is_a_to_b: bool, mint_a: [u8; 32], mint_b: [u8; 32]) -> [u8; 32] {
    if is_a_to_b {
        mint_b
    } else {
        mint_a
    }
}

/// A single swap's accounts route every token by its mint: the user signs,
/// the vault and each token account it moves are writable, and the vault's
/// and the user's input accounts belong to the input mint, which the mint
/// accounts name, and the output accounts to the other mint.
pub open spec fn routes_single_swap(
    accounts: Seq<AccountSpec>,
    user: [u8; 32],
    registry: [u8; 32],
    vault: [u8; 32],
    mint_a: [u8; 32],
    mint_b: [u8; 32],
    token_program: [u8; 32],
    is_a_to_b: bool,
) -> bool {
    let mint_in = input_mint(is_a_to_b, mint_a, mint_b);
    let mint_out = output_mint(is_a_to_b, mint_a, mint_b);
    &&& accounts.len() == 10
    &&& account_is(accounts[0], user, true, true)
    &&& account_is(accounts[1], registry, false, false)
    &&& account_is(accounts[2], vault, false, true)
    &&& token_account_of(accounts[3], vault, mint_in)
    &&& token_account_of(accounts[4], vault, mint_out)
    &&& token_account_of(accounts[5], user, mint_in)
    &&& token_account_of(accounts[6], user, mint_out)
    &&& account_is(accounts[7], mint_in, false, false)
    &&& account_is(accounts[8], mint_out, false, false)
    &&& account_is(accounts[9], token_program, false, false)
}

/// A dual swap's accounts route every token by its mint: for the user and
/// for both vaults of the pair, the input account belongs to the input mint
/// and the output account to the other mint; everything that moves tokens
/// is writable.
pub open spec fn routes_dual_swap(
    accounts: Seq<AccountSpec>,
    user: [u8; 32],
    registry: [u8; 32],
    vault1: [u8; 32],
    vault2: [u8; 32],
    mint_a: [u8; 32],
    mint_b: [u8; 32],
    clock: [u8; 32],
    token_program: [u8; 32],
    is_a_to_b: bool,
) -> bool {
    let mint_in = input_mint(is_a_to_b, mint_a, mint_b);
    let mint_out = output_mint(is_a_to_b, mint_a, mint_b);
    &&& accounts.len() == 14
    &&& account_is(accounts[0], user, true, true)
    &&& account_is(accounts[1], registry, false, false)
    &&& account_is(accounts[2], vault1, false, true)
    &&& account_is(accounts[3], vault2, false, true)
    &&& token_account_of(accounts[4], vault1, mint_in)
    &&& token_account_of(accounts[5], vault1, mint_out)
    &&& token_account_of(accounts[6], vault2, mint_in)
    &&& token_account_of(accounts[7], vault2, mint_out)
    &&& token_account_of(accounts[8], user, mint_in)
    &&& token_account_of(accounts[9], user, mint_out)
    &&& account_is(accounts[10], mint_in, false, false)
    &&& account_is(accounts[11], mint_out, false, false)
    &&& account_is(accounts[12], clock, false, false)
    &&& account_is(accounts[13], token_program, false, false)
}

/// A liquidity change's accounts: everything whose balance or supply it
/// changes is writable (the user, who signs, the vault, the vault's and the
/// user's token accounts of both mints, the user's LP token account and the
/// LP mint); only the registry, the two mints and the three programs are
/// read-only.
pub open spec fn liquidity_accounts_ok(
    accounts: Seq<AccountSpec>,
    user: [u8; 32],
    registry: [u8; 32],
    vault: [u8; 32],
    mint_a: [u8; 32],
    mint_b: [u8; 32],
    lp_mint: [u8; 32],
    token_program: [u8; 32],
    associated_token_program: [u8; 32],
    system_program: [u8; 32],
) -> bool {
    &&& accounts.len() == 14
    &&& account_is(accounts[0], user, true, true)
    &&& account_is(accounts[1], registry, false, false)
    &&& account_is(accounts[2], vault, false, true)
    &&& account_is(accounts[3], mint_a, false, false)
    &&& account_is(accounts[4], mint_b, false, false)
    &&& token_account_of(accounts[5], vault, mint_a)
    &&& token_account_of(accounts[6], vault, mint_b)
    &&& token_account_of(accounts[7], user, mint_a)
    &&& token_account_of(accounts[8], user, mint_b)
    &&& token_account_of(accounts[9], user, lp_mint)
    &&& account_is(accounts[10], lp_mint, false, true)
    &&& account_is(accounts[11], token_program, false, false)
    &&& account_is(accounts[12], associated_token_program, false, false)
    &&& account_is(accounts[13], system_program, false, false)
}

/// The accounts of `initialize_vault`: everything it creates or changes is
/// writable (the payer, who signs, the registry, the vault, its LP mint and
/// its token accounts of both mints); only the two mints and the three
/// programs are read-only.
pub open spec fn vault_init_accounts_ok(
    accounts: Seq<AccountSpec>,
    payer: [u8; 32],
    registry: [u8; 32],
    vault: [u8; 32],
    mint_a: [u8; 32],
    mint_b: [u8; 32],
    lp_mint: [u8; 32],
    token_program: [u8; 32],
    associated_token_program: [u8; 32],
    system_program: [u8; 32],
) -> bool {
    &&& accounts.len() == 11
    &&& account_is(accounts[0], payer, true, true)
    &&& account_is(accounts[1], registry, false, true)
    &&& account_is(accounts[2], vault, false, true)
    &&& account_is(accounts[3], mint_a, false, false)
    &&& account_is(accounts[4], mint_b, false, false)
    &&& account_is(accounts[5], lp_mint, false, true)
    &&& token_account_of(accounts[6], vault, mint_a)
    &&& token_account_of(accounts[7], vault, mint_b)
    &&& account_is(accounts[8], token_program, false, false)
    &&& account_is(accounts[9], associated_token_program, false, false)
    &&& account_is(accounts[10], system_program, false, false)
}

/// A single swap sends each token through the vault's and the user's
/// accounts of its own mint: input to input mint, output to output mint.
pub proof fn lemma_single_swap_routes_by_mint(
    user: TokenAccounts,
    registry: [u8; 32],
    vault: TokenAccounts,
    mint_a: [u8; 32],
    mint_b: [u8; 32],
    token_program: [u8; 32],
    is_a_to_b: bool,
)
    requires
        owns_token_accounts(user, user.owner, mint_a@, mint_b@),
        owns_token_accounts(vault, vault.owner, mint_a@, mint_b@),
    ensures
        routes_single_swap(
            spec_single_swap_accounts(user, registry, vault, mint_a, mint_b, token_program, is_a_to_b),
            user.owner, registry, vault.owner, mint_a, mint_b, token_program, is_a_to_b,
        ),
{
}

/// A dual swap sends each token through the accounts of its own mint, for
/// the user and for both vaults of the pair alike.
pub proof fn lemma_dual_swap_routes_by_mint(
    user: TokenAccounts,
    registry: [u8; 32],
    vault1: TokenAccounts,
    vault2: TokenAccounts,
    mint_a: [u8; 32],
    mint_b: [u8; 32],
    clock: [u8; 32],
    token_program: [u8; 32],
    is_a_to_b: bool,
)
    requires
        owns_token_accounts(user, user.owner, mint_a@, mint_b@),
        owns_token_accounts(vault1, vault1.owner, mint_a@, mint_b@),
        owns_token_accounts(vault2, vault2.owner, mint_a@, mint_b@),
    ensures
        routes_dual_swap(
            spec_dual_swap_accounts(user, registry, vault1, vault2, mint_a, mint_b, clock, token_program, is_a_to_b),
            user.owner, registry, vault1.owner, vault2.owner, mint_a, mint_b, clock, token_program, is_a_to_b,
        ),
{
}

/// A liquidity change can write every account whose tokens it moves,
/// mints or burns.
pub proof fn lemma_liquidity_accounts_writable(
    user: TokenAccounts,
    user_lp_token: [u8; 32],
    registry: [u8; 32],
    vault: TokenAccounts,
    mint_a: [u8; 32],
    mint_b: [u8; 32],
    lp_mint: [u8; 32],
    token_program: [u8; 32],
    associated_token_program: [u8; 32],
    system_program: [u8; 32],
)
    requires
        owns_token_accounts(user, user.owner, mint_a@, mint_b@),
        owns_token_accounts(vault, vault.owner, mint_a@, mint_b@),
        associated_token_address(user.owner@, lp_mint@) == Some(user_lp_token@),
    ensures
        liquidity_accounts_ok(
            spec_liquidity_accounts(user, user_lp_token, registry, vault, mint_a, mint_b, lp_mint, token_program, associated_token_program, system_program),
            user.owner, registry, vault.owner, mint_a, mint_b, lp_mint, token_program, associated_token_program, system_program,
        ),
{
}

/// `initialize_vault` can write every account it creates or changes.
pub proof fn lemma_vault_init_accounts_writable(
    payer: [u8; 32],
    registry: [u8; 32],
    vault: TokenAccounts,
    mint_a: [u8; 32],
    mint_b: [u8; 32],
    lp_mint: [u8; 32],
    token_program: [u8; 32],
    associated_token_program: [u8; 32],
    system_program: [u8; 32],
)
    requires
        owns_token_accounts(vault, vault.owner, mint_a@, mint_b@),
    ensures
        vault_init_accounts_ok(
            spec_vault_init_accounts(payer, registry, vault, mint_a, mint_b, lp_mint, token_program, associated_token_program, system_program),
            payer, registry, vault.owner, mint_a, mint_b, lp_mint, token_program, associated_token_program, system_program,
        ),
{
}

/// Builds the instruction that creates a vault registry.
pub struct RegistryUtils;

impl RegistryUtils {
    /// The registry address of a mint pair.
    pub fn registry_address(program_id: [u8; 32], registry_seed: &[u8], mint_a: [u8; 32], mint_b: [u8; 32]) -> (r: Option<[u8; 32]>)
        ensures
            key_view(r) == spec_registry_address(program_id@, registry_seed@, mint_a@, mint_b@),
    {
        let mut seeds: Vec<Vec<u8>> = Vec::new();
        seeds.push(key_bytes(registry_seed));
        seeds.push(key_bytes(&mint_a));
        seeds.push(key_bytes(&mint_b));
        assert(seeds.deep_view() =~= seq![registry_seed@, mint_a@, mint_b@]);
        derive_address(&seeds, program_id)
    }

    /// Data of `initialize_vault_registry`: the discriminator, both mints and
    /// the fee tier's tag.
    pub fn initialize_vault_registry_data(mint_a: &[u8; 32], mint_b: &[u8; 32], fee: FeeOption) -> (r: Vec<u8>)
        ensures
            r@ == discriminator("initialize_vault_registry".spec_bytes()) + mint_a@ + mint_b@ + seq![
                fee.spec_tag(),
            ],
    {
        let mut out = discriminator_vec("initialize_vault_registry");
        push_all(&mut out, mint_a);
        push_all(&mut out, mint_b);
        out.push(fee.tag());
        out
    }

    /// The instruction that creates the registry of a mint pair, and the
    /// registry's address.
    pub fn initialize_vault_registry_instruction(
        program_id: [u8; 32],
        registry_seed: &[u8],
        payer: [u8; 32],
        mint_a: [u8; 32],
        mint_b: [u8; 32],
        fee: FeeOption,
        token_program: [u8; 32],
        system_program: [u8; 32],
    ) -> (r: Option<(InstructionSpec, [u8; 32])>)
        ensures
            r is Some <==> spec_registry_address(program_id@, registry_seed@, mint_a@, mint_b@) is Some,
            r matches Some((ix, registry)) ==> {
                &&& spec_registry_address(program_id@, registry_seed@, mint_a@, mint_b@) == Some(registry@)
                &&& ix.program_id == program_id
                &&& ix.accounts@ == spec_registry_init_accounts(payer, registry, token_program, system_program)
                &&& ix.data@ == discriminator("initialize_vault_registry".spec_bytes()) + mint_a@ + mint_b@
                    + seq![fee.spec_tag()]
            },
    {
        let registry = match Self::registry_address(program_id, registry_seed, mint_a, mint_b) {
            Some(k) => k,
            None => {
                return None;
            },
        };
        let mut accounts: Vec<AccountSpec> = Vec::new();
        accounts.push(w(payer, true));
        accounts.push(w(registry, false));
        accounts.push(ro(token_program));
        accounts.push(ro(system_program));
        assert(accounts@ =~= spec_registry_init_accounts(payer, registry, token_program, system_program));
        let data = Self::initialize_vault_registry_data(&mint_a, &mint_b, fee);
        Some((InstructionSpec { program_id, accounts, data }, registry))
    }
}

/// Addresses and instructions of the vaults of a registry.
pub struct VaultUtils;

impl VaultUtils {
    /// The address of the vault with index `vault_index` in `registry`.
    pub fn vault_address(program_id: [u8; 32], vault_seed: &[u8], registry: [u8; 32], vault_index: u8) -> (r: Option<[u8; 32]>)
        ensures
            key_view(r) == spec_vault_address(program_id@, vault_seed@, registry@, vault_index),
    {
        let mut index_seed: Vec<u8> = Vec::new();
        index_seed.push(vault_index);
        let mut seeds: Vec<Vec<u8>> = Vec::new();
        seeds.push(key_bytes(vault_seed));
        seeds.push(key_bytes(&registry));
        seeds.push(index_seed);
        assert(seeds@[2].deep_view() =~= seq![vault_index]);
        assert(seeds.deep_view() =~= seq![vault_seed@, registry@, seq![vault_index]]);
        derive_address(&seeds, program_id)
    }

    /// The address of a vault's LP mint.
    pub fn get_vault_lp_mint(program_id: [u8; 32], lp_seed: &[u8], vault: [u8; 32]) -> (r: Option<[u8; 32]>)
        ensures
            key_view(r) == spec_lp_mint_address(program_id@, lp_seed@, vault@),
    {
        let mut seeds: Vec<Vec<u8>> = Vec::new();
        seeds.push(key_bytes(lp_seed));
        seeds.push(key_bytes(&vault));
        assert(seeds.deep_view() =~= seq![lp_seed@, vault@]);
        derive_address(&seeds, program_id)
    }

    /// A vault's (or a user's) associated token account for `mint`.
    pub fn get_vault_token_account(owner: [u8; 32], mint: [u8; 32]) -> (r: Option<[u8; 32]>)
        ensures
            key_view(r) == associated_token_address(owner@, mint@),
    {
        get_associated_token_address(owner, mint)
    }

    /// `owner` with its associated token accounts for both mints, when both
    /// have an address.
    pub fn token_accounts(owner: [u8; 32], mint_a: [u8; 32], mint_b: [u8; 32]) -> (r: Option<TokenAccounts>)
        ensures
            r is Some <==> has_token_accounts(owner@, mint_a@, mint_b@),
            r matches Some(t) ==> owns_token_accounts(t, owner, mint_a@, mint_b@),
    {
        let token_a = match get_associated_token_address(owner, mint_a) {
            Some(k) => k,
            None => {
                return None;
            },
        };
        let token_b = match get_associated_token_address(owner, mint_b) {
            Some(k) => k,
            None => {
                return None;
            },
        };
        Some(TokenAccounts { owner, token_a, token_b })
    }

    /// Data of `initialize_vault`, which takes no argument.
    pub fn initialize_vault_data() -> (r: Vec<u8>)
        ensures
            r@ == discriminator("initialize_vault".spec_bytes()),
    {
        discriminator_vec("initialize_vault")
    }

    /// The instruction that adds the next vault to a registry, given the
    /// registry account's data, and the new vault's accounts and LP mint.
    /// The vault's index is the registry's vault count; the vault is derived
    /// under `vault_program_id`, its LP mint under `program_id`.
    pub fn init_vault_instruction(
        program_id: [u8; 32],
        vault_program_id: [u8; 32],
        registry: [u8; 32],
        registry_data: &[u8],
        vault_seed: &[u8],
        lp_seed: &[u8],
        payer: [u8; 32],
        token_program: [u8; 32],
        associated_token_program: [u8; 32],
        system_program: [u8; 32],
    ) -> (r: Result<(InstructionSpec, TokenAccounts, [u8; 32]), BuildError>)
        ensures
            spec_decode_registry(registry_data@) matches Err(e) ==> r == Err::<(InstructionSpec, TokenAccounts, [u8; 32]), BuildError>(BuildError::Registry(e)),
            spec_decode_registry(registry_data@) matches Ok(reg) ==> {
                &&& r is Ok <==> (vault_exists(vault_program_id@, vault_seed@, registry@, reg.vault_count, reg)
                    && spec_lp_mint_address(program_id@, lp_seed@, spec_vault_address(vault_program_id@, vault_seed@, registry@, reg.vault_count)->0) is Some)
                &&& r is Err ==> r == Err::<(InstructionSpec, TokenAccounts, [u8; 32]), BuildError>(BuildError::NoProgramAddress)
                &&& r matches Ok((ix, vault, lp_mint)) ==> {
                    &&& spec_vault_address(vault_program_id@, vault_seed@, registry@, reg.vault_count) == Some(vault.owner@)
                    &&& owns_token_accounts(vault, vault.owner, reg.token_a@, reg.token_b@)
                    &&& spec_lp_mint_address(program_id@, lp_seed@, vault.owner@) == Some(lp_mint@)
                    &&& ix.program_id == program_id
                    &&& ix.accounts@ == spec_vault_init_accounts(payer, registry, vault, reg.token_a, reg.token_b, lp_mint, token_program, associated_token_program, system_program)
                    &&& vault_init_accounts_ok(ix.accounts@, payer, registry, vault.owner, reg.token_a, reg.token_b, lp_mint, token_program, associated_token_program, system_program)
                    &&& ix.data@ == discriminator("initialize_vault".spec_bytes())
                }
            },
    {
        let reg = match VaultRegistry::from_account_data(registry_data) {
            Ok(reg) => reg,
            Err(e) => {
                return Err(BuildError::Registry(e));
            },
        };
        let vault_key = match Self::vault_address(vault_program_id, vault_seed, registry, reg.vault_count) {
            Some(k) => k,
            None => {
                return Err(BuildError::NoProgramAddress);
            },
        };
        let vault = match Self::token_accounts(vault_key, reg.token_a, reg.token_b) {
            Some(t) => t,
            None => {
                return Err(BuildError::NoProgramAddress);
            },
        };
        let lp_mint = match Self::get_vault_lp_mint(program_id, lp_seed, vault_key) {
            Some(k) => k,
            None => {
                return Err(BuildError::NoProgramAddress);
            },
        };
        let mut accounts: Vec<AccountSpec> = Vec::new();
        accounts.push(w(payer, true));
        accounts.push(w(registry, false));
        accounts.push(w(vault.owner, false));
        accounts.push(ro(reg.token_a));
        accounts.push(ro(reg.token_b));
        accounts.push(w(lp_mint, false));
        accounts.push(w(vault.token_a, false));
        accounts.push(w(vault.token_b, false));
        accounts.push(ro(token_program));
        accounts.push(ro(associated_token_program));
        accounts.push(ro(system_program));
        assert(accounts@ =~= spec_vault_init_accounts(payer, registry, vault, reg.token_a, reg.token_b, lp_mint, token_program, associated_token_program, system_program));
        proof {
            lemma_vault_init_accounts_writable(payer, registry, vault, reg.token_a, reg.token_b, lp_mint, token_program, associated_token_program, system_program);
        }
        let data = Self::initialize_vault_data();
        Ok((InstructionSpec { program_id, accounts, data }, vault, lp_mint))
    }
}

/// What a single swap sends, with the accounts it touches.
#[derive(Debug)]
pub struct SingleSwapPlan {
    pub instruction: InstructionSpec,
    pub user: TokenAccounts,
    pub vault: TokenAccounts,
    /// The user's token account that receives the swap's output.
    pub user_out_token: [u8; 32],
}

/// What a dual swap sends, with the accounts it touches.
#[derive(Debug)]
pub struct DualSwapPlan {
    pub instruction: InstructionSpec,
    pub user: TokenAccounts,
    pub vault1: TokenAccounts,
    pub vault2: TokenAccounts,
    /// The user's token account that receives the swap's output.
    pub user_out_token: [u8; 32],
}

/// What a swap through one vault gave.
#[derive(Clone, Copy, Debug, PartialEq, Eq, Structural)]
pub struct SwapExecution {
    pub amount_out: u64,
    pub compute_units: u64,
}

/// What a swap through a pair of vaults gave.
#[derive(Clone, Copy, Debug, PartialEq, Eq, Structural)]
pub struct DualSwapExecution {
    pub amount_out: u64,
    pub compute_units: u64,
}

/// The amount a swap paid out: what the user's output account gained, zero
/// when it did not grow.
pub open spec fn received(balance_before: u64, balance_after: u64) -> u64 {
    if balance_after >= balance_before {
        (balance_after - balance_before) as u64
    } else {
        0
    }
}

/// Builds swaps through one vault and reads their result.
pub struct SingleSwapUtils;

impl SingleSwapUtils {
    /// Data of `swap_single`: the discriminator, the input amount and the
    /// least output accepted.
    pub fn swap_data(amount_in: u64, minimum_amount_out: u64) -> (r: Vec<u8>)
        ensures
            r@ == data_with_u64_args("swap_single".spec_bytes(), seq![amount_in, minimum_amount_out]),
    {
        data_two_args("swap_single", amount_in, minimum_amount_out)
    }

    /// The swap of `amount_in` by `user` through the vault with index
    /// `vault_index` of the registry whose account data is `registry_data`.
    pub fn swap_instruction(
        program_id: [u8; 32],
        registry: [u8; 32],
        registry_data: &[u8],
        vault_seed: &[u8],
        vault_index: u8,
        user: [u8; 32],
        amount_in: u64,
        minimum_amount_out: u64,
        is_a_to_b: bool,
        token_program: [u8; 32],
    ) -> (r: Result<SingleSwapPlan, BuildError>)
        ensures
            spec_decode_registry(registry_data@) matches Err(e) ==> (r matches Err(f) && f == BuildError::Registry(e)),
            spec_decode_registry(registry_data@) matches Ok(reg) ==> {
                &&& r is Ok <==> (vault_exists(program_id@, vault_seed@, registry@, vault_index, reg)
                    && has_token_accounts(user@, reg.token_a@, reg.token_b@))
                &&& r matches Err(f) ==> f == BuildError::NoProgramAddress
                &&& r matches Ok(plan) ==> {
                    &&& spec_vault_address(program_id@, vault_seed@, registry@, vault_index) == Some(plan.vault.owner@)
                    &&& owns_token_accounts(plan.vault, plan.vault.owner, reg.token_a@, reg.token_b@)
                    &&& owns_token_accounts(plan.user, user, reg.token_a@, reg.token_b@)
                    &&& plan.user_out_token == in_out(is_a_to_b, plan.user.token_a, plan.user.token_b).1
                    &&& plan.instruction.program_id == program_id
                    &&& plan.instruction.accounts@ == spec_single_swap_accounts(plan.user, registry, plan.vault, reg.token_a, reg.token_b, token_program, is_a_to_b)
                    &&& routes_single_swap(plan.instruction.accounts@, user, registry, plan.vault.owner, reg.token_a, reg.token_b, token_program, is_a_to_b)
                    &&& associated_token_address(user@, output_mint(is_a_to_b, reg.token_a, reg.token_b)@) == Some(plan.user_out_token@)
                    &&& plan.instruction.data@ == data_with_u64_args("swap_single".spec_bytes(), seq![amount_in, minimum_amount_out])
                }
            },
    {
        let reg = match VaultRegistry::from_account_data(registry_data) {
            Ok(reg) => reg,
            Err(e) => {
                return Err(BuildError::Registry(e));
            },
        };
        let vault = match VaultUtils::vault_address(program_id, vault_seed, registry, vault_index) {
            Some(k) => match VaultUtils::token_accounts(k, reg.token_a, reg.token_b) {
                Some(t) => t,
                None => {
                    return Err(BuildError::NoProgramAddress);
                },
            },
            None => {
                return Err(BuildError::NoProgramAddress);
            },
        };
        let user_acc = match VaultUtils::token_accounts(user, reg.token_a, reg.token_b) {
            Some(t) => t,
            None => {
                return Err(BuildError::NoProgramAddress);
            },
        };
        let (vault_in, vault_out) = pick_in_out(is_a_to_b, vault.token_a, vault.token_b);
        let (user_in, user_out) = pick_in_out(is_a_to_b, user_acc.token_a, user_acc.token_b);
        let (mint_in, mint_out) = pick_in_out(is_a_to_b, reg.token_a, reg.token_b);
        let mut accounts: Vec<AccountSpec> = Vec::new();
        accounts.push(w(user, true));
        accounts.push(ro(registry));
        accounts.push(w(vault.owner, false));
        accounts.push(w(vault_in, false));
        accounts.push(w(vault_out, false));
        accounts.push(w(user_in, false));
        accounts.push(w(user_out, false));
        accounts.push(ro(mint_in));
        accounts.push(ro(mint_out));
        accounts.push(ro(token_program));
        assert(accounts@ =~= spec_single_swap_accounts(user_acc, registry, vault, reg.token_a, reg.token_b, token_program, is_a_to_b));
        proof {
            lemma_single_swap_routes_by_mint(user_acc, registry, vault, reg.token_a, reg.token_b, token_program, is_a_to_b);
        }
        let data = Self::swap_data(amount_in, minimum_amount_out);
        Ok(SingleSwapPlan {
            instruction: InstructionSpec { program_id, accounts, data },
            user: user_acc,
            vault,
            user_out_token: user_out,
        })
    }

    /// The result of a swap, from the output account's balance before and
    /// after it and the compute units it used.
    pub fn execution(balance_before: u64, balance_after: u64, compute_units: u64) -> (r: SwapExecution)
        ensures
            r.amount_out == received(balance_before, balance_after),
            r.compute_units == compute_units,
    {
        SwapExecution { amount_out: balance_after.saturating_sub(balance_before), compute_units }
    }
}

/// Builds swaps through a pair of vaults and reads their result.
pub struct DualSwapUtils;

impl DualSwapUtils {
    /// Data of `swap_dual_deterministic`: the discriminator, the input amount
    /// and the least output accepted.
    pub fn swap_data(amount_in: u64, minimum_amount_out: u64) -> (r: Vec<u8>)
        ensures
            r@ == data_with_u64_args("swap_dual_deterministic".spec_bytes(), seq![amount_in, minimum_amount_out]),
    {
        data_two_args("swap_dual_deterministic", amount_in, minimum_amount_out)
    }

    /// The swap of `amount_in` by `user` through the vaults with indices
    /// `vault1_index` and `vault2_index` of the registry whose account data is
    /// `registry_data`.
    pub fn swap_instruction(
        program_id: [u8; 32],
        registry: [u8; 32],
        registry_data: &[u8],
        vault_seed: &[u8],
        vault1_index: u8,
        vault2_index: u8,
        user: [u8; 32],
        amount_in: u64,
        minimum_amount_out: u64,
        is_a_to_b: bool,
        clock: [u8; 32],
        token_program: [u8; 32],
    ) -> (r: Result<DualSwapPlan, BuildError>)
        ensures
            spec_decode_registry(registry_data@) matches Err(e) ==> (r matches Err(f) && f == BuildError::Registry(e)),
            spec_decode_registry(registry_data@) matches Ok(reg) ==> {
                &&& r is Ok <==> (vault_exists(program_id@, vault_seed@, registry@, vault1_index, reg)
                    && vault_exists(program_id@, vault_seed@, registry@, vault2_index, reg)
                    && has_token_accounts(user@, reg.token_a@, reg.token_b@))
                &&& r matches Err(f) ==> f == BuildError::NoProgramAddress
                &&& r matches Ok(plan) ==> {
                    &&& spec_vault_address(program_id@, vault_seed@, registry@, vault1_index) == Some(plan.vault1.owner@)
                    &&& spec_vault_address(program_id@, vault_seed@, registry@, vault2_index) == Some(plan.vault2.owner@)
                    &&& owns_token_accounts(plan.vault1, plan.vault1.owner, reg.token_a@, reg.token_b@)
                    &&& owns_token_accounts(plan.vault2, plan.vault2.owner, reg.token_a@, reg.token_b@)
                    &&& owns_token_accounts(plan.user, user, reg.token_a@, reg.token_b@)
                    &&& plan.user_out_token == in_out(is_a_to_b, plan.user.token_a, plan.user.token_b).1
                    &&& plan.instruction.program_id == program_id
                    &&& plan.instruction.accounts@ == spec_dual_swap_accounts(plan.user, registry, plan.vault1, plan.vault2, reg.token_a, reg.token_b, clock, token_program, is_a_to_b)
                    &&& routes_dual_swap(plan.instruction.accounts@, user, registry, plan.vault1.owner, plan.vault2.owner, reg.token_a, reg.token_b, clock, token_program, is_a_to_b)
                    &&& associated_token_address(user@, output_mint(is_a_to_b, reg.token_a, reg.token_b)@) == Some(plan.user_out_token@)
                    &&& plan.instruction.data@ == data_with_u64_args("swap_dual_deterministic".spec_bytes(), seq![amount_in, minimum_amount_out])
                }
            },
    {
        let reg = match VaultRegistry::from_account_data(registry_data) {
            Ok(reg) => reg,
            Err(e) => {
                return Err(BuildError::Registry(e));
            },
        };
        let vault1 = match VaultUtils::vault_address(program_id, vault_seed, registry, vault1_index) {
            Some(k) => match VaultUtils::token_accounts(k, reg.token_a, reg.token_b) {
                Some(t) => t,
                None => {
                    return Err(BuildError::NoProgramAddress);
                },
            },
            None => {
                return Err(BuildError::NoProgramAddress);
            },
        };
        let vault2 = match VaultUtils::vault_address(program_id, vault_seed, registry, vault2_index) {
            Some(k) => match VaultUtils::token_accounts(k, reg.token_a, reg.token_b) {
                Some(t) => t,
                None => {
                    return Err(BuildError::NoProgramAddress);
                },
            },
            None => {
                return Err(BuildError::NoProgramAddress);
            },
        };
        let user_acc = match VaultUtils::token_accounts(user, reg.token_a, reg.token_b) {
            Some(t) => t,
            None => {
                return Err(BuildError::NoProgramAddress);
            },
        };
        let (v1_in, v1_out) = pick_in_out(is_a_to_b, vault1.token_a, vault1.token_b);
        let (v2_in, v2_out) = pick_in_out(is_a_to_b, vault2.token_a, vault2.token_b);
        let (user_in, user_out) = pick_in_out(is_a_to_b, user_acc.token_a, user_acc.token_b);
        let (mint_in, mint_out) = pick_in_out(is_a_to_b, reg.token_a, reg.token_b);
        let mut accounts: Vec<AccountSpec> = Vec::new();
        accounts.push(w(user, true));
        accounts.push(ro(registry));
        accounts.push(w(vault1.owner, false));
        accounts.push(w(vault2.owner, false));
        accounts.push(w(v1_in, false));
        accounts.push(w(v1_out, false));
        accounts.push(w(v2_in, false));
        accounts.push(w(v2_out, false));
        accounts.push(w(user_in, false));
        accounts.push(w(user_out, false));
        accounts.push(ro(mint_in));
        accounts.push(ro(mint_out));
        accounts.push(ro(clock));
        accounts.push(ro(token_program));
        assert(accounts@ =~= spec_dual_swap_accounts(user_acc, registry, vault1, vault2, reg.token_a, reg.token_b, clock, token_program, is_a_to_b));
        proof {
            lemma_dual_swap_routes_by_mint(user_acc, registry, vault1, vault2, reg.token_a, reg.token_b, clock, token_program, is_a_to_b);
        }
        let data = Self::swap_data(amount_in, minimum_amount_out);
        Ok(DualSwapPlan {
            instruction: InstructionSpec { program_id, accounts, data },
            user: user_acc,
            vault1,
            vault2,
            user_out_token: user_out,
        })
    }

    /// The result of a dual swap, from the output account's balance before
    /// and after it and the compute units it used.
    pub fn execution(balance_before: u64, balance_after: u64, compute_units: u64) -> (r: DualSwapExecution)
        ensures
            r.amount_out == received(balance_before, balance_after),
            r.compute_units == compute_units,
    {
        DualSwapExecution { amount_out: balance_after.saturating_sub(balance_before), compute_units }
    }
}

/// Builds the instructions that add liquidity to a vault and remove it.
pub struct ManageLiquidityInstruction;

/// The accounts of a liquidity change with the user's LP token account.
#[derive(Debug)]
pub struct LiquidityPlan {
    pub instruction: InstructionSpec,
    pub user: TokenAccounts,
    pub vault: TokenAccounts,
    pub lp_mint: [u8; 32],
    pub user_lp_token: [u8; 32],
}

/// `plan` is the liquidity instruction with data `data` for `user` on the
/// vault `vault_index` of the registry `reg` at `registry`.
pub open spec fn is_liquidity_plan(
    plan: LiquidityPlan,
    program_id: [u8; 32],
    registry: [u8; 32],
    reg: VaultRegistry,
    vault_seed: Seq<u8>,
    lp_seed: Seq<u8>,
    vault_index: u8,
    user: [u8; 32],
    token_program: [u8; 32],
    associated_token_program: [u8; 32],
    system_program: [u8; 32],
    data: Seq<u8>,
) -> bool {
    &&& spec_vault_address(program_id@, vault_seed, registry@, vault_index) == Some(plan.vault.owner@)
    &&& owns_token_accounts(plan.vault, plan.vault.owner, reg.token_a@, reg.token_b@)
    &&& owns_token_accounts(plan.user, user, reg.token_a@, reg.token_b@)
    &&& spec_lp_mint_address(program_id@, lp_seed, plan.vault.owner@) == Some(plan.lp_mint@)
    &&& associated_token_address(user@, plan.lp_mint@) == Some(plan.user_lp_token@)
    &&& plan.instruction.program_id == program_id
    &&& plan.instruction.accounts@ == spec_liquidity_accounts(plan.user, plan.user_lp_token, registry, plan.vault, reg.token_a, reg.token_b, plan.lp_mint, token_program, associated_token_program, system_program)
    &&& liquidity_accounts_ok(plan.instruction.accounts@, user, registry, plan.vault.owner, reg.token_a, reg.token_b, plan.lp_mint, token_program, associated_token_program, system_program)
    &&& plan.instruction.data@ == data
}

/// Every address of a liquidity change exists: the vault and its token
/// accounts, the user's token accounts, the LP mint and the user's LP token
/// account.
pub open spec fn liquidity_addresses_exist(
    program_id: [u8; 32],
    registry: [u8; 32],
    reg: VaultRegistry,
    vault_seed: Seq<u8>,
    lp_seed: Seq<u8>,
    vault_index: u8,
    user: [u8; 32],
) -> bool {
    &&& vault_exists(program_id@, vault_seed, registry@, vault_index, reg)
    &&& has_token_accounts(user@, reg.token_a@, reg.token_b@)
    &&& match spec_lp_mint_address(program_id@, lp_seed, spec_vault_address(program_id@, vault_seed, registry@, vault_index)->0) {
        Some(m) => associated_token_address(user@, m) is Some,
        None => false,
    }
}

impl ManageLiquidityInstruction {
    /// Data of `add_liquidity`: the discriminator, both amounts and the least
    /// LP amount accepted.
    pub fn add_liquidity_data(amount_a: u64, amount_b: u64, min_lp_amount: u64) -> (r: Vec<u8>)
        ensures
            r@ == data_with_u64_args("add_liquidity".spec_bytes(), seq![amount_a, amount_b, min_lp_amount]),
    {
        data_three_args("add_liquidity", amount_a, amount_b, min_lp_amount)
    }

    /// Data of `remove_liquidity`: the discriminator, the LP amount and the
    /// least amounts of each token accepted.
    pub fn remove_liquidity_data(lp_amount: u64, min_amount_a: u64, min_amount_b: u64) -> (r: Vec<u8>)
        ensures
            r@ == data_with_u64_args("remove_liquidity".spec_bytes(), seq![lp_amount, min_amount_a, min_amount_b]),
    {
        data_three_args("remove_liquidity", lp_amount, min_amount_a, min_amount_b)
    }

    /// The accounts and addresses of a liquidity change; `data` becomes the
    /// instruction's data.
    fn liquidity_plan(
        program_id: [u8; 32],
        registry: [u8; 32],
        reg: &VaultRegistry,
        vault_seed: &[u8],
        lp_seed: &[u8],
        vault_index: u8,
        user: [u8; 32],
        token_program: [u8; 32],
        associated_token_program: [u8; 32],
        system_program: [u8; 32],
        data: Vec<u8>,
    ) -> (r: Result<LiquidityPlan, BuildError>)
        ensures
            r is Ok <==> liquidity_addresses_exist(program_id, registry, *reg, vault_seed@, lp_seed@, vault_index, user),
            r matches Err(f) ==> f == BuildError::NoProgramAddress,
            r matches Ok(plan) ==> is_liquidity_plan(plan, program_id, registry, *reg, vault_seed@, lp_seed@, vault_index, user, token_program, associated_token_program, system_program, data@),
    {
        let vault_key = match VaultUtils::vault_address(program_id, vault_seed, registry, vault_index) {
            Some(k) => k,
            None => {
                return Err(BuildError::NoProgramAddress);
            },
        };
        let vault = match VaultUtils::token_accounts(vault_key, reg.token_a, reg.token_b) {
            Some(t) => t,
            None => {
                return Err(BuildError::NoProgramAddress);
            },
        };
        let user_acc = match VaultUtils::token_accounts(user, reg.token_a, reg.token_b) {
            Some(t) => t,
            None => {
                return Err(BuildError::NoProgramAddress);
            },
        };
        let lp_mint = match VaultUtils::get_vault_lp_mint(program_id, lp_seed, vault_key) {
            Some(k) => k,
            None => {
                return Err(BuildError::NoProgramAddress);
            },
        };
        let user_lp_token = match get_associated_token_address(user, lp_mint) {
            Some(k) => k,
            None => {
                return Err(BuildError::NoProgramAddress);
            },
        };
        let mut accounts: Vec<AccountSpec> = Vec::new();
        accounts.push(w(user, true));
        accounts.push(ro(registry));
        accounts.push(w(vault.owner, false));
        accounts.push(ro(reg.token_a));
        accounts.push(ro(reg.token_b));
        accounts.push(w(vault.token_a, false));
        accounts.push(w(vault.token_b, false));
        accounts.push(w(user_acc.token_a, false));
        accounts.push(w(user_acc.token_b, false));
        accounts.push(w(user_lp_token, false));
        accounts.push(w(lp_mint, false));
        accounts.push(ro(token_program));
        accounts.push(ro(associated_token_program));
        accounts.push(ro(system_program));
        assert(accounts@ =~= spec_liquidity_accounts(user_acc, user_lp_token, registry, vault, reg.token_a, reg.token_b, lp_mint, token_program, associated_token_program, system_program));
        proof {
            lemma_liquidity_accounts_writable(user_acc, user_lp_token, registry, vault, reg.token_a, reg.token_b, lp_mint, token_program, associated_token_program, system_program);
        }
        Ok(LiquidityPlan {
            instruction: InstructionSpec { program_id, accounts, data },
            user: user_acc,
            vault,
            lp_mint,
            user_lp_token,
        })
    }

    /// Adding `amount_a` and `amount_b` to the vault `vault_index` of the
    /// registry whose account data is `registry_data`.
    pub fn add_liquidity_instruction(
        program_id: [u8; 32],
        registry: [u8; 32],
        registry_data: &[u8],
        vault_seed: &[u8],
        lp_seed: &[u8],
        vault_index: u8,
        user: [u8; 32],
        amount_a: u64,
        amount_b: u64,
        min_lp_amount: u64,
        token_program: [u8; 32],
        associated_token_program: [u8; 32],
        system_program: [u8; 32],
    ) -> (r: Result<LiquidityPlan, BuildError>)
        ensures
            spec_decode_registry(registry_data@) matches Err(e) ==> (r matches Err(f) && f == BuildError::Registry(e)),
            spec_decode_registry(registry_data@) matches Ok(reg) ==> {
                &&& r is Ok <==> liquidity_addresses_exist(program_id, registry, reg, vault_seed@, lp_seed@, vault_index, user)
                &&& r matches Err(f) ==> f == BuildError::NoProgramAddress
                &&& r matches Ok(plan) ==> is_liquidity_plan(
                    plan, program_id, registry, reg, vault_seed@, lp_seed@, vault_index, user, token_program,
                    associated_token_program, system_program,
                    data_with_u64_args("add_liquidity".spec_bytes(), seq![amount_a, amount_b, min_lp_amount]),
                )
            },
    {
        let reg = match VaultRegistry::from_account_data(registry_data) {
            Ok(reg) => reg,
            Err(e) => {
                return Err(BuildError::Registry(e));
            },
        };
        let data = Self::add_liquidity_data(amount_a, amount_b, min_lp_amount);
        Self::liquidity_plan(program_id, registry, &reg, vault_seed, lp_seed, vault_index, user, token_program, associated_token_program, system_program, data)
    }

    /// Burning `lp_amount` LP tokens of the vault `vault_index` of the
    /// registry whose account data is `registry_data`.
    pub fn remove_liquidity_instruction(
        program_id: [u8; 32],
        registry: [u8; 32],
        registry_data: &[u8],
        vault_seed: &[u8],
        lp_seed: &[u8],
        vault_index: u8,
        user: [u8; 32],
        lp_amount: u64,
        min_amount_a: u64,
        min_amount_b: u64,
        token_program: [u8; 32],
        associated_token_program: [u8; 32],
        system_program: [u8; 32],
    ) -> (r: Result<LiquidityPlan, BuildError>)
        ensures
            spec_decode_registry(registry_data@) matches Err(e) ==> (r matches Err(f) && f == BuildError::Registry(e)),
            spec_decode_registry(registry_data@) matches Ok(reg) ==> {
                &&& r is Ok <==> liquidity_addresses_exist(program_id, registry, reg, vault_seed@, lp_seed@, vault_index, user)
                &&& r matches Err(f) ==> f == BuildError::NoProgramAddress
                &&& r matches Ok(plan) ==> is_liquidity_plan(
                    plan, program_id, registry, reg, vault_seed@, lp_seed@, vault_index, user, token_program,
                    associated_token_program, system_program,
                    data_with_u64_args("remove_liquidity".spec_bytes(), seq![lp_amount, min_amount_a, min_amount_b]),
                )
            },
    {
        let reg = match VaultRegistry::from_account_data(registry_data) {
            Ok(reg) => reg,
            Err(e) => {
                return Err(BuildError::Registry(e));
            },
        };
        let data = Self::remove_liquidity_data(lp_amount, min_amount_a, min_amount_b);
        Self::liquidity_plan(program_id, registry, &reg, vault_seed, lp_seed, vault_index, user, token_program, associated_token_program, system_program, data)
    }
}

/// `a` orders after `b` byte by byte, as keys compare.
pub open spec fn key_gt(a: Seq<u8>, b: Seq<u8>) -> bool {
    exists|i: int| 0 <= i < a.len() && i < b.len() && a.take(i) == b.take(i) && a[i] > b[i]
}

/// Amounts that a signed change leaves within `u64`.
pub open spec fn adjusted(amount: u64, delta: i64) -> Option<u64> {
    if 0 <= amount + delta <= u64::MAX {
        Some((amount + delta) as u64)
    } else {
        None
    }
}

/// Token mints and balances.
pub struct TokenUtils;

impl TokenUtils {
    /// Whether key `a` orders after key `b`.
    pub fn key_greater(a: &[u8; 32], b: &[u8; 32]) -> (r: bool)
        ensures
            r == key_gt(a@, b@),
    {
        let mut i: usize = 0;
        while i < 32
            invariant
                i <= 32,
                a@.len() == 32,
                b@.len() == 32,
                a@.take(i as int) == b@.take(i as int),
            decreases 32 - i,
        {
            if a[i] != b[i] {
                if a[i] > b[i] {
                    return true;
                } else {
                    assert forall|j: int|
                        0 <= j < 32 && a@.take(j) == b@.take(j) implies !(a@[j] > b@[j]) by {
                        if j < i {
                            assert(a@[j] == a@.take(i as int)[j]);
                            assert(b@[j] == b@.take(i as int)[j]);
                        } else if j > i {
                            assert(a@[i as int] == a@.take(j)[i as int]);
                            assert(b@[i as int] == b@.take(j)[i as int]);
                        }
                    }
                    return false;
                }
            }
            assert(a@.take(i + 1) =~= a@.take(i as int).push(a@[i as int]));
            assert(b@.take(i + 1) =~= b@.take(i as int).push(b@[i as int]));
            i = i + 1;
        }
        assert(a@ =~= b@) by {
            assert(a@.take(32) =~= a@);
            assert(b@.take(32) =~= b@);
        }
        false
    }

    /// Orders two mints so that the first orders after the second, as the
    /// program requires of a registry's mints.
    pub fn order_mints(x: [u8; 32], y: [u8; 32]) -> (r: ([u8; 32], [u8; 32]))
        ensures
            r == (if key_gt(x@, y@) { (x, y) } else { (y, x) }),
    {
        if Self::key_greater(&x, &y) {
            (x, y)
        } else {
            (y, x)
        }
    }

    /// A token balance moved by `delta`: `None` when the result would leave
    /// `u64`.
    pub fn adjusted_amount(amount: u64, delta: i64) -> (r: Option<u64>)
        ensures
            r == adjusted(amount, delta),
    {
        if delta >= 0 {
            amount.checked_add(delta as u64)
        } else {
            // `-delta` as an unsigned magnitude; it fits in `u64` even for
            // `i64::MIN`.
            let magnitude: u64 = (-(delta + 1)) as u64 + 1;
            amount.checked_sub(magnitude)
        }
    }
}

/// Of two distinct keys exactly one orders after the other.
pub proof fn lemma_key_order_total(a: Seq<u8>, b: Seq<u8>)
    requires
        a.len() == b.len(),
        a != b,
    ensures
        key_gt(a, b) != key_gt(b, a),
{
    assert(exists|k: int| 0 <= k < a.len() && a[k] != b[k]) by {
        if forall|k: int| 0 <= k < a.len() ==> a[k] == b[k] {
            assert(a =~= b);
        }
    }
    lemma_first_difference(a, b, a.len() as int);
    let first = first_difference(a, b, a.len() as int);
    assert(a.take(first) =~= b.take(first));
    if a[first] > b[first] {
        assert(key_gt(a, b));
        if key_gt(b, a) {
            let j = choose|j: int| 0 <= j < b.len() && j < a.len() && b.take(j) == a.take(j) && b[j] > a[j];
            lemma_first_difference_unique(a, b, first, j);
        }
    } else {
        assert(key_gt(b, a)) by {
            assert(b.take(first) =~= a.take(first));
        }
        if key_gt(a, b) {
            let j = choose|j: int| 0 <= j < a.len() && j < b.len() && a.take(j) == b.take(j) && a[j] > b[j];
            lemma_first_difference_unique(a, b, first, j);
        }
    }
}

/// The first position below `n` where `a` and `b` differ.
spec fn first_difference(a: Seq<u8>, b: Seq<u8>, n: int) -> int
    decreases n,
{
    if n <= 0 {
        0
    } else if exists|k: int| 0 <= k < n - 1 && a[k] != b[k] {
        first_difference(a, b, n - 1)
    } else {
        n - 1
    }
}

proof fn lemma_first_difference(a: Seq<u8>, b: Seq<u8>, n: int)
    requires
        0 < n <= a.len(),
        n <= b.len(),
        exists|k: int| 0 <= k < n && a[k] != b[k],
    ensures
        0 <= first_difference(a, b, n) < n,
        a[first_difference(a, b, n)] != b[first_difference(a, b, n)],
        forall|k: int| 0 <= k < first_difference(a, b, n) ==> a[k] == b[k],
    decreases n,
{
    if exists|k: int| 0 <= k < n - 1 && a[k] != b[k] {
        lemma_first_difference(a, b, n - 1);
    }
}

proof fn lemma_first_difference_unique(a: Seq<u8>, b: Seq<u8>, first: int, j: int)
    requires
        0 <= first < a.len(),
        a.len() == b.len(),
        a[first] != b[first],
        a.take(first) == b.take(first),
        0 <= j < a.len(),
        a.take(j) == b.take(j),
        a[j] != b[j],
    ensures
        j == first,
{
    if j < first {
        assert(a[j] == a.take(first)[j]);
        assert(b[j] == b.take(first)[j]);
    } else if j > first {
        assert(a[first] == a.take(j)[first]);
        assert(b[first] == b.take(j)[first]);
    }
}

/// Moving a balance by `delta` and then by `-delta` gives the balance back.
pub proof fn lemma_adjust_inverse(amount: u64, delta: i64)
    requires
        delta != i64::MIN,
        adjusted(amount, delta) is Some,
    ensures
        adjusted(adjusted(amount, delta)->0, (-delta) as i64) == Some(amount),
{
}

/// Ordering two distinct mints puts the one that orders after the other
/// first, whichever order they came in.
pub proof fn lemma_order_mints_sorted(x: [u8; 32], y: [u8; 32])
    requires
        x@ != y@,
    ensures
        ({
            let r = if key_gt(x@, y@) { (x, y) } else { (y, x) };
            key_gt(r.0@, r.1@) && !key_gt(r.1@, r.0@)
        }),
        (if key_gt(x@, y@) { (x, y) } else { (y, x) }) == (if key_gt(y@, x@) { (y, x) } else { (x, y) }),
{
    lemma_key_order_total(x@, y@);
}

} // verus!
