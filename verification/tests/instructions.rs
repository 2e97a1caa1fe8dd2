use simulation::accounts::{AccountSpec, TokenAccounts};
use simulation::address::{associated_token_program_id, token_program_id};
use simulation::fee::FeeOption;
use simulation::instruction::{anchor_discriminator, discriminator_from_digest, discriminator_preimage};
use simulation::ix::{
    DualSwapUtils, ManageLiquidityInstruction, RegistryUtils, SingleSwapUtils, TokenUtils,
    VaultUtils, BuildError,
};
use simulation::registry::{RegistryDecodeError, VaultRegistry};
use solana_sdk::pubkey::Pubkey;

#[test]
fn discriminators_match_known_hashes() {
    assert_eq!(anchor_discriminator("swap_single"), [212, 44, 113, 42, 247, 182, 250, 158]);
    assert_eq!(anchor_discriminator("swap_dual_deterministic"), [74, 190, 65, 131, 146, 43, 31, 192]);
    assert_eq!(anchor_discriminator("add_liquidity"), [181, 157, 89, 67, 143, 182, 52, 72]);
    assert_eq!(anchor_discriminator("remove_liquidity"), [80, 85, 209, 72, 24, 206, 177, 108]);
    assert_eq!(anchor_discriminator("initialize_vault"), [48, 191, 163, 44, 71, 129, 63, 164]);
    assert_eq!(anchor_discriminator("initialize_vault_registry"), [233, 197, 179, 247, 34, 136, 39, 184]);
    assert_eq!(anchor_discriminator("initialize"), [175, 175, 109, 31, 13, 152, 155, 237]);
    assert_eq!(anchor_discriminator(""), [193, 76, 24, 19, 16, 206, 80, 69]);
}

#[test]
fn discriminator_parts() {
    assert_eq!(discriminator_preimage("ab"), b"global:ab".to_vec());
    let digest: Vec<u8> = (0u8..32).collect();
    assert_eq!(discriminator_from_digest(&digest), [0, 1, 2, 3, 4, 5, 6, 7]);
}

fn le(x: u64) -> Vec<u8> {
    x.to_le_bytes().to_vec()
}

#[test]
fn swap_and_liquidity_data_layout() {
    let mut expected = anchor_discriminator("swap_single").to_vec();
    expected.extend(le(1_000_000));
    expected.extend(le(1));
    assert_eq!(SingleSwapUtils::swap_data(1_000_000, 1), expected);

    let mut expected = anchor_discriminator("swap_dual_deterministic").to_vec();
    expected.extend(le(0x0102_0304_0506_0708));
    expected.extend(le(u64::MAX));
    let data = DualSwapUtils::swap_data(0x0102_0304_0506_0708, u64::MAX);
    assert_eq!(data, expected);
    assert_eq!(&data[8..16], &[8, 7, 6, 5, 4, 3, 2, 1]);

    let mut expected = anchor_discriminator("add_liquidity").to_vec();
    expected.extend(le(5));
    expected.extend(le(6));
    expected.extend(le(7));
    assert_eq!(ManageLiquidityInstruction::add_liquidity_data(5, 6, 7), expected);

    let mut expected = anchor_discriminator("remove_liquidity").to_vec();
    expected.extend(le(10));
    expected.extend(le(0));
    expected.extend(le(1));
    assert_eq!(ManageLiquidityInstruction::remove_liquidity_data(10, 0, 1), expected);

    assert_eq!(VaultUtils::initialize_vault_data(), anchor_discriminator("initialize_vault").to_vec());
}

#[test]
fn registry_data_layout() {
    let a = [7u8; 32];
    let b = [9u8; 32];
    let data = RegistryUtils::initialize_vault_registry_data(&a, &b, FeeOption::Tier25);
    assert_eq!(data.len(), 8 + 32 + 32 + 1);
    assert_eq!(&data[..8], &anchor_discriminator("initialize_vault_registry"));
    assert_eq!(&data[8..40], &a);
    assert_eq!(&data[40..72], &b);
    assert_eq!(data[72], 1);
}

fn registry_bytes(a: [u8; 32], b: [u8; 32], tag: u8, bump: u8, count: u8) -> Vec<u8> {
    let mut d = vec![1, 2, 3, 4, 5, 6, 7, 8];
    d.extend_from_slice(&a);
    d.extend_from_slice(&b);
    d.extend_from_slice(&[tag, bump, count]);
    d
}

#[test]
fn registry_decodes() {
    let a = [3u8; 32];
    let mut b = [0u8; 32];
    b[31] = 4;
    let reg = VaultRegistry::from_account_data(&registry_bytes(a, b, 2, 254, 6)).unwrap();
    assert_eq!(reg.token_a, a);
    assert_eq!(reg.token_b, b);
    assert_eq!(reg.fee, FeeOption::Tier20);
    assert_eq!(reg.bump, 254);
    assert_eq!(reg.vault_count, 6);
}

#[test]
fn registry_decode_errors() {
    assert_eq!(VaultRegistry::from_account_data(&[0u8; 7]).unwrap_err(), RegistryDecodeError::AccountTooSmall);
    assert_eq!(VaultRegistry::from_account_data(&[0u8; 8]).unwrap_err(), RegistryDecodeError::InvalidLength);
    assert_eq!(VaultRegistry::from_account_data(&[0u8; 74]).unwrap_err(), RegistryDecodeError::InvalidLength);
    let mut long = registry_bytes([1; 32], [2; 32], 0, 0, 0);
    long.push(0);
    assert_eq!(VaultRegistry::from_account_data(&long).unwrap_err(), RegistryDecodeError::InvalidLength);
    assert_eq!(
        VaultRegistry::from_account_data(&registry_bytes([1; 32], [2; 32], 3, 0, 0)).unwrap_err(),
        RegistryDecodeError::InvalidFeeTag
    );
}

const PROGRAM: [u8; 32] = [42u8; 32];
const VAULT_SEED: &[u8] = b"vault";
const LP_SEED: &[u8] = b"lp_token";
const REGISTRY_SEED: &[u8] = b"vault_registry";

#[test]
fn addresses_match_solana_derivations() {
    let registry = [5u8; 32];
    let expected = Pubkey::find_program_address(
        &[VAULT_SEED, &registry, &[3u8]],
        &Pubkey::new_from_array(PROGRAM),
    )
    .0;
    let vault = VaultUtils::vault_address(PROGRAM, VAULT_SEED, registry, 3).unwrap();
    assert_eq!(vault, expected.to_bytes());
    assert_ne!(vault, registry);

    let lp = VaultUtils::get_vault_lp_mint(PROGRAM, LP_SEED, vault).unwrap();
    let expected_lp = Pubkey::find_program_address(&[LP_SEED, &vault], &Pubkey::new_from_array(PROGRAM)).0;
    assert_eq!(lp, expected_lp.to_bytes());

    let mint_a = [8u8; 32];
    let mint_b = [6u8; 32];
    let reg = RegistryUtils::registry_address(PROGRAM, REGISTRY_SEED, mint_a, mint_b).unwrap();
    let expected_reg = Pubkey::find_program_address(
        &[REGISTRY_SEED, &mint_a, &mint_b],
        &Pubkey::new_from_array(PROGRAM),
    )
    .0;
    assert_eq!(reg, expected_reg.to_bytes());
    // The order of the mints matters.
    assert_ne!(reg, RegistryUtils::registry_address(PROGRAM, REGISTRY_SEED, mint_b, mint_a).unwrap());
    // The same inputs give the same address.
    assert_eq!(reg, RegistryUtils::registry_address(PROGRAM, REGISTRY_SEED, mint_a, mint_b).unwrap());
}

#[test]
fn token_accounts_are_associated_accounts() {
    let owner = [11u8; 32];
    let mint = [12u8; 32];
    let expected = spl_associated_token_account::get_associated_token_address(
        &Pubkey::new_from_array(owner),
        &Pubkey::new_from_array(mint),
    );
    let ata = VaultUtils::get_vault_token_account(owner, mint).unwrap();
    assert_eq!(ata, expected.to_bytes());
    assert_ne!(ata, owner);
    let t = VaultUtils::token_accounts(owner, mint, [13u8; 32]).unwrap();
    assert_eq!(t.owner, owner);
    assert_eq!(t.token_a, ata);
    assert_ne!(t.token_a, t.token_b);
}

fn keys(accounts: &[AccountSpec]) -> Vec<[u8; 32]> {
    accounts.iter().map(|a| a.pubkey).collect()
}

fn flags(accounts: &[AccountSpec]) -> Vec<(bool, bool)> {
    accounts.iter().map(|a| (a.is_signer, a.is_writable)).collect()
}

#[test]
fn single_swap_instruction_layout() {
    let mint_a = [200u8; 32];
    let mint_b = [100u8; 32];
    let registry = [1u8; 32];
    let data = registry_bytes(mint_a, mint_b, 0, 255, 1);
    let user = [50u8; 32];
    let token_program = [60u8; 32];
    let plan = SingleSwapUtils::swap_instruction(PROGRAM, registry, &data, VAULT_SEED, 0, user, 1000, 1, false, token_program).unwrap();
    let vault = VaultUtils::vault_address(PROGRAM, VAULT_SEED, registry, 0).unwrap();
    let v: TokenAccounts = VaultUtils::token_accounts(vault, mint_a, mint_b).unwrap();
    let u: TokenAccounts = VaultUtils::token_accounts(user, mint_a, mint_b).unwrap();
    assert_eq!(plan.instruction.program_id, PROGRAM);
    // B to A: input accounts are the B ones.
    assert_eq!(
        keys(&plan.instruction.accounts),
        vec![user, registry, vault, v.token_b, v.token_a, u.token_b, u.token_a, mint_b, mint_a, token_program]
    );
    assert_eq!(
        flags(&plan.instruction.accounts),
        vec![(true, true), (false, false), (false, true), (false, true), (false, true), (false, true), (false, true), (false, false), (false, false), (false, false)]
    );
    assert_eq!(plan.user_out_token, u.token_a);
    assert_eq!(plan.instruction.data, SingleSwapUtils::swap_data(1000, 1));
    assert!(SingleSwapUtils::swap_instruction(PROGRAM, registry, &data[..10], VAULT_SEED, 0, user, 1, 1, true, token_program).is_err());
}

#[test]
fn dual_swap_instruction_layout() {
    let mint_a = [200u8; 32];
    let mint_b = [100u8; 32];
    let registry = [1u8; 32];
    let data = registry_bytes(mint_a, mint_b, 1, 255, 2);
    let user = [50u8; 32];
    let clock = [70u8; 32];
    let token_program = [60u8; 32];
    let plan = DualSwapUtils::swap_instruction(PROGRAM, registry, &data, VAULT_SEED, 0, 1, user, 10, 2, true, clock, token_program).unwrap();
    let v1 = VaultUtils::token_accounts(VaultUtils::vault_address(PROGRAM, VAULT_SEED, registry, 0).unwrap(), mint_a, mint_b).unwrap();
    let v2 = VaultUtils::token_accounts(VaultUtils::vault_address(PROGRAM, VAULT_SEED, registry, 1).unwrap(), mint_a, mint_b).unwrap();
    let u = VaultUtils::token_accounts(user, mint_a, mint_b).unwrap();
    assert_eq!(
        keys(&plan.instruction.accounts),
        vec![user, registry, v1.owner, v2.owner, v1.token_a, v1.token_b, v2.token_a, v2.token_b, u.token_a, u.token_b, mint_a, mint_b, clock, token_program]
    );
    assert_eq!(plan.user_out_token, u.token_b);
    assert_eq!(plan.instruction.data, DualSwapUtils::swap_data(10, 2));
}

#[test]
fn vault_and_liquidity_instructions() {
    let mint_a = [200u8; 32];
    let mint_b = [100u8; 32];
    let registry = [1u8; 32];
    let data = registry_bytes(mint_a, mint_b, 0, 255, 4);
    let payer = [2u8; 32];
    let (tp, atp, sp) = ([60u8; 32], [61u8; 32], [62u8; 32]);
    let (ix, vault, lp) = VaultUtils::init_vault_instruction(PROGRAM, PROGRAM, registry, &data, VAULT_SEED, LP_SEED, payer, tp, atp, sp).unwrap();
    // The new vault's index is the registry's vault count.
    assert_eq!(vault.owner, VaultUtils::vault_address(PROGRAM, VAULT_SEED, registry, 4).unwrap());
    assert_eq!(lp, VaultUtils::get_vault_lp_mint(PROGRAM, LP_SEED, vault.owner).unwrap());
    assert_eq!(
        keys(&ix.accounts),
        vec![payer, registry, vault.owner, mint_a, mint_b, lp, vault.token_a, vault.token_b, tp, atp, sp]
    );
    assert_eq!(ix.data, anchor_discriminator("initialize_vault").to_vec());

    let user = [50u8; 32];
    let plan = ManageLiquidityInstruction::add_liquidity_instruction(PROGRAM, registry, &data, VAULT_SEED, LP_SEED, 4, user, 10, 20, 0, tp, atp, sp).unwrap();
    let u = VaultUtils::token_accounts(user, mint_a, mint_b).unwrap();
    assert_eq!(plan.lp_mint, lp);
    assert_eq!(plan.user_lp_token, VaultUtils::get_vault_token_account(user, lp).unwrap());
    assert_eq!(
        keys(&plan.instruction.accounts),
        vec![user, registry, vault.owner, mint_a, mint_b, vault.token_a, vault.token_b, u.token_a, u.token_b, plan.user_lp_token, lp, tp, atp, sp]
    );
    assert_eq!(plan.instruction.data, ManageLiquidityInstruction::add_liquidity_data(10, 20, 0));
    let plan = ManageLiquidityInstruction::remove_liquidity_instruction(PROGRAM, registry, &data, VAULT_SEED, LP_SEED, 4, user, 5, 1, 1, tp, atp, sp).unwrap();
    assert_eq!(plan.instruction.data, ManageLiquidityInstruction::remove_liquidity_data(5, 1, 1));
    assert_eq!(
        ManageLiquidityInstruction::remove_liquidity_instruction(PROGRAM, registry, &[0u8; 3], VAULT_SEED, LP_SEED, 4, user, 5, 1, 1, tp, atp, sp).unwrap_err(),
        BuildError::Registry(RegistryDecodeError::AccountTooSmall)
    );
    let (rix, raddr) = RegistryUtils::initialize_vault_registry_instruction(PROGRAM, REGISTRY_SEED, payer, mint_a, mint_b, FeeOption::Tier30, tp, sp).unwrap();
    assert_eq!(raddr, RegistryUtils::registry_address(PROGRAM, REGISTRY_SEED, mint_a, mint_b).unwrap());
    assert_eq!(keys(&rix.accounts), vec![payer, raddr, tp, sp]);
    assert_eq!(flags(&rix.accounts), vec![(true, true), (false, true), (false, false), (false, false)]);
}

#[test]
fn swap_execution_reads_balance_gain() {
    let e = SingleSwapUtils::execution(100, 250, 31_000);
    assert_eq!((e.amount_out, e.compute_units), (150, 31_000));
    let e = DualSwapUtils::execution(300, 250, 59_000);
    assert_eq!((e.amount_out, e.compute_units), (0, 59_000));
}

#[test]
fn mints_are_ordered() {
    let low = [1u8; 32];
    let mut high = [1u8; 32];
    high[5] = 2;
    assert!(TokenUtils::key_greater(&high, &low));
    assert!(!TokenUtils::key_greater(&low, &high));
    assert!(!TokenUtils::key_greater(&low, &low));
    assert_eq!(TokenUtils::order_mints(low, high), (high, low));
    assert_eq!(TokenUtils::order_mints(high, low), (high, low));
    let (a, b) = TokenUtils::order_mints(low, high);
    assert!(Pubkey::new_from_array(a) > Pubkey::new_from_array(b));
}

#[test]
fn balances_adjust_within_range() {
    assert_eq!(TokenUtils::adjusted_amount(100, 50), Some(150));
    assert_eq!(TokenUtils::adjusted_amount(100, -100), Some(0));
    assert_eq!(TokenUtils::adjusted_amount(100, -101), None);
    assert_eq!(TokenUtils::adjusted_amount(u64::MAX, 1), None);
    assert_eq!(TokenUtils::adjusted_amount(u64::MAX, i64::MIN), Some(u64::MAX - (1u64 << 63)));
    assert_eq!(TokenUtils::adjusted_amount(1u64 << 63, i64::MIN), Some(0));
    assert_eq!(TokenUtils::adjusted_amount((1u64 << 63) - 1, i64::MIN), None);
    assert_eq!(TokenUtils::adjusted_amount(TokenUtils::adjusted_amount(7, 3).unwrap(), -3), Some(7));
}

#[test]
fn program_ids_match_spl() {
    assert_eq!(token_program_id(), spl_token::id().to_bytes());
    assert_eq!(associated_token_program_id(), spl_associated_token_account::id().to_bytes());
}

#[test]
fn overlong_seed_gives_no_address() {
    let long_seed = [7u8; 33];
    assert_eq!(VaultUtils::vault_address(PROGRAM, &long_seed, [5u8; 32], 0), None);
    assert_eq!(RegistryUtils::registry_address(PROGRAM, &long_seed, [1u8; 32], [2u8; 32]), None);
    let data = registry_bytes([200u8; 32], [100u8; 32], 0, 255, 1);
    assert_eq!(
        SingleSwapUtils::swap_instruction(PROGRAM, [1u8; 32], &data, &long_seed, 0, [50u8; 32], 1, 1, true, [60u8; 32]).unwrap_err(),
        BuildError::NoProgramAddress
    );
}

#[test]
fn associated_addresses_agree_with_spl_on_many_keys() {
    for i in 0u8..40 {
        let owner = [i; 32];
        let mut mint = [i.wrapping_mul(7).wrapping_add(3); 32];
        mint[0] = i;
        let expected = spl_associated_token_account::get_associated_token_address(
            &Pubkey::new_from_array(owner),
            &Pubkey::new_from_array(mint),
        );
        assert_eq!(VaultUtils::get_vault_token_account(owner, mint), Some(expected.to_bytes()));
    }
}
