use rand::rngs::StdRng;
use rand::SeedableRng;
use simulation::stats::{total_balances, SimulationStats, VaultReserve};
use simulation::trading::{
    ManagerUtils, SlotResult, SwapResult, SwapStrategy, TradingRoundStats, UserRoundError,
};

#[test]
fn record_swap_counts_volume_and_kind() {
    let mut stats = TradingRoundStats::default();
    ManagerUtils::record_swap_stats(&mut stats, &SwapResult::executed(100, 90, 5000, true, vec![0]));
    ManagerUtils::record_swap_stats(&mut stats, &SwapResult::executed(40, 30, 6000, false, vec![0, 1]));
    ManagerUtils::record_swap_stats(&mut stats, &SwapResult::rejected());
    assert_eq!(stats.successful_swaps, 3);
    assert_eq!(stats.failed_swaps, 0);
    assert_eq!(stats.total_volume_a, 100);
    assert_eq!(stats.total_volume_b, 40);
    assert_eq!(stats.single_vault_swaps, 1);
    assert_eq!(stats.dual_vault_swaps, 1);
}

#[test]
fn swap_result_constructors() {
    let d = SwapResult::default();
    assert!(!d.success && d.amount_in == 0 && d.vault_indices.is_empty());
    let e = SwapResult::executed(1, 2, 3, true, vec![4, 5]);
    assert!(e.success);
    assert_eq!((e.amount_in, e.amount_out, e.compute_units), (1, 2, 3));
    assert_eq!(e.vault_indices, vec![4, 5]);
}

#[test]
fn sampled_amount_is_clamped() {
    assert_eq!(ManagerUtils::clamp_sample_amount(0, 10), Some(1));
    assert_eq!(ManagerUtils::clamp_sample_amount(5, 10), Some(5));
    assert_eq!(ManagerUtils::clamp_sample_amount(50, 10), Some(10));
    assert_eq!(ManagerUtils::clamp_sample_amount(7, 1), Some(1));
}

#[test]
fn picked_indices_stay_in_range() {
    let mut rng = StdRng::seed_from_u64(42);
    assert_eq!(ManagerUtils::pick_single_vault_index(&mut rng, 0), None);
    assert_eq!(ManagerUtils::pick_dual_vault_index(&mut rng, &[]), None);
    for _ in 0..200 {
        let i = ManagerUtils::pick_single_vault_index(&mut rng, 8).unwrap();
        assert!(i < 8);
        let j = ManagerUtils::pick_dual_vault_index(&mut rng, &[(0, 1), (2, 3), (4, 5)]).unwrap();
        assert!(j < 3);
    }
    assert_eq!(ManagerUtils::pick_single_vault_index(&mut rng, 1), Some(0));
}

#[test]
fn picking_is_deterministic_for_a_seed() {
    let mut a = StdRng::seed_from_u64(7);
    let mut b = StdRng::seed_from_u64(7);
    for _ in 0..20 {
        assert_eq!(
            SwapStrategy::SingleVault.pick_vault_index(&mut a, 8, &[]),
            SwapStrategy::SingleVault.pick_vault_index(&mut b, 8, &[])
        );
    }
}

#[test]
fn strategies_check_their_vaults() {
    assert_eq!(SwapStrategy::SingleVault.ensure_vaults_available(0, &[(0, 1)]), Err(UserRoundError::NotEnoughVaults));
    assert_eq!(SwapStrategy::SingleVault.ensure_vaults_available(1, &[]), Ok(()));
    assert_eq!(SwapStrategy::DualVault.ensure_vaults_available(8, &[]), Err(UserRoundError::NoDualVaultPairs));
    assert_eq!(SwapStrategy::DualVault.ensure_vaults_available(0, &[(0, 1)]), Ok(()));
    assert_eq!(UserRoundError::NotEnoughVaults.message(), "Not enough vaults");
    assert_eq!(UserRoundError::NotEnoughVaultPairs.message(), "Not enough vault pairs");
    assert_eq!(
        UserRoundError::NoDualVaultPairs.message(),
        "No dual vault pairs configured for user simulator"
    );
}

#[test]
fn strategies_resolve_their_vaults() {
    let pairs = [(0u8, 1u8), (2, 3)];
    assert_eq!(SwapStrategy::SingleVault.resolve_vaults(5, &pairs), Ok(vec![5]));
    assert_eq!(SwapStrategy::DualVault.resolve_vaults(1, &pairs), Ok(vec![2, 3]));
    assert_eq!(SwapStrategy::DualVault.resolve_vaults(2, &pairs), Err(UserRoundError::NotEnoughVaultPairs));
}

#[test]
fn slot_result_from_round() {
    let round = TradingRoundStats { successful_swaps: 4, failed_swaps: 2, ..TradingRoundStats::default() };
    let r = SlotResult::from_round::<()>(&Ok(round));
    assert_eq!((r.successful_swaps, r.failed_swaps), (4, 2));
    let r = SlotResult::from_round(&Err::<TradingRoundStats, &str>("boom"));
    assert_eq!((r.successful_swaps, r.failed_swaps), (0, 1));
}

#[test]
fn reserve_delta_plain_and_wrapped() {
    let before = VaultReserve::new(0, 1000, 5000);
    let after = VaultReserve::new(0, 1500, 4000);
    assert_eq!(after.delta(&before), (500, -1000));
    assert_eq!(before.delta(&after), (-500, 1000));
    assert_eq!(after.delta(&after), (0, 0));
    // A reserve above i64::MAX reads as negative.
    let huge = VaultReserve::new(1, u64::MAX, 0);
    let zero = VaultReserve::new(1, 0, 0);
    assert_eq!(huge.delta(&zero), (-1, 0));
}

#[test]
fn simulation_stats_accumulate() {
    let mut stats = SimulationStats::new(vec![VaultReserve::new(0, 100, 200), VaultReserve::new(1, 300, 400)]);
    assert_eq!(stats.total_slots, 0);
    assert!(stats.final_reserves.is_empty());
    assert!(stats.arbitrage_profits.is_none());
    stats.record_slot(&SlotResult { successful_swaps: 3, failed_swaps: 1 });
    stats.record_slot(&SlotResult { successful_swaps: 2, failed_swaps: 0 });
    assert_eq!((stats.successful_swaps, stats.failed_swaps), (5, 1));
    stats.final_reserves = vec![VaultReserve::new(0, 150, 180)];
    assert_eq!(stats.reserve_deltas(), vec![(50, -20)]);
    assert_eq!(stats.user_balance_delta(), None);
    stats.initial_user_balances = Some((1000, 2000));
    stats.final_user_balances = Some((900, 2100));
    assert_eq!(stats.user_balance_delta(), Some((-100, 100)));
}

#[test]
fn totals_saturate() {
    assert_eq!(total_balances(&vec![]), (0, 0));
    assert_eq!(total_balances(&vec![(1, 2), (3, 4)]), (4, 6));
    assert_eq!(total_balances(&vec![(u64::MAX, 1), (5, 1)]), (u64::MAX, 2));
}
