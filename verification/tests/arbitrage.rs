use simulation::arbitrage::{
    best_candidate_index, best_direction, contains_pair, is_eligible_pair, record_pair,
    ArbitrageStats, DualVaultData, SharedStateUpdater, SingleVaultData, SingleVaultStrategy,
};
use simulation::trading::SwapDirection;

#[test]
fn stats_start_at_zero_and_count_outcomes() {
    let mut stats = ArbitrageStats::new();
    assert_eq!(stats, ArbitrageStats { opportunities_found: 0, arbitrages_executed: 0, failed_arbitrages: 0 });
    stats.record_outcome::<u8, ()>(&Ok(Some(1)));
    stats.record_outcome::<u8, ()>(&Ok(None));
    stats.record_outcome::<u8, ()>(&Err(()));
    stats.record_outcome::<u8, ()>(&Ok(Some(2)));
    assert_eq!(stats.opportunities_found, 2);
    assert_eq!(stats.arbitrages_executed, 2);
    assert_eq!(stats.failed_arbitrages, 1);
}

#[test]
fn direction_prefers_a_to_b_on_ties() {
    assert_eq!(best_direction(Some(5), Some(5)), Some(SwapDirection::AtoB));
    assert_eq!(best_direction(Some(4), Some(5)), Some(SwapDirection::BtoA));
    assert_eq!(best_direction(Some(6), Some(5)), Some(SwapDirection::AtoB));
    assert_eq!(best_direction(None, Some(5)), Some(SwapDirection::BtoA));
    assert_eq!(best_direction(Some(0), None), Some(SwapDirection::AtoB));
    assert_eq!(best_direction(None, None), None);
}

#[test]
fn best_candidate_is_first_maximum() {
    assert_eq!(best_candidate_index(&vec![Some(3), None, Some(7), Some(7), Some(1)]), Some(2));
    assert_eq!(best_candidate_index(&vec![None, Some(0)]), Some(1));
    assert_eq!(best_candidate_index(&vec![None, None]), None);
    assert_eq!(best_candidate_index(&vec![]), None);
}

#[test]
fn eligible_pairs_need_distinct_existing_vaults() {
    assert!(is_eligible_pair((0, 1), 2));
    assert!(!is_eligible_pair((1, 1), 4));
    assert!(!is_eligible_pair((0, 2), 2));
    assert!(!is_eligible_pair((2, 0), 2));
}

#[test]
fn recorded_pairs_stay_unique() {
    let mut shared: Vec<(u8, u8)> = Vec::new();
    record_pair(&mut shared, (0, 1));
    record_pair(&mut shared, (2, 3));
    record_pair(&mut shared, (0, 1));
    record_pair(&mut shared, (1, 0));
    assert_eq!(shared, vec![(0, 1), (2, 3), (1, 0)]);
    assert!(contains_pair(&shared, (1, 0)));
    assert!(!contains_pair(&shared, (3, 2)));
}

#[test]
fn shared_state_takes_active_pairs() {
    let mut shared: Vec<(u8, u8)> = vec![(9, 9)];
    shared.update_from_pairs(&[(0, 1), (2, 3)]);
    assert_eq!(shared, vec![(0, 1), (2, 3)]);
    shared.update_from_pairs(&[]);
    assert!(shared.is_empty());
    let mut unit = ();
    unit.update_from_pairs(&[(0, 1)]);
}

#[test]
fn vault_data_and_reserve_swap() {
    let single = SingleVaultData { vault_index: 3 };
    let dual = DualVaultData { vault1_index: 0, vault2_index: 5 };
    assert_eq!(single.vault_index, 3);
    assert_eq!((dual.vault1_index, dual.vault2_index), (0, 5));
    assert_eq!(SingleVaultStrategy.swap_reserves(&(10, 20)), (20, 10));
    let r = (7u64, 9u64);
    assert_eq!(SingleVaultStrategy.swap_reserves(&SingleVaultStrategy.swap_reserves(&r)), r);
}
