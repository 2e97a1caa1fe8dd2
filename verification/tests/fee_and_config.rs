use simulation::config::{
    arbitrageur_balances, dual_vault_count, effective_vault_count, single_vault_liquidity,
    validate_config, ValidationError, STRATEGY_DUAL, STRATEGY_SINGLE,
};
use simulation::env::EnvMode;
use simulation::fee::FeeOption;
use simulation::scenarios::get_scenarios;

#[test]
fn fee_tiers_have_their_fees() {
    assert_eq!(FeeOption::new(30).fees(), (30, 25));
    assert_eq!(FeeOption::new(25).fees(), (25, 21));
    assert_eq!(FeeOption::new(20).fees(), (20, 16));
    assert_eq!(FeeOption::Tier25.normal(), 25);
    assert_eq!(FeeOption::Tier25.discount(), 21);
    assert_eq!(FeeOption::Tier20.discount(), 16);
}

#[test]
fn fee_new_then_normal_gives_fee_back() {
    for fee in [30u64, 25, 20] {
        let f = FeeOption::new(fee);
        assert_eq!(f.normal(), fee);
        assert!(f.discount() < f.normal());
    }
}

#[test]
fn fee_tags_roundtrip() {
    for f in [FeeOption::Tier30, FeeOption::Tier25, FeeOption::Tier20] {
        assert_eq!(FeeOption::from_tag(f.tag()), Some(f));
    }
    assert_eq!(FeeOption::Tier30.tag(), 0);
    assert_eq!(FeeOption::Tier25.tag(), 1);
    assert_eq!(FeeOption::Tier20.tag(), 2);
    assert_eq!(FeeOption::from_tag(3), None);
    assert_eq!(FeeOption::from_tag(255), None);
}

fn ok_config() -> Result<(), ValidationError> {
    validate_config(8, STRATEGY_SINGLE, 32, (1, 10), (2, 20), true)
}

#[test]
fn validate_accepts_sound_config() {
    assert!(ok_config().is_ok());
    assert!(validate_config(2, STRATEGY_DUAL, 1, (0, 1), (0, 1), true).is_ok());
}

#[test]
fn validate_reports_each_error() {
    assert!(matches!(
        validate_config(0, STRATEGY_SINGLE, 32, (1, 10), (2, 20), true),
        Err(ValidationError::InvalidVaultCount)
    ));
    assert!(matches!(
        validate_config(1, STRATEGY_DUAL, 32, (1, 10), (2, 20), true),
        Err(ValidationError::InvalidDualVaultCount)
    ));
    assert!(matches!(
        validate_config(8, STRATEGY_SINGLE, 0, (1, 10), (2, 20), true),
        Err(ValidationError::InvalidUserCount)
    ));
    assert!(matches!(
        validate_config(8, STRATEGY_SINGLE, 32, (10, 10), (2, 20), true),
        Err(ValidationError::InvalidBalanceRange("token A"))
    ));
    assert!(matches!(
        validate_config(8, STRATEGY_SINGLE, 32, (1, 10), (30, 20), true),
        Err(ValidationError::InvalidBalanceRange("token B"))
    ));
    assert!(matches!(
        validate_config(8, STRATEGY_SINGLE, 32, (1, 10), (2, 20), false),
        Err(ValidationError::InvalidFrequency("swap"))
    ));
}

#[test]
fn validate_checks_in_order() {
    // Several faults: the vault count is reported first.
    assert!(matches!(
        validate_config(0, STRATEGY_DUAL, 0, (5, 1), (5, 1), false),
        Err(ValidationError::InvalidVaultCount)
    ));
    assert!(matches!(
        validate_config(1, STRATEGY_DUAL, 0, (5, 1), (5, 1), false),
        Err(ValidationError::InvalidDualVaultCount)
    ));
}

#[test]
fn vault_count_adjustments() {
    assert_eq!(effective_vault_count(1, Some(2)), 2);
    assert_eq!(effective_vault_count(8, Some(2)), 8);
    assert_eq!(effective_vault_count(0, None), 0);
    assert_eq!(dual_vault_count(8), 16);
    assert_eq!(single_vault_liquidity(100, 200), (200, 400));
    assert_eq!(arbitrageur_balances(100, 200, 8), (800, 1600));
}

#[test]
fn env_mode_vault_counts() {
    assert!(!EnvMode::Dual.accepts_vault_count(1));
    assert!(EnvMode::Dual.accepts_vault_count(2));
    assert!(EnvMode::Single.accepts_vault_count(1));
    assert!(EnvMode::Single.accepts_vault_count(0));
}

#[test]
fn scenarios_are_listed_in_order() {
    let s = get_scenarios();
    assert_eq!(s.len(), 4);
    let names: Vec<&str> = s.iter().map(|c| c.name.as_str()).collect();
    assert_eq!(names, vec!["single_no_arb", "single", "dual_no_arb", "dual"]);
    assert_eq!(s[1].description, "Single Vault + Arbitrage");
    assert!(!s[0].is_dual && !s[0].enable_arbitrageurs);
    assert!(!s[1].is_dual && s[1].enable_arbitrageurs);
    assert!(s[2].is_dual && !s[2].enable_arbitrageurs);
    assert!(s[3].is_dual && s[3].enable_arbitrageurs);
}
