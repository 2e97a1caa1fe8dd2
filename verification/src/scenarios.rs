use vstd::prelude::*;
use vstd::string::StringExecFns;

verus! {

/// One scenario of the Monte Carlo study.
#[derive(Debug, Clone)]
pub struct ScenarioConfig {
    pub name: String,
    pub description: String,
    pub is_dual: bool,
    pub enable_arbitrageurs: bool,
}

fn scenario(name: &str, description: &str, is_dual: bool, enable_arbitrageurs: bool) -> (r: ScenarioConfig)
    ensures
        r.name@ == name@,
        r.description@ == description@,
        r.is_dual == is_dual,
        r.enable_arbitrageurs == enable_arbitrageurs,
{
    ScenarioConfig {
        name: String::from_str(name),
        description: String::from_str(description),
        is_dual,
        enable_arbitrageurs,
    }
}

/// The four scenarios, in order: single vault without and with
/// arbitrageurs, then dual vault without and with them.
pub fn get_scenarios() -> (r: Vec<ScenarioConfig>)
    ensures
        r@.len() == 4,
        r@[0].name@ == "single_no_arb"@ && r@[0].description@ == "Single Vault + User Noise"@,
        r@[1].name@ == "single"@ && r@[1].description@ == "Single Vault + Arbitrage"@,
        r@[2].name@ == "dual_no_arb"@ && r@[2].description@ == "Dual Vault + User Noise"@,
        r@[3].name@ == "dual"@ && r@[3].description@ == "Dual Vault + Arbitrage"@,
        forall|i: int| 0 <= i < 4 ==> #[trigger] r@[i].is_dual == (i >= 2),
        forall|i: int| 0 <= i < 4 ==> #[trigger] r@[i].enable_arbitrageurs == (i % 2 == 1),
{
    let mut v: Vec<ScenarioConfig> = Vec::new();
    v.push(scenario("single_no_arb", "Single Vault + User Noise", false, false));
    v.push(scenario("single", "Single Vault + Arbitrage", false, true));
    v.push(scenario("dual_no_arb", "Dual Vault + User Noise", true, false));
    v.push(scenario("dual", "Dual Vault + Arbitrage", true, true));
    v
}

} // verus!
