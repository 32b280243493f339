//! The in-memory scenario store.
use tcgui_backend::scenario::storage::{lookup_scenario, ScenarioStore};
use tcgui_backend::scenario::{NetworkScenario, ScenarioStep};
use tcgui_backend::decimal::Decimal;
use tcgui_backend::tc_config::{
    TcCorruptConfig, TcDelayConfig, TcDuplicateConfig, TcLossConfig, TcNetemConfig,
    TcRateLimitConfig, TcReorderConfig,
};

fn zero() -> Decimal {
    Decimal::from_int(0)
}

fn loss_config() -> TcNetemConfig {
    TcNetemConfig {
        loss: TcLossConfig { enabled: true, percentage: Decimal::from_int(5), correlation: zero() },
        delay: TcDelayConfig { enabled: false, base_ms: zero(), jitter_ms: zero(), correlation: zero() },
        duplicate: TcDuplicateConfig { enabled: false, percentage: zero(), correlation: zero() },
        reorder: TcReorderConfig { enabled: false, percentage: zero(), correlation: zero(), gap: 0 },
        corrupt: TcCorruptConfig { enabled: false, percentage: zero(), correlation: zero() },
        rate_limit: TcRateLimitConfig { enabled: false, rate_kbps: 0 },
    }
}

fn create_test_scenario(id: &str, name: &str) -> NetworkScenario {
    NetworkScenario {
        id: id.to_string(),
        name: name.to_string(),
        description: format!("Test scenario: {name}"),
        steps: vec![ScenarioStep { duration_ms: 1000, description: "Test step".to_string(), tc_config: loss_config() }],
    }
}

#[test]
fn put_get_list_delete_roundtrip() {
    let mut store = ScenarioStore::new();
    let scenario = create_test_scenario("test", "Test Scenario");

    store.put_scenario(scenario);
    assert!(store.scenario_exists("test"));
    let got = store.get_scenario("test").unwrap();
    assert_eq!(got.name, "Test Scenario");
    assert_eq!(store.list_scenarios().len(), 1);

    assert!(store.delete_scenario("test"));
    assert!(!store.scenario_exists("test"));
    assert!(store.get_scenario("test").is_none());
    assert!(!store.delete_scenario("test"));
}

#[test]
fn stats_reflect_contents() {
    let mut store = ScenarioStore::new();
    store.put_scenario(create_test_scenario("test1", "Scenario 1"));
    store.put_scenario(create_test_scenario("test2", "Scenario 2"));

    let stats = store.get_storage_stats();
    assert_eq!(stats.total_scenarios, 2);
    assert_eq!(stats.total_steps, 2);
    assert_eq!(stats.total_duration_ms, 2000);
}

#[test]
fn putting_an_id_again_replaces_it() {
    let mut store = ScenarioStore::new();
    store.put_scenario(create_test_scenario("a", "First"));
    store.put_scenario(create_test_scenario("b", "B"));
    store.put_scenario(create_test_scenario("a", "Second"));
    assert_eq!(store.list_scenarios().len(), 2);
    assert_eq!(store.get_scenario("a").unwrap().name, "Second");
    assert_eq!(store.get_storage_stats().total_scenarios, 2);
}

#[test]
fn stored_scenarios_shadow_templates() {
    let mut store = ScenarioStore::new();
    store.put_scenario(create_test_scenario("x", "Stored"));
    let templates = vec![
        create_test_scenario("x", "Template"),
        create_test_scenario("y", "Template Y"),
        create_test_scenario("y", "Second Y"),
    ];
    assert_eq!(lookup_scenario(&store, &templates, "x").unwrap().name, "Stored");
    assert_eq!(lookup_scenario(&store, &templates, "y").unwrap().name, "Template Y");
    assert!(lookup_scenario(&store, &templates, "z").is_none());
}
