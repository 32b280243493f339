//! Scenario and preset loaders: their directories and how loaded files are
//! merged.
use tcgui_backend::decimal::Decimal;
use tcgui_backend::paths::{default_directories, is_json5_path, join_path};
use tcgui_backend::preset_loader::{CustomPreset, PresetLoadError, PresetLoader};
use tcgui_backend::scenario::loader::{json5_files, ScenarioLoader};
use tcgui_backend::scenario::NetworkScenario;
use tcgui_backend::tc_config::{
    TcCorruptConfig, TcDelayConfig, TcDuplicateConfig, TcLossConfig, TcNetemConfig,
    TcRateLimitConfig, TcReorderConfig,
};

fn zero() -> Decimal {
    Decimal::from_int(0)
}

fn quiet_config() -> TcNetemConfig {
    TcNetemConfig {
        loss: TcLossConfig { enabled: false, percentage: zero(), correlation: zero() },
        delay: TcDelayConfig { enabled: false, base_ms: zero(), jitter_ms: zero(), correlation: zero() },
        duplicate: TcDuplicateConfig { enabled: false, percentage: zero(), correlation: zero() },
        reorder: TcReorderConfig { enabled: false, percentage: zero(), correlation: zero(), gap: 0 },
        corrupt: TcCorruptConfig { enabled: false, percentage: zero(), correlation: zero() },
        rate_limit: TcRateLimitConfig { enabled: false, rate_kbps: 0 },
    }
}

fn scenario(id: &str, name: &str) -> NetworkScenario {
    NetworkScenario { id: id.to_string(), name: name.to_string(), description: String::new(), steps: vec![] }
}

fn preset(id: &str, name: &str) -> CustomPreset {
    CustomPreset { id: id.to_string(), name: name.to_string(), description: String::new(), config: quiet_config() }
}

#[test]
fn loader_test_loader_creation() {
    let loader = ScenarioLoader::new();
    assert!(!loader.directories().is_empty());
}

#[test]
fn loader_test_loader_with_custom_directories() {
    let dirs = vec!["/tmp/test1".to_string(), "/tmp/test2".to_string()];
    let loader = ScenarioLoader::with_directories(dirs.clone());
    assert_eq!(loader.directories(), &dirs);
}

#[test]
fn loader_test_add_directory() {
    let mut loader = ScenarioLoader::with_directories(vec!["/dir1".to_string()]);
    loader.add_directory("/dir2".to_string());

    assert_eq!(loader.directories().len(), 2);
    assert_eq!(loader.directories()[1], "/dir2");
}

#[test]
fn test_add_directories() {
    let mut loader = ScenarioLoader::with_directories(vec!["/dir1".to_string()]);
    loader.add_directories(vec!["/dir2".to_string(), "/dir3".to_string()]);

    assert_eq!(loader.directories().len(), 3);
}

#[test]
fn default_scenario_directories_follow_the_home_directory() {
    let with_home = ScenarioLoader::with_home(Some("/home/me".to_string()));
    assert_eq!(
        with_home.directories(),
        &vec![
            "/usr/share/tcgui/scenarios".to_string(),
            "/home/me/.config/tcgui/scenarios".to_string(),
            "./scenarios".to_string()
        ]
    );
    let without = ScenarioLoader::with_home(None);
    assert_eq!(
        without.directories(),
        &vec!["/usr/share/tcgui/scenarios".to_string(), "./scenarios".to_string()]
    );
    assert_eq!(join_path("/home/me/", "x"), "/home/me/x");
    assert_eq!(default_directories("/a", None, "b", "./c").len(), 2);
}

#[test]
fn later_directories_override_earlier_ones() {
    let loaded = vec![
        scenario("same-id", "From Dir 1"),
        scenario("other", "Other"),
        scenario("same-id", "From Dir 2"),
    ];
    let merged = ScenarioLoader::merge_loaded(loaded);
    assert_eq!(merged.len(), 2);
    let found = ScenarioLoader::get_scenario(&merged, "same-id").unwrap();
    assert_eq!(found.name, "From Dir 2");
    assert!(ScenarioLoader::get_scenario(&merged, "nonexistent").is_none());
}

#[test]
fn only_json5_files_are_read() {
    let paths = vec![
        "/d/valid.json5".to_string(),
        "/d/readme.txt".to_string(),
        "/d/config.json".to_string(),
        "/d/other.JSON5".to_string(),
        "/d/.json5".to_string(),
    ];
    assert_eq!(json5_files(&paths), vec!["/d/valid.json5".to_string()]);
    assert!(is_json5_path("a/b.c.json5"));
    assert!(!is_json5_path("json5"));
}

#[test]
fn preset_loader_test_loader_creation() {
    let loader = PresetLoader::new();
    assert!(!loader.directories().is_empty());
}

#[test]
fn preset_loader_test_loader_with_custom_directories() {
    let dirs = vec!["/tmp/test1".to_string(), "/tmp/test2".to_string()];
    let loader = PresetLoader::with_directories(dirs.clone());
    assert_eq!(loader.directories(), &dirs);
}

#[test]
fn preset_loader_test_add_directory() {
    let mut loader = PresetLoader::with_directories(vec!["/dir1".to_string()]);
    loader.add_directory("/dir2".to_string());

    assert_eq!(loader.directories().len(), 2);
    assert_eq!(loader.directories()[1], "/dir2");
}

#[test]
fn preset_loader_add_directories_and_defaults() {
    let mut loader = PresetLoader::with_defaults(false);
    assert!(loader.directories().is_empty());
    loader.add_directories(vec!["/a".to_string(), "/b".to_string()]);
    assert_eq!(loader.directories().len(), 2);
    let with = PresetLoader::with_defaults(true);
    assert_eq!(with.directories()[0], "/usr/share/tcgui/presets");
    assert_eq!(with.directories().last().unwrap(), "./presets");
}

#[test]
fn later_presets_override_earlier_ones() {
    let merged = PresetLoader::merge_loaded(vec![preset("p", "First"), preset("q", "Q"), preset("p", "Second")]);
    assert_eq!(merged.len(), 2);
    assert_eq!(PresetLoader::get_preset(&merged, "p").unwrap().name, "Second");
    assert!(PresetLoader::get_preset(&merged, "missing").is_none());
}

#[test]
fn preset_load_error_text() {
    let e = PresetLoadError { file_path: "/x/bad.json5".to_string(), error: "syntax".to_string() };
    assert_eq!(e.to_string(), "Failed to load preset from /x/bad.json5: syntax");
}

#[test]
fn collected_presets_merge_and_report_each_failed_file() {
    let files = vec![
        ("/usr/share/tcgui/presets/a.json5".to_string(), Ok(preset("shared", "System"))),
        ("/usr/share/tcgui/presets/bad.json5".to_string(), Err("expected value at line 1".to_string())),
        ("./presets/b.json5".to_string(), Ok(preset("shared", "Local"))),
        ("./presets/c.json5".to_string(), Ok(preset("solo", "Solo"))),
        ("./presets/worse.json5".to_string(), Err("missing field `id`".to_string())),
    ];
    let (presets, errors) = PresetLoader::collect_loaded(files);
    assert_eq!(presets.len(), 2);
    let shared = PresetLoader::get_preset(&presets, "shared").unwrap();
    assert_eq!(shared.name, "Local");
    assert!(PresetLoader::get_preset(&presets, "solo").is_some());
    assert_eq!(errors.len(), 2);
    assert_eq!(errors[0].file_path, "/usr/share/tcgui/presets/bad.json5");
    assert_eq!(errors[0].error, "expected value at line 1");
    assert_eq!(errors[1].file_path, "./presets/worse.json5");
    assert_eq!(
        errors[1].to_string(),
        "Failed to load preset from ./presets/worse.json5: missing field `id`"
    );
}
