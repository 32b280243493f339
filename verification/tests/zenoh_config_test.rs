//! Message bus session settings from the command line and the presets.
use tcgui_backend::config::cli::CliConfig;
use tcgui_backend::config::zenoh_config::{EndpointRole, ZenohConfigManager, ZenohMode};

fn cli(mode: &str, connect: Option<&str>, listen: Option<&str>, no_multicast: bool) -> CliConfig {
    CliConfig {
        verbose: false,
        exclude_loopback: false,
        backend_name: "test".to_string(),
        zenoh_mode: mode.to_string(),
        zenoh_connect: connect.map(|s| s.to_string()),
        zenoh_listen: listen.map(|s| s.to_string()),
        no_multicast,
        scenario_dirs: vec![],
        no_default_scenarios: false,
        preset_dirs: vec![],
        no_default_presets: false,
    }
}

#[test]
fn test_zenoh_config_from_cli_peer_mode() {
    let zenoh_config = ZenohConfigManager::from_cli(&cli("peer", None, None, false));
    assert!(matches!(zenoh_config.mode, ZenohMode::Peer));
    assert_eq!(zenoh_config.endpoints.len(), 1);
    assert!(zenoh_config.endpoints[0].1.contains("127.0.0.1"));
}

#[test]
fn test_zenoh_config_from_cli_client_mode() {
    let zenoh_config = ZenohConfigManager::from_cli(&cli("client", None, None, false));
    assert!(matches!(zenoh_config.mode, ZenohMode::Client));
    assert!(zenoh_config.endpoints.is_empty());
}

#[test]
fn test_zenoh_config_with_endpoints() {
    let zenoh_config = ZenohConfigManager::from_cli(&cli(
        "peer",
        Some("tcp/192.168.1.1:7447,udp/192.168.1.2:7447"),
        Some("tcp/0.0.0.0:7447"),
        false,
    ));
    assert_eq!(zenoh_config.endpoints.len(), 4);
}

#[test]
fn endpoints_keep_their_order_and_roles() {
    let s = ZenohConfigManager::from_cli(&cli("PEER", Some(" tcp/a:1 , udp/b:2"), Some("tcp/c:3"), false));
    let got: Vec<(EndpointRole, &str)> = s.endpoints.iter().map(|(r, e)| (*r, e.as_str())).collect();
    assert_eq!(
        got,
        vec![
            (EndpointRole::Listen, "tcp/127.0.0.1:7447"),
            (EndpointRole::Connect, "tcp/a:1"),
            (EndpointRole::Connect, "udp/b:2"),
            (EndpointRole::Listen, "tcp/c:3"),
        ]
    );
    let empty_piece = ZenohConfigManager::from_cli(&cli("client", Some("a,,b"), None, false));
    assert_eq!(empty_piece.endpoints.len(), 3);
    assert_eq!(empty_piece.endpoints[1].1, "");
}

#[test]
fn test_zenoh_config_invalid_mode_fallback() {
    let zenoh_config = ZenohConfigManager::from_cli(&cli("invalid-mode", None, None, false));
    assert!(matches!(zenoh_config.mode, ZenohMode::Peer));
}

#[test]
fn test_zenoh_config_no_multicast() {
    let zenoh_config = ZenohConfigManager::from_cli(&cli("peer", None, None, true));
    assert_eq!(zenoh_config.property("scouting/multicast/enabled"), Some("false"));
    assert_eq!(ZenohConfigManager::from_cli(&cli("peer", None, None, false)).property("scouting/multicast/enabled"), None);
}

#[test]
fn test_default_configurations() {
    let peer_config = ZenohConfigManager::default_peer();
    assert!(matches!(peer_config.mode, ZenohMode::Peer));
    assert!(peer_config.endpoints.is_empty());

    let client_config = ZenohConfigManager::default_client();
    assert!(matches!(client_config.mode, ZenohMode::Client));
    assert!(!client_config.endpoints.is_empty());
}

#[test]
fn test_multicast_discovery() {
    let config = ZenohConfigManager::default_peer();
    let config = ZenohConfigManager::with_multicast_discovery(config);

    assert!(config.property("scouting/multicast/enabled").is_some());
    assert!(config.property("scouting/gossip/enabled").is_some());
}

#[test]
fn test_local_development_config() {
    let config = ZenohConfigManager::for_local_development();
    assert!(matches!(config.mode, ZenohMode::Peer));
    assert!(!config.endpoints.is_empty());
    assert!(config.property("transport/unicast/qos").is_some());
}

#[test]
fn test_production_config() {
    let config = ZenohConfigManager::for_production();
    assert!(matches!(config.mode, ZenohMode::Peer));
    assert_eq!(config.property("transport/compression"), Some("true"));
    assert_eq!(config.property("transport/unicast/qos"), Some("true"));
}

#[test]
fn a_property_set_again_takes_the_last_value() {
    let mut s = ZenohConfigManager::default_peer();
    s.set_property("k", "1");
    s.set_property("other", "x");
    s.set_property("k", "2");
    assert_eq!(s.property("k"), Some("2"));
    assert_eq!(s.property("missing"), None);
}
