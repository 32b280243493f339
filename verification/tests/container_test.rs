//! Container records and their names.
use tcgui_backend::container::{
    created_of, short_id, trim_leading_slashes, Container, ContainerNetwork, ContainerRuntime,
    ContainerState,
};

#[test]
fn test_container_state_from_str() {
    assert_eq!(ContainerState::from("running"), ContainerState::Running);
    assert_eq!(ContainerState::from("Running"), ContainerState::Running);
    assert_eq!(ContainerState::from("paused"), ContainerState::Paused);
    assert_eq!(ContainerState::from("exited"), ContainerState::Stopped);
    assert_eq!(ContainerState::from("stopped"), ContainerState::Stopped);
    assert_eq!(ContainerState::from("dead"), ContainerState::Stopped);
    assert_eq!(ContainerState::from("unknown_state"), ContainerState::Unknown);
}

#[test]
fn test_container_runtime_display() {
    assert_eq!(ContainerRuntime::Docker.to_string(), "docker");
    assert_eq!(ContainerRuntime::Podman.to_string(), "podman");
}

#[test]
fn test_container_display_name() {
    let container = Container {
        id: "abc123def456".to_string(),
        short_id: "abc123def456".to_string(),
        name: "my-container".to_string(),
        runtime: ContainerRuntime::Docker,
        pid: Some(12345),
        namespace_path: Some("/proc/12345/ns/net".to_string()),
        networks: vec![],
        state: ContainerState::Running,
        created: 0,
        image: "nginx:latest".to_string(),
    };

    assert_eq!(container.display_name(), "my-container (abc123def456)");
    assert_eq!(container.namespace_id(), "container:my-container");
}

#[test]
fn test_container_network() {
    let network = ContainerNetwork {
        network_name: "bridge".to_string(),
        network_id: "abc123".to_string(),
        interface_name: "eth0".to_string(),
        ip_address: Some("172.17.0.2".to_string()),
        mac_address: Some("02:42:ac:11:00:02".to_string()),
        gateway: Some("172.17.0.1".to_string()),
        is_internal: false,
    };

    assert_eq!(network.network_name, "bridge");
    assert!(network.ip_address.is_some());
}

#[test]
fn networks_are_numbered_by_position() {
    let n = ContainerNetwork::from_endpoint(
        2,
        "backend".to_string(),
        None,
        Some("10.0.0.5".to_string()),
        None,
        None,
    );
    assert_eq!(n.interface_name, "eth2");
    assert_eq!(n.network_id, "");
    assert!(!n.is_internal);
}

#[test]
fn inspection_fills_defaults() {
    let c = Container::from_inspection(
        "0123456789abcdef",
        None,
        Some("//web"),
        Some("Exited"),
        Some(0),
        vec![],
        None,
        Some("2024-05-01T10:00:00Z"),
        ContainerRuntime::Podman,
    );
    assert_eq!(c.id, "0123456789abcdef");
    assert_eq!(c.short_id, "0123456789ab");
    assert_eq!(c.name, "web");
    assert_eq!(c.state, ContainerState::Stopped);
    assert_eq!(c.pid, None);
    assert_eq!(c.namespace_path, None);
    assert_eq!(c.image, "unknown");
    assert_eq!(c.created, 2024);

    let running = Container::from_inspection(
        "ffff",
        Some("abcdef".to_string()),
        None,
        Some("running"),
        Some(4242),
        vec![],
        Some("alpine".to_string()),
        None,
        ContainerRuntime::Docker,
    );
    assert_eq!(running.name, "abcdef");
    assert_eq!(running.pid, Some(4242));
    assert_eq!(running.namespace_path.as_deref(), Some("/proc/4242/ns/net"));
    assert_eq!(running.created, 0);
}

#[test]
fn id_and_name_helpers() {
    assert_eq!(short_id("abc"), "abc");
    assert_eq!(short_id("abcdefghijklmnop"), "abcdefghijkl");
    assert_eq!(trim_leading_slashes("/a/b"), "a/b");
    assert_eq!(trim_leading_slashes("plain"), "plain");
    assert_eq!(created_of(Some("not-a-date")), 0);
    assert_eq!(created_of(Some("1999-12-31")), 1999);
    assert_eq!(created_of(None), 0);
}
