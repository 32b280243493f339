//! Service health and the fixed interface listings.
use tcgui_backend::interfaces::NamespaceInterfaces;
use tcgui_backend::services::ServiceHealth;

#[test]
fn test_service_health_is_healthy() {
    assert!(ServiceHealth::Healthy.is_healthy());
    assert!(!ServiceHealth::Degraded { reason: "test".to_string() }.is_healthy());
    assert!(!ServiceHealth::Unhealthy { reason: "test".to_string() }.is_healthy());
}

#[test]
fn test_service_health_reason() {
    assert_eq!(ServiceHealth::Healthy.reason(), None);
    assert_eq!(ServiceHealth::Degraded { reason: "test".to_string() }.reason(), Some("test"));
    assert_eq!(ServiceHealth::Unhealthy { reason: "error".to_string() }.reason(), Some("error"));
}

#[test]
fn test_scan_default_namespace() {
    let interfaces = NamespaceInterfaces::scan_interfaces_in_namespace("default");
    assert_eq!(interfaces.len(), 2);
    assert_eq!(interfaces[0].name, "eth0");
    assert_eq!(interfaces[1].name, "lo");
}

#[test]
fn test_scan_other_namespace() {
    let interfaces = NamespaceInterfaces::scan_interfaces_in_namespace("other");
    assert_eq!(interfaces.len(), 0);
}

#[test]
fn test_scan_namespaces() {
    let namespaces = NamespaceInterfaces::scan_namespaces();
    assert_eq!(namespaces.len(), 2);
    assert_eq!(namespaces[0].name, "default");
    assert_eq!(namespaces[1].name, "test-ns");
}
