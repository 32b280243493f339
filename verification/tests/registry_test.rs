//! The registry slice served to bus tooling.
use tcgui_backend::registry::REGISTRY_TOML;

#[test]
fn registry_is_nonempty_and_names_the_producer() {
    assert!(REGISTRY_TOML.contains("name = \"tc\""));
    assert!(REGISTRY_TOML.contains("bandwidth/{ns}/{iface}"));
    assert!(!REGISTRY_TOML.contains("{metric"));
    assert!(REGISTRY_TOML.contains("fanout = \"forbidden\""));
    assert!(!REGISTRY_TOML.contains("path = \"alive\""));
}
