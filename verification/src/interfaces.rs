//! Interfaces and namespaces as the backend lists them.
use vstd::prelude::*;
use crate::text::{owned, str_eq};

verus! {

/// A network interface.
#[derive(Debug, Clone)]
pub struct Interface {
    pub name: String,
    pub index: u32,
    pub is_up: bool,
    pub mtu: u32,
    pub mac_address: String,
    pub ip_addresses: Vec<String>,
    /// `ethernet`, `wireless`, `loopback`, and so on.
    pub interface_type: String,
}

/// A network namespace.
#[derive(Debug, Clone)]
pub struct NamespaceInfo {
    pub name: String,
}

/// Fixed interface and namespace listings, standing in until the scans are
/// backed by netlink.
pub struct NamespaceInterfaces;

impl NamespaceInterfaces {
    /// The interfaces of a namespace: `eth0` and `lo` in the host
    /// namespace, none elsewhere.
    pub fn scan_interfaces_in_namespace(namespace: &str) -> (r: Vec<Interface>)
        ensures
            namespace@ == "default"@ ==> r@.len() == 2 && r@[0].name@ == "eth0"@ && r@[0].index
                == 2 && r@[0].mtu == 1500 && r@[1].name@ == "lo"@ && r@[1].index == 1 && r@[1].mtu
                == 65536,
            namespace@ != "default"@ ==> r@.len() == 0,
    {
        if !str_eq(namespace, "default") {
            return Vec::new();
        }
        vec![
            Interface {
                name: owned("eth0"),
                index: 2,
                is_up: true,
                mtu: 1500,
                mac_address: owned("02:42:ac:11:00:02"),
                ip_addresses: vec![owned("192.168.1.100")],
                interface_type: owned("ethernet"),
            },
            Interface {
                name: owned("lo"),
                index: 1,
                is_up: true,
                mtu: 65536,
                mac_address: owned("00:00:00:00:00:00"),
                ip_addresses: vec![owned("127.0.0.1"), owned("::1")],
                interface_type: owned("loopback"),
            },
        ]
    }

    /// The namespaces: `default` and `test-ns`.
    pub fn scan_namespaces() -> (r: Vec<NamespaceInfo>)
        ensures
            r@.len() == 2,
            r@[0].name@ == "default"@,
            r@[1].name@ == "test-ns"@,
    {
        vec![NamespaceInfo { name: owned("default") }, NamespaceInfo { name: owned("test-ns") }]
    }
}

} // verus!
