//! How interfaces and their root qdiscs are classified for display.
use vstd::prelude::*;
use crate::tc_commands::replaceable_root;
use crate::text::{has_prefix, owned, push_arg, push_str, str_eq, str_starts_with};

verus! {

/// What kind of network interface a link is.
#[derive(Debug, Clone, Copy, PartialEq, Eq, Structural)]
pub enum InterfaceType {
    Physical,
    Virtual,
    Veth,
    Bridge,
    Tun,
    Loopback,
}

/// The root qdisc kind worth showing: none for no qdisc or a kernel
/// default (`noqueue`, `pfifo_fast`, `mq`, `pfifo`, `bfifo`), else the kind.
pub fn interesting_qdisc_kind(kind: Option<String>) -> (r: Option<String>)
    ensures
        match kind {
            Some(k) => if replaceable_root(Some(k@)) {
                r is None
            } else {
                r == Some(k)
            },
            None => r is None,
        },
{
    match kind {
        Some(k) => {
            let s = k.as_str();
            if str_eq(s, "noqueue") || str_eq(s, "pfifo_fast") || str_eq(s, "mq") || str_eq(s, "pfifo")
                || str_eq(s, "bfifo") {
                None
            } else {
                Some(k)
            }
        },
        None => None,
    }
}

/// The type of a link: loopback when the link says so; else by its kind
/// (`bridge`, `veth`, `tun` or `tap`, and `vlan`, `bond` or `dummy` for
/// virtual, anything else physical); without a kind, by its name (`br-`
/// or `docker0` bridges, `veth`, `tun` or `tap`, `lo`).
pub open spec fn interface_type_spec(name: Seq<char>, is_loopback: bool, kind: Option<Seq<char>>) -> InterfaceType {
    if is_loopback {
        InterfaceType::Loopback
    } else {
        match kind {
            Some(k) => if k == "bridge"@ {
                InterfaceType::Bridge
            } else if k == "veth"@ {
                InterfaceType::Veth
            } else if k == "tun"@ || k == "tap"@ {
                InterfaceType::Tun
            } else if k == "vlan"@ || k == "bond"@ || k == "dummy"@ {
                InterfaceType::Virtual
            } else {
                InterfaceType::Physical
            },
            None => if has_prefix(name, "br-"@) || name == "docker0"@ {
                InterfaceType::Bridge
            } else if has_prefix(name, "veth"@) {
                InterfaceType::Veth
            } else if has_prefix(name, "tun"@) || has_prefix(name, "tap"@) {
                InterfaceType::Tun
            } else if name == "lo"@ {
                InterfaceType::Loopback
            } else {
                InterfaceType::Physical
            },
        }
    }
}

/// The type of a link (see `interface_type_spec`).
pub fn determine_interface_type(name: &str, is_loopback: bool, kind: Option<&str>) -> (t: InterfaceType)
    ensures
        t == interface_type_spec(name@, is_loopback, crate::text::opt_view(kind)),
{
    if is_loopback {
        return InterfaceType::Loopback;
    }
    match kind {
        Some(k) => {
            if str_eq(k, "bridge") {
                InterfaceType::Bridge
            } else if str_eq(k, "veth") {
                InterfaceType::Veth
            } else if str_eq(k, "tun") || str_eq(k, "tap") {
                InterfaceType::Tun
            } else if str_eq(k, "vlan") || str_eq(k, "bond") || str_eq(k, "dummy") {
                InterfaceType::Virtual
            } else {
                InterfaceType::Physical
            }
        },
        None => {
            if str_starts_with(name, "br-") || str_eq(name, "docker0") {
                InterfaceType::Bridge
            } else if str_starts_with(name, "veth") {
                InterfaceType::Veth
            } else if str_starts_with(name, "tun") || str_starts_with(name, "tap") {
                InterfaceType::Tun
            } else if str_eq(name, "lo") {
                InterfaceType::Loopback
            } else {
                InterfaceType::Physical
            }
        },
    }
}

/// An interface as the backend reports it.
#[derive(Debug, Clone)]
pub struct NetworkInterface {
    pub name: String,
    pub index: u32,
    /// The namespace the interface lives in.
    pub namespace: String,
    pub is_up: bool,
    /// Whether a qdisc worth showing is installed.
    pub has_tc_qdisc: bool,
    pub interface_type: InterfaceType,
}

/// Whether an interface is reported: everything, or, when loopback is
/// excluded, what is neither named `lo` nor of loopback type.
pub open spec fn reported(exclude_loopback: bool, i: NetworkInterface) -> bool {
    !exclude_loopback || (i.name@ != "lo"@ && i.interface_type != InterfaceType::Loopback)
}

/// The predicate `reported` for one setting.
pub open spec fn reported_by(exclude_loopback: bool) -> spec_fn(NetworkInterface) -> bool {
    |i: NetworkInterface| reported(exclude_loopback, i)
}

/// The interfaces that are reported (see `reported`), in order.
pub fn filter_interfaces(exclude_loopback: bool, interfaces: Vec<NetworkInterface>) -> (r: Vec<
    NetworkInterface,
>)
    ensures
        r@ == interfaces@.filter(reported_by(exclude_loopback)),
{
    let ghost all = interfaces@;
    let ghost pred = reported_by(exclude_loopback);
    let mut rest = interfaces;
    let mut r: Vec<NetworkInterface> = Vec::new();
    assert(all.subrange(0, 0) =~= Seq::<NetworkInterface>::empty());
    assert(all.subrange(0, 0).filter(pred) =~= Seq::<NetworkInterface>::empty()) by {
        reveal(Seq::filter);
    }
    while rest.len() > 0
        invariant
            rest@.len() <= all.len(),
            rest@ == all.subrange(all.len() - rest@.len(), all.len() as int),
            pred == reported_by(exclude_loopback),
            r@ == all.subrange(0, all.len() - rest@.len()).filter(pred),
        decreases rest.len(),
    {
        let ghost k = all.len() - rest@.len();
        let x = rest.remove(0);
        let keep = !exclude_loopback || (!str_eq(x.name.as_str(), "lo")
            && x.interface_type != InterfaceType::Loopback);
        proof {
            reveal_strlit("lo");
            let next = all.subrange(0, k + 1);
            assert(next.drop_last() =~= all.subrange(0, k));
            assert(next.last() == x);
            assert(rest@ =~= all.subrange(k + 1, all.len() as int));
            reveal(Seq::filter);
            assert(pred(x) == keep);
        }
        if keep {
            r.push(x);
        }
    }
    assert(all.subrange(0, all.len() as int) =~= all);
    r
}

/// The key of an interface: `namespace/name`.
pub open spec fn interface_key(i: NetworkInterface) -> Seq<char> {
    i.namespace@ + "/"@ + i.name@
}

/// The keys of a list of interfaces.
pub open spec fn interface_keys(s: Seq<NetworkInterface>) -> Seq<Seq<char>> {
    s.map_values(|i: NetworkInterface| interface_key(i))
}

/// Whether a key names none of the interfaces.
pub open spec fn stale_in(s: Seq<NetworkInterface>) -> spec_fn(Seq<char>) -> bool {
    |k: Seq<char>| !interface_keys(s).contains(k)
}

fn key_of(i: &NetworkInterface) -> (k: String)
    ensures
        k@ == interface_key(*i),
{
    let mut k = owned(i.namespace.as_str());
    push_str(&mut k, "/");
    push_str(&mut k, i.name.as_str());
    k
}

/// The publisher keys that name no current interface, in order.
pub fn stale_publisher_keys(publisher_keys: &Vec<String>, interfaces: &Vec<NetworkInterface>) -> (r:
    Vec<String>)
    ensures
        r.deep_view() == publisher_keys.deep_view().filter(stale_in(interfaces@)),
{
    let ghost pred = stale_in(interfaces@);
    let mut keys: Vec<String> = Vec::new();
    let mut j: usize = 0;
    while j < interfaces.len()
        invariant
            j <= interfaces@.len(),
            keys.deep_view() == interface_keys(interfaces@).subrange(0, j as int),
        decreases interfaces.len() - j,
    {
        push_arg(&mut keys, key_of(&interfaces[j]));
        proof {
            assert(keys.deep_view() =~= interface_keys(interfaces@).subrange(0, j + 1));
        }
        j = j + 1;
    }
    assert(keys.deep_view() =~= interface_keys(interfaces@));
    let mut r: Vec<String> = Vec::new();
    let mut i: usize = 0;
    assert(publisher_keys.deep_view().subrange(0, 0).filter(pred) =~= Seq::<Seq<char>>::empty()) by {
        reveal(Seq::filter);
    }
    while i < publisher_keys.len()
        invariant
            i <= publisher_keys@.len(),
            pred == stale_in(interfaces@),
            keys.deep_view() == interface_keys(interfaces@),
            r.deep_view() == publisher_keys.deep_view().subrange(0, i as int).filter(pred),
        decreases publisher_keys.len() - i,
    {
        let k = publisher_keys[i].as_str();
        let mut found = false;
        let mut m: usize = 0;
        while m < keys.len()
            invariant
                m <= keys@.len(),
                found == (exists|q: int| 0 <= q < m && keys.deep_view()[q] == k@),
            decreases keys.len() - m,
        {
            if str_eq(keys[m].as_str(), k) {
                assert(keys.deep_view()[m as int] == k@);
                found = true;
            }
            m = m + 1;
        }
        proof {
            let next = publisher_keys.deep_view().subrange(0, i + 1);
            assert(next.drop_last() =~= publisher_keys.deep_view().subrange(0, i as int));
            assert(next.last() == k@);
            reveal(Seq::filter);
            if found {
                let q = choose|q: int| 0 <= q < keys@.len() && keys.deep_view()[q] == k@;
                assert(interface_keys(interfaces@).contains(k@));
            } else {
                assert(!interface_keys(interfaces@).contains(k@)) by {
                    if interface_keys(interfaces@).contains(k@) {
                        let q = choose|q: int| 0 <= q < interface_keys(interfaces@).len() && interface_keys(interfaces@)[q] == k@;
                        assert(keys.deep_view()[q] == k@);
                    }
                }
            }
            assert(pred(k@) == !found);
        }
        if !found {
            push_arg(&mut r, owned(k));
        }
        proof {
            assert(r.deep_view() =~= publisher_keys.deep_view().subrange(0, i + 1).filter(pred)) by {
                reveal(Seq::filter);
            }
        }
        i = i + 1;
    }
    assert(publisher_keys.deep_view().subrange(0, publisher_keys@.len() as int) =~= publisher_keys.deep_view());
    r
}

/// Whether an interface with this index is among `s`.
pub open spec fn index_known(s: Seq<NetworkInterface>, index: u32) -> bool {
    exists|q: int| 0 <= q < s.len() && s[q].index == index
}

/// The namespace and name of each interface of `updated` whose index is
/// not among `previous`, in the order of `updated`.
pub open spec fn new_targets(previous: Seq<NetworkInterface>, updated: Seq<NetworkInterface>) -> Seq<
    (Seq<char>, Seq<char>),
>
    decreases updated.len(),
{
    if updated.len() == 0 {
        Seq::empty()
    } else {
        let before = new_targets(previous, updated.drop_last());
        let i = updated.last();
        if index_known(previous, i.index) {
            before
        } else {
            before.push((i.namespace@, i.name@))
        }
    }
}

/// Pairs of strings by their views.
pub open spec fn target_views(v: Seq<(String, String)>) -> Seq<(Seq<char>, Seq<char>)> {
    v.map_values(|t: (String, String)| (t.0@, t.1@))
}

/// The interfaces that appeared since the previous scan, as namespace and
/// name: those of `updated` whose index `previous` does not have.
pub fn new_interfaces(previous: &Vec<NetworkInterface>, updated: &Vec<NetworkInterface>) -> (r: Vec<
    (String, String),
>)
    ensures
        target_views(r@) == new_targets(previous@, updated@),
{
    let mut r: Vec<(String, String)> = Vec::new();
    let mut j: usize = 0;
    while j < updated.len()
        invariant
            j <= updated@.len(),
            target_views(r@) == new_targets(previous@, updated@.subrange(0, j as int)),
        decreases updated.len() - j,
    {
        let iface = &updated[j];
        let mut known = false;
        let mut m: usize = 0;
        while m < previous.len()
            invariant
                m <= previous@.len(),
                known == (exists|q: int| 0 <= q < m && previous@[q].index == iface.index),
            decreases previous.len() - m,
        {
            if previous[m].index == iface.index {
                known = true;
            }
            m = m + 1;
        }
        proof {
            let next = updated@.subrange(0, j + 1);
            assert(next.drop_last() =~= updated@.subrange(0, j as int));
            assert(next.last() == updated@[j as int]);
            assert(known == index_known(previous@, iface.index));
        }
        if !known {
            r.push((owned(iface.namespace.as_str()), owned(iface.name.as_str())));
            proof {
                assert(target_views(r@) =~= target_views(r@.drop_last()).push(
                    (r@.last().0@, r@.last().1@),
                ));
            }
        }
        j = j + 1;
    }
    assert(updated@.subrange(0, updated@.len() as int) =~= updated@);
    r
}

} // verus!
