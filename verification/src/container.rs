//! Containers whose network namespaces traffic control can reach: their
//! runtime, state, networks and how they are named.
//!
//! Talking to the Docker and Podman sockets is left to the caller; this
//! module turns what they report into containers.
use vstd::prelude::*;
use crate::text::{
    chars_of, count_char, count_char_exec, find_char, find_first, nat_digits, owned, parse_i64,
    parse_i64_spec, push_str, push_u64, str_eq, string_from_chars, subvec,
};
use crate::unicode::{lowercase, to_lowercase};

verus! {

/// A container runtime.
#[derive(Debug, Clone, Copy, PartialEq, Eq, Structural)]
pub enum ContainerRuntime {
    Docker,
    Podman,
}

impl ContainerRuntime {
    /// `docker` or `podman`.
    pub fn to_string(&self) -> (s: String)
        ensures
            s@ == (match self {
                ContainerRuntime::Docker => "docker"@,
                ContainerRuntime::Podman => "podman"@,
            }),
    {
        match self {
            ContainerRuntime::Docker => owned("docker"),
            ContainerRuntime::Podman => owned("podman"),
        }
    }
}

/// Whether a container runs.
#[derive(Debug, Clone, Copy, PartialEq, Eq, Structural)]
pub enum ContainerState {
    Running,
    Paused,
    Stopped,
    Unknown,
}

/// The state a status word names, compared in lowercase: `running`,
/// `paused`, and `exited`, `stopped` or `dead` for stopped.
pub open spec fn state_of_status(s: Seq<char>) -> ContainerState {
    let l = lowercase(s);
    if l == "running"@ {
        ContainerState::Running
    } else if l == "paused"@ {
        ContainerState::Paused
    } else if l == "exited"@ || l == "stopped"@ || l == "dead"@ {
        ContainerState::Stopped
    } else {
        ContainerState::Unknown
    }
}

impl ContainerState {
    /// The state a status word names (see `state_of_status`).
    pub fn from_status(s: &str) -> (r: ContainerState)
        ensures
            r == state_of_status(s@),
    {
        let lower = to_lowercase(s);
        let l = lower.as_str();
        if str_eq(l, "running") {
            ContainerState::Running
        } else if str_eq(l, "paused") {
            ContainerState::Paused
        } else if str_eq(l, "exited") || str_eq(l, "stopped") || str_eq(l, "dead") {
            ContainerState::Stopped
        } else {
            ContainerState::Unknown
        }
    }
}

impl<'a> From<&'a str> for ContainerState {
    fn from(s: &'a str) -> (r: ContainerState) {
        ContainerState::from_status(s)
    }
}

impl<'a> vstd::std_specs::convert::FromSpecImpl<&'a str> for ContainerState {
    open spec fn obeys_from_spec() -> bool {
        true
    }

    open spec fn from_spec(s: &'a str) -> ContainerState {
        state_of_status(s@)
    }
}

/// A network a container is attached to.
#[derive(Debug, Clone)]
pub struct ContainerNetwork {
    pub network_name: String,
    pub network_id: String,
    /// The interface inside the container.
    pub interface_name: String,
    pub ip_address: Option<String>,
    pub mac_address: Option<String>,
    pub gateway: Option<String>,
    /// Whether the network has no outside connectivity.
    pub is_internal: bool,
}

/// A container and its networks.
#[derive(Debug, Clone)]
pub struct Container {
    pub id: String,
    /// The first 12 characters of the id.
    pub short_id: String,
    /// The name, without leading slashes.
    pub name: String,
    pub runtime: ContainerRuntime,
    /// The main process, when running.
    pub pid: Option<u32>,
    /// The network namespace of the main process.
    pub namespace_path: Option<String>,
    pub networks: Vec<ContainerNetwork>,
    pub state: ContainerState,
    /// The creation year, or 0 when it could not be read.
    pub created: i64,
    pub image: String,
}

impl Container {
    /// `name (short id)`.
    pub fn display_name(&self) -> (s: String)
        ensures
            s@ == self.name@ + " ("@ + self.short_id@ + ")"@,
    {
        let mut s = owned(self.name.as_str());
        push_str(&mut s, " (");
        push_str(&mut s, self.short_id.as_str());
        push_str(&mut s, ")");
        s
    }

    /// The namespace name of the container: `container:name`.
    pub fn namespace_id(&self) -> (s: String)
        ensures
            s@ == "container:"@ + self.name@,
    {
        let mut s = owned("container:");
        push_str(&mut s, self.name.as_str());
        s
    }
}

/// The first 12 characters of an id (all of a shorter one).
pub open spec fn short_id_spec(id: Seq<char>) -> Seq<char> {
    if id.len() <= 12 {
        id
    } else {
        id.subrange(0, 12)
    }
}

/// `s` without its leading `/` characters.
pub open spec fn strip_slashes(s: Seq<char>) -> Seq<char>
    decreases s.len(),
{
    if s.len() > 0 && s[0] == '/' {
        strip_slashes(s.drop_first())
    } else {
        s
    }
}

/// The interface a container has on its `idx`-th network: `eth<idx>`.
pub open spec fn interface_name_spec(idx: nat) -> Seq<char> {
    "eth"@ + nat_digits(idx)
}

/// The creation field of an RFC 3339 time: the date before the first
/// `T` must have exactly three `-`-separated fields, and the first is read
/// as a number; else 0.
pub open spec fn created_spec(created: Option<Seq<char>>) -> i64 {
    match created {
        Some(c) => {
            let date = c.subrange(0, find_char(c, 'T') as int);
            if count_char(date, '-') == 2 {
                match parse_i64_spec(date.subrange(0, find_char(date, '-') as int)) {
                    Some(y) => y as i64,
                    None => 0,
                }
            } else {
                0
            }
        },
        None => 0,
    }
}

/// The creation field of an RFC 3339 time (see `created_spec`).
pub fn created_of(created: Option<&str>) -> (r: i64)
    ensures
        r == created_spec(crate::text::opt_view(created)),
{
    match created {
        Some(c) => {
            let v = chars_of(c);
            let t = find_first(&v, 'T');
            let date = subvec(&v, 0, t);
            if count_char_exec(&date, '-') == 2 {
                let d = find_first(&date, '-');
                let first = string_from_chars(&subvec(&date, 0, d));
                match parse_i64(first.as_str()) {
                    Some(y) => y,
                    None => 0,
                }
            } else {
                0
            }
        },
        None => 0,
    }
}

/// The first 12 characters of an id.
pub fn short_id(id: &str) -> (r: String)
    ensures
        r@ == short_id_spec(id@),
{
    let v = chars_of(id);
    if v.len() <= 12 {
        owned(id)
    } else {
        string_from_chars(&subvec(&v, 0, 12))
    }
}

/// A name without its leading slashes.
pub fn trim_leading_slashes(s: &str) -> (r: String)
    ensures
        r@ == strip_slashes(s@),
{
    let v = chars_of(s);
    let mut i: usize = 0;
    assert(s@.subrange(0, s@.len() as int) =~= s@);
    while i < v.len() && v[i] == '/'
        invariant
            i <= v@.len(),
            v@ == s@,
            strip_slashes(s@) == strip_slashes(s@.subrange(i as int, s@.len() as int)),
        decreases v.len() - i,
    {
        proof {
            let rest = s@.subrange(i as int, s@.len() as int);
            assert(rest.drop_first() =~= s@.subrange(i + 1, s@.len() as int));
        }
        i = i + 1;
    }
    proof {
        let rest = s@.subrange(i as int, s@.len() as int);
        assert(strip_slashes(rest) == rest);
    }
    string_from_chars(&subvec(&v, i, v.len()))
}

/// The interface name on the `idx`-th network.
pub fn interface_name_for(idx: usize) -> (r: String)
    ensures
        r@ == interface_name_spec(idx as nat),
{
    let mut s = owned("eth");
    push_u64(&mut s, idx as u64);
    s
}

/// The process id of a running container: a positive pid, truncated to
/// 32 bits.
pub fn pid_of(pid: Option<i64>) -> (r: Option<u32>)
    ensures
        r == (match pid {
            Some(p) => if p > 0 {
                Some(p as u32)
            } else {
                None
            },
            None => None,
        }),
{
    match pid {
        Some(p) => {
            if p > 0 {
                Some(p as u32)
            } else {
                None
            }
        },
        None => None,
    }
}

/// The network namespace of a process: `/proc/<pid>/ns/net`.
pub fn namespace_path_of(pid: u32) -> (r: String)
    ensures
        r@ == "/proc/"@ + nat_digits(pid as nat) + "/ns/net"@,
{
    let mut s = owned("/proc/");
    push_u64(&mut s, pid as u64);
    push_str(&mut s, "/ns/net");
    s
}


impl ContainerNetwork {
    /// The `idx`-th network of a container: its interface is `eth<idx>`,
    /// a missing network id is empty, and the network is taken as not
    /// internal.
    pub fn from_endpoint(
        idx: usize,
        network_name: String,
        network_id: Option<String>,
        ip_address: Option<String>,
        mac_address: Option<String>,
        gateway: Option<String>,
    ) -> (n: ContainerNetwork)
        ensures
            n.network_name == network_name,
            n.network_id@ == (match network_id {
                Some(i) => i@,
                None => Seq::<char>::empty(),
            }),
            n.interface_name@ == interface_name_spec(idx as nat),
            n.ip_address == ip_address,
            n.mac_address == mac_address,
            n.gateway == gateway,
            !n.is_internal,
    {
        ContainerNetwork {
            network_name,
            network_id: match network_id {
                Some(i) => i,
                None => String::new(),
            },
            interface_name: interface_name_for(idx),
            ip_address,
            mac_address,
            gateway,
            is_internal: false,
        }
    }
}

impl Container {
    /// A container from what the runtime reports when inspected: the
    /// reported id (else the one asked for) and its first 12 characters;
    /// the name without leading slashes (else the short id); the state of
    /// the status word (else unknown); a positive pid and its namespace
    /// path; the image (else `unknown`); the creation field.
    pub fn from_inspection(
        requested_id: &str,
        id: Option<String>,
        name: Option<&str>,
        status: Option<&str>,
        pid: Option<i64>,
        networks: Vec<ContainerNetwork>,
        image: Option<String>,
        created: Option<&str>,
        runtime: ContainerRuntime,
    ) -> (c: Container)
        ensures
            c.id@ == (match id {
                Some(i) => i@,
                None => requested_id@,
            }),
            c.short_id@ == short_id_spec(c.id@),
            c.name@ == (match name {
                Some(n) => strip_slashes(n@),
                None => short_id_spec(c.id@),
            }),
            c.state == (match status {
                Some(s) => state_of_status(s@),
                None => ContainerState::Unknown,
            }),
            c.pid == (match pid {
                Some(p) => if p > 0 {
                    Some(p as u32)
                } else {
                    None
                },
                None => None,
            }),
            match c.pid {
                Some(p) => c.namespace_path matches Some(path) && path@ == "/proc/"@ + nat_digits(
                    p as nat,
                ) + "/ns/net"@,
                None => c.namespace_path is None,
            },
            c.networks == networks,
            c.image@ == (match image {
                Some(i) => i@,
                None => "unknown"@,
            }),
            c.created == created_spec(crate::text::opt_view(created)),
            c.runtime == runtime,
    {
        let full_id = match id {
            Some(i) => i,
            None => owned(requested_id),
        };
        let short = short_id(full_id.as_str());
        let name = match name {
            Some(n) => trim_leading_slashes(n),
            None => owned(short.as_str()),
        };
        let state = match status {
            Some(s) => ContainerState::from_status(s),
            None => ContainerState::Unknown,
        };
        let pid = pid_of(pid);
        let namespace_path = match pid {
            Some(p) => Some(namespace_path_of(p)),
            None => None,
        };
        let image = match image {
            Some(i) => i,
            None => owned("unknown"),
        };
        Container {
            id: full_id,
            short_id: short,
            name,
            runtime,
            pid,
            namespace_path,
            networks,
            state,
            created: created_of(created),
            image,
        }
    }
}

} // verus!
