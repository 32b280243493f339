//! Message bus session settings: the session mode, the endpoints to listen
//! on and to connect to, and extra session properties, as the command line
//! and the presets give them.
//!
//! Opening the session with these settings is left to the caller.
use vstd::prelude::*;
use crate::config::cli::CliConfig;
use crate::lines::{trim, trim_spec};
use crate::text::{chars_of, find_char, find_first, owned, push_arg, str_eq, string_from_chars, subvec};
use crate::unicode::{lowercase, to_lowercase};

verus! {

/// How the session joins the bus.
#[derive(Debug, Clone, Copy, PartialEq, Eq, Structural)]
pub enum ZenohMode {
    /// Talks to peers directly and can route.
    Peer,
    /// Connects to routers.
    Client,
}

/// What the session does with an endpoint.
#[derive(Debug, Clone, Copy, PartialEq, Eq, Structural)]
pub enum EndpointRole {
    Listen,
    Connect,
}

/// Session settings. A property set twice takes its last value.
#[derive(Debug, Clone)]
pub struct ZenohSettings {
    pub mode: ZenohMode,
    /// The endpoints in the order they were added.
    pub endpoints: Vec<(EndpointRole, String)>,
    /// The properties in the order they were set.
    pub properties: Vec<(String, String)>,
}

/// The endpoint the backend listens on locally in peer mode.
pub const LOCAL_ENDPOINT: &'static str = "tcp/127.0.0.1:7447";

/// The endpoints as plain values.
pub open spec fn endpoints_view(s: ZenohSettings) -> Seq<(EndpointRole, Seq<char>)> {
    s.endpoints@.map_values(|e: (EndpointRole, String)| (e.0, e.1@))
}

/// The properties as plain values, in the order they were set.
pub open spec fn properties_view(s: ZenohSettings) -> Seq<(Seq<char>, Seq<char>)> {
    s.properties@.map_values(|e: (String, String)| (e.0@, e.1@))
}

/// The value of a property: the last one set under the key.
pub open spec fn property_value(props: Seq<(Seq<char>, Seq<char>)>, key: Seq<char>) -> Option<
    Seq<char>,
>
    decreases props.len(),
{
    if props.len() == 0 {
        None
    } else if props.last().0 == key {
        Some(props.last().1)
    } else {
        property_value(props.drop_last(), key)
    }
}

/// The pieces of `s` between the separators `c`, as `str::split` gives
/// them: empty pieces included, and one piece when there is no separator.
pub open spec fn split_on(s: Seq<char>, c: char) -> Seq<Seq<char>>
    decreases s.len(),
{
    let i = find_char(s, c);
    if i >= s.len() {
        seq![s]
    } else {
        seq![s.subrange(0, i as int)] + split_on(s.subrange((i + 1) as int, s.len() as int), c)
    }
}

/// The endpoints of a comma-separated list, each trimmed, with one role.
pub open spec fn endpoint_list(list: Option<Seq<char>>, role: EndpointRole) -> Seq<
    (EndpointRole, Seq<char>),
> {
    match list {
        Some(l) => split_on(l, ',').map_values(|p: Seq<char>| (role, trim_spec(p))),
        None => Seq::empty(),
    }
}

/// The mode a name selects, compared in lowercase; an unknown name
/// selects peer mode.
pub open spec fn mode_of_name(name: Seq<char>) -> ZenohMode {
    if lowercase(name) == "client"@ {
        ZenohMode::Client
    } else {
        ZenohMode::Peer
    }
}

/// The endpoints the command line gives: in peer mode first the local
/// listen endpoint, then the connect endpoints, then the listen endpoints.
pub open spec fn cli_endpoints(cli: CliConfig) -> Seq<(EndpointRole, Seq<char>)> {
    let local = if mode_of_name(cli.zenoh_mode@) == ZenohMode::Peer {
        seq![(EndpointRole::Listen, LOCAL_ENDPOINT@)]
    } else {
        Seq::empty()
    };
    local + endpoint_list(crate::text::opt_text(cli.zenoh_connect), EndpointRole::Connect)
        + endpoint_list(crate::text::opt_text(cli.zenoh_listen), EndpointRole::Listen)
}

/// The properties the command line gives: multicast scouting turned off
/// when asked.
pub open spec fn cli_properties(cli: CliConfig) -> Seq<(Seq<char>, Seq<char>)> {
    if cli.no_multicast {
        seq![("scouting/multicast/enabled"@, "false"@)]
    } else {
        Seq::empty()
    }
}

/// The pieces of a text between commas (see `split_on`).
fn split_commas(s: &str) -> (r: Vec<String>)
    ensures
        r.deep_view() == split_on(s@, ','),
{
    let v = chars_of(s);
    let mut rest = v;
    let mut r: Vec<String> = Vec::new();
    loop
        invariant
            split_on(s@, ',') == r.deep_view() + split_on(rest@, ','),
        decreases rest@.len(),
    {
        let i = find_first(&rest, ',');
        if i >= rest.len() {
            push_arg(&mut r, string_from_chars(&rest));
            proof {
                assert(split_on(rest@, ',') == seq![rest@]);
            }
            assert(r.deep_view() =~= split_on(s@, ','));
            return r;
        }
        let ghost before = r.deep_view();
        let ghost old_rest = rest@;
        let piece = subvec(&rest, 0, i);
        let tail = subvec(&rest, i + 1, rest.len());
        push_arg(&mut r, string_from_chars(&piece));
        proof {
            assert(split_on(old_rest, ',') == seq![old_rest.subrange(0, i as int)] + split_on(
                old_rest.subrange((i + 1) as int, old_rest.len() as int),
                ',',
            ));
            assert(r.deep_view() + split_on(tail@, ',') =~= before + split_on(old_rest, ','));
        }
        rest = tail;
    }
}

impl ZenohSettings {
    /// Adds an endpoint to listen on.
    pub fn add_listen_endpoint(&mut self, endpoint: &str)
        ensures
            final(self).mode == old(self).mode,
            endpoints_view(*final(self)) == endpoints_view(*old(self)).push(
                (EndpointRole::Listen, endpoint@),
            ),
            properties_view(*final(self)) == properties_view(*old(self)),
    {
        let ghost before = endpoints_view(*self);
        self.endpoints.push((EndpointRole::Listen, owned(endpoint)));
        assert(endpoints_view(*self) =~= before.push((EndpointRole::Listen, endpoint@)));
    }

    /// Adds an endpoint to connect to.
    pub fn add_connect_endpoint(&mut self, endpoint: &str)
        ensures
            final(self).mode == old(self).mode,
            endpoints_view(*final(self)) == endpoints_view(*old(self)).push(
                (EndpointRole::Connect, endpoint@),
            ),
            properties_view(*final(self)) == properties_view(*old(self)),
    {
        let ghost before = endpoints_view(*self);
        self.endpoints.push((EndpointRole::Connect, owned(endpoint)));
        assert(endpoints_view(*self) =~= before.push((EndpointRole::Connect, endpoint@)));
    }

    /// Sets a property.
    pub fn set_property(&mut self, key: &str, value: &str)
        ensures
            final(self).mode == old(self).mode,
            endpoints_view(*final(self)) == endpoints_view(*old(self)),
            properties_view(*final(self)) == properties_view(*old(self)).push((key@, value@)),
    {
        let ghost before = properties_view(*self);
        self.properties.push((owned(key), owned(value)));
        assert(properties_view(*self) =~= before.push((key@, value@)));
    }

    /// The value of a property (see `property_value`).
    pub fn property(&self, key: &str) -> (r: Option<&str>)
        ensures
            crate::text::opt_view(r) == property_value(properties_view(*self), key@),
    {
        let mut i: usize = self.properties.len();
        assert(properties_view(*self).subrange(0, i as int) =~= properties_view(*self));
        while i > 0
            invariant
                i <= self.properties@.len(),
                property_value(properties_view(*self), key@) == property_value(
                    properties_view(*self).subrange(0, i as int),
                    key@,
                ),
            decreases i,
        {
            let ghost pre = properties_view(*self).subrange(0, i as int);
            proof {
                assert(pre.drop_last() =~= properties_view(*self).subrange(0, i - 1));
                assert(pre.last() == (self.properties@[i - 1].0@, self.properties@[i - 1].1@));
            }
            if str_eq(self.properties[i - 1].0.as_str(), key) {
                return Some(self.properties[i - 1].1.as_str());
            }
            i = i - 1;
        }
        None
    }
}

/// Builds session settings from the command line and presets.
pub struct ZenohConfigManager;

impl ZenohConfigManager {
    /// The settings the command line gives: the mode its name selects (see
    /// `mode_of_name`), the endpoints of `cli_endpoints` and the properties
    /// of `cli_properties`.
    pub fn from_cli(cli_config: &CliConfig) -> (s: ZenohSettings)
        ensures
            s.mode == mode_of_name(cli_config.zenoh_mode@),
            endpoints_view(s) == cli_endpoints(*cli_config),
            properties_view(s) == cli_properties(*cli_config),
    {
        let lower = to_lowercase(cli_config.zenoh_mode.as_str());
        let mode = if str_eq(lower.as_str(), "client") {
            ZenohMode::Client
        } else {
            ZenohMode::Peer
        };
        let mut s = ZenohSettings { mode, endpoints: Vec::new(), properties: Vec::new() };
        assert(endpoints_view(s) =~= Seq::<(EndpointRole, Seq<char>)>::empty());
        assert(properties_view(s) =~= Seq::<(Seq<char>, Seq<char>)>::empty());
        if mode == ZenohMode::Peer {
            s.add_listen_endpoint(LOCAL_ENDPOINT);
        }
        let ghost local = endpoints_view(s);
        Self::add_list(&mut s, &cli_config.zenoh_connect, EndpointRole::Connect);
        let ghost with_connect = endpoints_view(s);
        Self::add_list(&mut s, &cli_config.zenoh_listen, EndpointRole::Listen);
        if cli_config.no_multicast {
            s.set_property("scouting/multicast/enabled", "false");
        }
        proof {
            let c = endpoint_list(crate::text::opt_text(cli_config.zenoh_connect), EndpointRole::Connect);
            let l = endpoint_list(crate::text::opt_text(cli_config.zenoh_listen), EndpointRole::Listen);
            assert(with_connect == local + c);
            assert(endpoints_view(s) == local + c + l);
            assert(properties_view(s) =~= cli_properties(*cli_config));
        }
        s
    }

    /// Adds the trimmed pieces of a comma-separated list with one role.
    fn add_list(s: &mut ZenohSettings, list: &Option<String>, role: EndpointRole)
        ensures
            final(s).mode == old(s).mode,
            endpoints_view(*final(s)) == endpoints_view(*old(s)) + endpoint_list(
                crate::text::opt_text(*list),
                role,
            ),
            properties_view(*final(s)) == properties_view(*old(s)),
    {
        match list {
            None => {
                assert(endpoints_view(*s) =~= endpoints_view(*s) + Seq::<
                    (EndpointRole, Seq<char>),
                >::empty());
            },
            Some(l) => {
                let pieces = split_commas(l.as_str());
                let ghost start = endpoints_view(*s);
                let ghost all = split_on(l@, ',').map_values(|p: Seq<char>| (role, trim_spec(p)));
                let mut i: usize = 0;
                while i < pieces.len()
                    invariant
                        i <= pieces@.len(),
                        pieces.deep_view() == split_on(l@, ','),
                        all == split_on(l@, ',').map_values(|p: Seq<char>| (role, trim_spec(p))),
                        s.mode == old(s).mode,
                        properties_view(*s) == properties_view(*old(s)),
                        endpoints_view(*s) == start + all.subrange(0, i as int),
                    decreases pieces.len() - i,
                {
                    let e = trim(pieces[i].as_str());
                    let ghost before = endpoints_view(*s);
                    match role {
                        EndpointRole::Listen => s.add_listen_endpoint(e.as_str()),
                        EndpointRole::Connect => s.add_connect_endpoint(e.as_str()),
                    }
                    proof {
                        assert(pieces.deep_view()[i as int] == pieces@[i as int]@);
                        assert(all[i as int] == (role, e@));
                        assert(all.subrange(0, i + 1) =~= all.subrange(0, i as int).push(all[i as int]));
                    }
                    i = i + 1;
                }
                assert(all.subrange(0, pieces@.len() as int) =~= all);
            },
        }
    }

    /// Peer mode with no endpoints or properties.
    pub fn default_peer() -> (s: ZenohSettings)
        ensures
            s.mode == ZenohMode::Peer,
            endpoints_view(s).len() == 0,
            properties_view(s).len() == 0,
    {
        ZenohSettings { mode: ZenohMode::Peer, endpoints: Vec::new(), properties: Vec::new() }
    }

    /// Client mode connecting to the local router endpoint.
    pub fn default_client() -> (s: ZenohSettings)
        ensures
            s.mode == ZenohMode::Client,
            endpoints_view(s) == seq![(EndpointRole::Connect, LOCAL_ENDPOINT@)],
            properties_view(s).len() == 0,
    {
        let mut s = ZenohSettings {
            mode: ZenohMode::Client,
            endpoints: Vec::new(),
            properties: Vec::new(),
        };
        assert(endpoints_view(s) =~= Seq::<(EndpointRole, Seq<char>)>::empty());
        assert(properties_view(s) =~= Seq::<(Seq<char>, Seq<char>)>::empty());
        s.add_connect_endpoint(LOCAL_ENDPOINT);
        s
    }

    /// The settings with multicast and gossip scouting turned on.
    pub fn with_multicast_discovery(config: ZenohSettings) -> (s: ZenohSettings)
        ensures
            s.mode == config.mode,
            endpoints_view(s) == endpoints_view(config),
            properties_view(s) == properties_view(config) + seq![
                ("scouting/multicast/enabled"@, "true"@),
                ("scouting/gossip/enabled"@, "true"@),
            ],
    {
        let mut s = config;
        s.set_property("scouting/multicast/enabled", "true");
        s.set_property("scouting/gossip/enabled", "true");
        assert(properties_view(s) =~= properties_view(config) + seq![
            ("scouting/multicast/enabled"@, "true"@),
            ("scouting/gossip/enabled"@, "true"@),
        ]);
        s
    }

    /// Peer mode listening locally, with multicast and gossip scouting on
    /// and quality of service off.
    pub fn for_local_development() -> (s: ZenohSettings)
        ensures
            s.mode == ZenohMode::Peer,
            endpoints_view(s) == seq![(EndpointRole::Listen, LOCAL_ENDPOINT@)],
            properties_view(s) == seq![
                ("scouting/multicast/enabled"@, "true"@),
                ("scouting/gossip/enabled"@, "true"@),
                ("transport/unicast/qos"@, "false"@),
                ("transport/multicast/qos"@, "false"@),
            ],
    {
        let mut s = Self::default_peer();
        s.add_listen_endpoint(LOCAL_ENDPOINT);
        let mut s = Self::with_multicast_discovery(s);
        s.set_property("transport/unicast/qos", "false");
        s.set_property("transport/multicast/qos", "false");
        assert(endpoints_view(s) =~= seq![(EndpointRole::Listen, LOCAL_ENDPOINT@)]);
        assert(properties_view(s) =~= seq![
            ("scouting/multicast/enabled"@, "true"@),
            ("scouting/gossip/enabled"@, "true"@),
            ("transport/unicast/qos"@, "false"@),
            ("transport/multicast/qos"@, "false"@),
        ]);
        s
    }

    /// Peer mode with quality of service and compression on.
    pub fn for_production() -> (s: ZenohSettings)
        ensures
            s.mode == ZenohMode::Peer,
            endpoints_view(s).len() == 0,
            properties_view(s) == seq![
                ("transport/unicast/qos"@, "true"@),
                ("transport/multicast/qos"@, "true"@),
                ("transport/compression"@, "true"@),
            ],
    {
        let mut s = Self::default_peer();
        s.set_property("transport/unicast/qos", "true");
        s.set_property("transport/multicast/qos", "true");
        s.set_property("transport/compression", "true");
        assert(properties_view(s) =~= seq![
            ("transport/unicast/qos"@, "true"@),
            ("transport/multicast/qos"@, "true"@),
            ("transport/compression"@, "true"@),
        ]);
        s
    }
}

} // verus!
