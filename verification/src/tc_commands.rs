//! Traffic control decisions: how a namespace is reached, which kernel
//! operation installs a netem configuration, where a plug qdisc is grafted,
//! and the `tc` argument list for a netem request.
//!
//! The kernel calls themselves (netlink) are made by the program around this
//! library; every decision they depend on is made here.
use vstd::prelude::*;
use crate::decimal::{lemma_of, lemma_trunc_le_units, Decimal};
use crate::tc_config::{
    is_pos_opt, plan_spec, rate_text, NetemPlan, TcCorruptConfig, TcDelayConfig, TcDuplicateConfig, TcLossConfig,
    TcNetemConfig, TcRateLimitConfig, TcReorderConfig,
};
use crate::text::{
    contains_seq, extend_args, has_prefix, nat_digits, owned, push_arg, push_char, push_lit,
    opt_view, push_str, push_u64, str_contains, str_eq, str_starts_with,
};

verus! {

/// Why a traffic control request was refused.
#[derive(Clone, Debug)]
pub enum TcError {
    /// A container namespace was named without the path that reaches it.
    MissingNamespacePath { namespace: String },
    /// A container namespace path no longer refers to a live namespace.
    StaleNamespacePath { namespace: String },
    /// The change needs the netem qdisc recreated, which would drop the
    /// packets held by a plug grafted under it.
    Plugged { namespace: String, interface: String },
    /// The root qdisc has no handle major to address a child under.
    NoHandleMajor,
    /// The root qdisc is of a kind this tool does not replace.
    ForeignRootQdisc { namespace: String, interface: String, kind: String },
    /// A plug is grafted somewhere other than under the root netem.
    PlugElsewhere { namespace: String, interface: String, parent_major: u16, parent_minor: u16, root_major: u16 },
}

/// How a network namespace is reached.
#[derive(Clone, Debug)]
pub enum NamespaceTarget {
    /// The host namespace.
    Default,
    /// A bind-mounted namespace file (containers).
    Path(String),
    /// A traditional named namespace.
    Named(String),
}

/// Stateless manager of traffic control operations.
#[derive(Clone, Debug)]
pub struct TcCommandManager {}

/// The namespace name marks a container namespace.
pub open spec fn is_container_ns(namespace: Seq<char>) -> bool {
    has_prefix(namespace, "container:"@)
}

/// `text%`.
pub open spec fn pct_arg(d: Decimal) -> Seq<char> {
    d.text().push('%')
}

/// `textms`.
pub open spec fn ms_arg(d: Decimal) -> Seq<char> {
    d.text() + "ms"@
}

/// The one-argument list `[text%]` for a positive value, else nothing.
pub open spec fn opt_pct_args(o: Option<Decimal>) -> Seq<Seq<char>> {
    if is_pos_opt(o) {
        seq![pct_arg(o->0)]
    } else {
        Seq::empty()
    }
}

/// The command and its fixed arguments up to `netem`.
pub open spec fn tc_base_args(ns: Seq<char>, iface: Seq<char>, action: Seq<char>) -> Seq<Seq<char>> {
    if ns == "default"@ {
        seq!["tc"@, "qdisc"@, action, "dev"@, iface, "root"@, "netem"@]
    } else {
        seq![
            "ip"@,
            "netns"@,
            "exec"@,
            ns,
            "tc"@,
            "qdisc"@,
            action,
            "dev"@,
            iface,
            "root"@,
            "netem"@,
        ]
    }
}

/// `loss random X%` and the correlation.
pub open spec fn loss_args(loss: Decimal, corr: Option<Decimal>) -> Seq<Seq<char>> {
    if loss.is_pos() {
        seq!["loss"@, "random"@, pct_arg(loss)] + opt_pct_args(corr)
    } else {
        Seq::empty()
    }
}

/// `delay Xms`, the jitter, and the delay correlation after a jitter.
pub open spec fn delay_args(
    delay: Option<Decimal>,
    jitter: Option<Decimal>,
    corr: Option<Decimal>,
) -> Seq<Seq<char>> {
    if is_pos_opt(delay) {
        seq!["delay"@, ms_arg(delay->0)] + if is_pos_opt(jitter) {
            seq![ms_arg(jitter->0)] + opt_pct_args(corr)
        } else {
            Seq::empty()
        }
    } else {
        Seq::empty()
    }
}

/// `<keyword> X%` and the correlation.
pub open spec fn pct_args(keyword: Seq<char>, pct: Option<Decimal>, corr: Option<Decimal>) -> Seq<
    Seq<char>,
> {
    if is_pos_opt(pct) {
        seq![keyword, pct_arg(pct->0)] + opt_pct_args(corr)
    } else {
        Seq::empty()
    }
}

/// `reorder X%`, preceded by `delay 1ms` when no delay was given (netem
/// reorders only delayed packets), then the correlation and a positive gap.
pub open spec fn reorder_args(
    has_delay: bool,
    reorder: Option<Decimal>,
    corr: Option<Decimal>,
    gap: Option<u32>,
) -> Seq<Seq<char>> {
    if is_pos_opt(reorder) {
        (if has_delay {
            Seq::empty()
        } else {
            seq!["delay"@, "1ms"@]
        }) + pct_args("reorder"@, reorder, corr) + if gap matches Some(g) && g > 0 {
            seq!["gap"@, nat_digits(gap->0 as nat)]
        } else {
            Seq::empty()
        }
    } else {
        Seq::empty()
    }
}

/// `rate R` for a positive rate.
pub open spec fn rate_args(rate: Option<u32>) -> Seq<Seq<char>> {
    if rate matches Some(r) && r > 0 {
        seq!["rate"@, rate_text(rate->0)]
    } else {
        Seq::empty()
    }
}

/// The full argument list of a netem `tc` command.
pub open spec fn tc_command_spec(
    ns: Seq<char>,
    iface: Seq<char>,
    action: Seq<char>,
    loss: Decimal,
    correlation: Option<Decimal>,
    delay_ms: Option<Decimal>,
    delay_jitter_ms: Option<Decimal>,
    delay_correlation: Option<Decimal>,
    duplicate_percent: Option<Decimal>,
    duplicate_correlation: Option<Decimal>,
    reorder_percent: Option<Decimal>,
    reorder_correlation: Option<Decimal>,
    reorder_gap: Option<u32>,
    corrupt_percent: Option<Decimal>,
    corrupt_correlation: Option<Decimal>,
    rate_limit_kbps: Option<u32>,
) -> Seq<Seq<char>> {
    tc_base_args(ns, iface, action) + loss_args(loss, correlation) + delay_args(
        delay_ms,
        delay_jitter_ms,
        delay_correlation,
    ) + pct_args("duplicate"@, duplicate_percent, duplicate_correlation) + reorder_args(
        is_pos_opt(delay_ms),
        reorder_percent,
        reorder_correlation,
        reorder_gap,
    ) + pct_args("corrupt"@, corrupt_percent, corrupt_correlation) + rate_args(rate_limit_kbps)
}

pub(crate) fn is_pos(o: &Option<Decimal>) -> (r: bool)
    ensures
        r == is_pos_opt(*o),
{
    match o {
        Some(d) => d.is_positive(),
        None => false,
    }
}

pub(crate) fn pct_string(d: &Decimal) -> (s: String)
    ensures
        s@ == pct_arg(*d),
{
    let mut s = d.to_string();
    push_char(&mut s, '%');
    s
}

pub(crate) fn ms_string(d: &Decimal) -> (s: String)
    ensures
        s@ == ms_arg(*d),
{
    let mut s = d.to_string();
    push_str(&mut s, "ms");
    s
}

pub(crate) fn push_opt_pct(args: &mut Vec<String>, o: &Option<Decimal>)
    ensures
        final(args).deep_view() == old(args).deep_view() + opt_pct_args(*o),
{
    if is_pos(o) {
        push_arg(args, pct_string(&o.unwrap()));
    } else {
        assert(args.deep_view() =~= args.deep_view() + Seq::<Seq<char>>::empty());
    }
}

fn base_args(namespace: &str, interface: &str, action: &str) -> (r: Vec<String>)
    ensures
        r.deep_view() == tc_base_args(namespace@, interface@, action@),
{
    let mut args: Vec<String> = Vec::new();
    if !str_eq(namespace, "default") {
        push_lit(&mut args, "ip");
        push_lit(&mut args, "netns");
        push_lit(&mut args, "exec");
        push_lit(&mut args, namespace);
    }
    push_lit(&mut args, "tc");
    push_lit(&mut args, "qdisc");
    push_lit(&mut args, action);
    push_lit(&mut args, "dev");
    push_lit(&mut args, interface);
    push_lit(&mut args, "root");
    push_lit(&mut args, "netem");
    assert(args.deep_view() =~= tc_base_args(namespace@, interface@, action@));
    args
}

fn loss_part(loss: &Decimal, corr: &Option<Decimal>) -> (r: Vec<String>)
    ensures
        r.deep_view() == loss_args(*loss, *corr),
{
    let mut args: Vec<String> = Vec::new();
    if loss.is_positive() {
        push_lit(&mut args, "loss");
        push_lit(&mut args, "random");
        push_arg(&mut args, pct_string(loss));
        push_opt_pct(&mut args, corr);
    }
    assert(args.deep_view() =~= loss_args(*loss, *corr));
    args
}

pub(crate) fn delay_part(delay: &Option<Decimal>, jitter: &Option<Decimal>, corr: &Option<Decimal>) -> (r: Vec<
    String,
>)
    ensures
        r.deep_view() == delay_args(*delay, *jitter, *corr),
{
    let mut args: Vec<String> = Vec::new();
    if is_pos(delay) {
        push_lit(&mut args, "delay");
        push_arg(&mut args, ms_string(&delay.unwrap()));
        if is_pos(jitter) {
            push_arg(&mut args, ms_string(&jitter.unwrap()));
            push_opt_pct(&mut args, corr);
        }
    }
    assert(args.deep_view() =~= delay_args(*delay, *jitter, *corr));
    args
}

pub(crate) fn pct_part(keyword: &str, pct: &Option<Decimal>, corr: &Option<Decimal>) -> (r: Vec<String>)
    ensures
        r.deep_view() == pct_args(keyword@, *pct, *corr),
{
    let mut args: Vec<String> = Vec::new();
    if is_pos(pct) {
        push_lit(&mut args, keyword);
        push_arg(&mut args, pct_string(&pct.unwrap()));
        push_opt_pct(&mut args, corr);
    }
    assert(args.deep_view() =~= pct_args(keyword@, *pct, *corr));
    args
}

fn reorder_part(
    has_delay: bool,
    reorder: &Option<Decimal>,
    corr: &Option<Decimal>,
    gap: &Option<u32>,
) -> (r: Vec<String>)
    ensures
        r.deep_view() == reorder_args(has_delay, *reorder, *corr, *gap),
{
    let mut args: Vec<String> = Vec::new();
    if is_pos(reorder) {
        if !has_delay {
            push_lit(&mut args, "delay");
            push_lit(&mut args, "1ms");
        }
        let ghost pre = args.deep_view();
        extend_args(&mut args, pct_part("reorder", reorder, corr));
        let ghost mid = args.deep_view();
        match gap {
            Some(g) => {
                if *g > 0 {
                    push_lit(&mut args, "gap");
                    push_arg(&mut args, crate::text::u64_to_string(*g as u64));
                }
            },
            None => {},
        }
        proof {
            let head = if has_delay {
                Seq::<Seq<char>>::empty()
            } else {
                seq!["delay"@, "1ms"@]
            };
            assert(pre =~= head);
        }
    }
    assert(args.deep_view() =~= reorder_args(has_delay, *reorder, *corr, *gap));
    args
}

pub(crate) fn rate_part(rate: &Option<u32>) -> (r: Vec<String>)
    ensures
        r.deep_view() == rate_args(*rate),
{
    let mut args: Vec<String> = Vec::new();
    match rate {
        Some(r) => {
            if *r > 0 {
                push_lit(&mut args, "rate");
                let mut t = String::new();
                if *r >= 1000 {
                    push_u64(&mut t, (*r / 1000) as u64);
                    push_str(&mut t, "mbit");
                } else {
                    push_u64(&mut t, *r as u64);
                    push_str(&mut t, "kbit");
                }
                push_arg(&mut args, t);
            }
        },
        None => {},
    }
    assert(args.deep_view() =~= rate_args(*rate));
    args
}

impl TcCommandManager {
    /// A new manager; it holds no state.
    pub fn new() -> (m: TcCommandManager) {
        TcCommandManager {  }
    }

    /// Whether `namespace` names a container namespace (`container:` prefix).
    pub fn is_container_namespace(namespace: &str) -> (r: bool)
        ensures
            r == is_container_ns(namespace@),
    {
        str_starts_with(namespace, "container:")
    }

    /// The argument list of the `tc` command that applies netem parameters.
    /// Zero and negative values leave their section out; reordering without
    /// a delay adds `delay 1ms`, since netem reorders only delayed packets.
    pub fn generate_tc_command(
        &self,
        namespace: &str,
        interface: &str,
        action: &str,
        loss: Decimal,
        correlation: Option<Decimal>,
        delay_ms: Option<Decimal>,
        delay_jitter_ms: Option<Decimal>,
        delay_correlation: Option<Decimal>,
        duplicate_percent: Option<Decimal>,
        duplicate_correlation: Option<Decimal>,
        reorder_percent: Option<Decimal>,
        reorder_correlation: Option<Decimal>,
        reorder_gap: Option<u32>,
        corrupt_percent: Option<Decimal>,
        corrupt_correlation: Option<Decimal>,
        rate_limit_kbps: Option<u32>,
    ) -> (args: Vec<String>)
        ensures
            args.deep_view() == tc_command_spec(
                namespace@,
                interface@,
                action@,
                loss,
                correlation,
                delay_ms,
                delay_jitter_ms,
                delay_correlation,
                duplicate_percent,
                duplicate_correlation,
                reorder_percent,
                reorder_correlation,
                reorder_gap,
                corrupt_percent,
                corrupt_correlation,
                rate_limit_kbps,
            ),
    {
        let mut args = base_args(namespace, interface, action);
        extend_args(&mut args, loss_part(&loss, &correlation));
        extend_args(&mut args, delay_part(&delay_ms, &delay_jitter_ms, &delay_correlation));
        extend_args(&mut args, pct_part("duplicate", &duplicate_percent, &duplicate_correlation));
        extend_args(
            &mut args,
            reorder_part(is_pos(&delay_ms), &reorder_percent, &reorder_correlation, &reorder_gap),
        );
        extend_args(&mut args, pct_part("corrupt", &corrupt_percent, &corrupt_correlation));
        extend_args(&mut args, rate_part(&rate_limit_kbps));
        args
    }

    /// How to reach `namespace`: `default` is the host, a `container:`
    /// namespace needs its path (and the path must still be a live
    /// namespace, as `path_is_live` reports), any other name is a named
    /// namespace.
    pub fn connection_target(
        namespace: &str,
        namespace_path: Option<&str>,
        path_is_live: bool,
    ) -> (r: Result<NamespaceTarget, TcError>)
        ensures
            match r {
                Ok(NamespaceTarget::Default) => namespace@ == "default"@,
                Ok(NamespaceTarget::Path(p)) => namespace@ != "default"@ && is_container_ns(
                    namespace@,
                ) && namespace_path is Some && p@ == namespace_path->0@ && path_is_live,
                Ok(NamespaceTarget::Named(n)) => namespace@ != "default"@ && !is_container_ns(
                    namespace@,
                ) && n@ == namespace@,
                Err(TcError::StaleNamespacePath { namespace: n }) => is_container_ns(namespace@)
                    && namespace_path is Some && !path_is_live && n@ == namespace@,
                Err(TcError::MissingNamespacePath { namespace: n }) => namespace@ != "default"@
                    && is_container_ns(namespace@) && namespace_path is None && n@
                    == namespace@,
                Err(_) => false,
            },
            r is Err <==> is_container_ns(namespace@) && (namespace_path is None || !path_is_live),
    {
        let container = Self::is_container_namespace(namespace);
        if container && namespace_path.is_some() && !path_is_live {
            return Err(TcError::StaleNamespacePath { namespace: owned(namespace) });
        }
        if str_eq(namespace, "default") {
            proof {
                reveal_strlit("default");
                reveal_strlit("container:");
                assert(namespace@[0] == 'd');
                assert(!is_container_ns(namespace@)) by {
                    if is_container_ns(namespace@) {
                        assert(namespace@.subrange(0, 10)[0] == 'c');
                    }
                }
            }
            Ok(NamespaceTarget::Default)
        } else if container {
            match namespace_path {
                Some(p) => Ok(NamespaceTarget::Path(owned(p))),
                None => Err(TcError::MissingNamespacePath { namespace: owned(namespace) }),
            }
        } else {
            Ok(NamespaceTarget::Named(owned(namespace)))
        }
    }
}


/// A qdisc handle as its major and minor numbers.
#[derive(Clone, Copy, Debug, PartialEq, Eq, Structural)]
pub struct QdiscHandle {
    pub major: u16,
    pub minor: u16,
}

impl QdiscHandle {
    /// The root handle, `ffff:ffff`.
    pub fn root() -> (h: QdiscHandle)
        ensures
            h.major == 0xffff && h.minor == 0xffff,
    {
        QdiscHandle { major: 0xffff, minor: 0xffff }
    }
}

/// How a netem configuration is installed, given what the interface has.
#[derive(Clone, Copy, Debug, PartialEq, Eq, Structural)]
pub enum ApplyAction {
    /// Replace the netem in place.
    Replace,
    /// Delete the root netem and add it again.
    Recreate,
    /// Add a netem where there is none.
    Add,
    /// Delete another root qdisc, then add the netem.
    DeleteThenAdd,
}

/// What installing a netem configuration does: an existing netem is
/// replaced, or recreated when the change needs it, which is refused while
/// a plug is grafted under it; with no netem, an interface with no qdisc or
/// a `noqueue` one gets the netem added, any other root qdisc is deleted
/// first.
pub open spec fn apply_action_spec(
    existing_netem: Option<bool>,
    plugged: bool,
    existing_qdisc: Seq<char>,
) -> Option<ApplyAction> {
    match existing_netem {
        Some(true) => if plugged {
            None
        } else {
            Some(ApplyAction::Recreate)
        },
        Some(false) => Some(ApplyAction::Replace),
        None => if existing_qdisc.len() == 0 || contains_seq(existing_qdisc, "noqueue"@) {
            Some(ApplyAction::Add)
        } else {
            Some(ApplyAction::DeleteThenAdd)
        },
    }
}

/// The plug qdisc kinds a plug may stand in for at the root: none, or a
/// kernel default.
pub open spec fn replaceable_root(kind: Option<Seq<char>>) -> bool {
    match kind {
        None => true,
        Some(k) => k == "noqueue"@ || k == "pfifo_fast"@ || k == "mq"@ || k == "pfifo"@ || k
            == "bfifo"@,
    }
}

/// The buffer ceiling of a plug: the one asked for, else the kernel's own
/// default, the device's queue length times its MTU (1000 and 1500 when
/// unknown), saturating.
pub open spec fn plug_limit_spec(limit: Option<u32>, txqlen: Option<u32>, mtu: Option<u32>) -> u32 {
    match limit {
        Some(l) => l,
        None => {
            let q = match txqlen {
                Some(t) => t,
                None => 1000u32,
            };
            let m = match mtu {
                Some(x) => x,
                None => 1500u32,
            };
            if q * m > u32::MAX {
                u32::MAX
            } else {
                (q * m) as u32
            }
        },
    }
}

/// What becomes of the plug slot under the root netem.
#[derive(Clone, Copy, Debug, PartialEq, Eq, Structural)]
pub enum PlugGraft {
    /// A plug is already grafted there: start a new buffering epoch and set
    /// its limit.
    NewEpoch,
    /// No plug yet: graft one.
    Graft,
}

/// What the backend knows of a plug qdisc.
#[derive(Clone, Copy, Debug, PartialEq, Eq, Structural)]
pub struct PlugSnapshot {
    /// The handle the plug is grafted under, netem's `<major>:1`.
    pub parent: QdiscHandle,
    /// Whether packets are being held.
    pub buffering: bool,
    /// Buffer ceiling in bytes.
    pub limit_bytes: u32,
    /// Whether the parent netem exists only to host the plug.
    pub netem_synthesized: bool,
    /// Bytes held.
    pub buffered_bytes: u32,
    /// Packets held.
    pub buffered_packets: u32,
}

/// The state of an interface captured before a change, to roll back to.
#[derive(Clone, Debug)]
pub struct CapturedTcState {
    pub namespace: String,
    pub interface: String,
    /// The root qdisc description; empty when there was none or it could
    /// not be read.
    pub qdisc_info: String,
    /// Whether the description names a netem qdisc.
    pub had_netem: bool,
    /// The netem configuration read back, when there was one.
    pub netem_config: Option<TcNetemConfig>,
}

/// Netem settings as read back from the kernel.
#[derive(Clone, Copy, Debug)]
pub struct NetemReadings {
    pub loss: Option<Decimal>,
    pub loss_correlation: Option<Decimal>,
    pub delay_ms: Option<u64>,
    pub jitter_ms: Option<u64>,
    pub delay_correlation: Option<Decimal>,
    pub duplicate: Option<Decimal>,
    pub duplicate_correlation: Option<Decimal>,
    pub reorder: Option<Decimal>,
    pub reorder_correlation: Option<Decimal>,
    pub gap: Option<u32>,
    pub corrupt: Option<Decimal>,
    pub corrupt_correlation: Option<Decimal>,
    pub rate_bps: Option<u64>,
}

/// The configuration read back from netem settings: each section enabled
/// when its value is positive, absent values reading as zero, a gap of 5
/// when none was read, and the rate (read in bytes per second) divided by
/// 1000 as the kbit/s rate.
pub open spec fn captured_config_spec(r: NetemReadings) -> TcNetemConfig {
    TcNetemConfig {
        loss: TcLossConfig {
            enabled: or_zero(r.loss).is_pos(),
            percentage: or_zero(r.loss),
            correlation: or_zero(r.loss_correlation),
        },
        delay: TcDelayConfig {
            enabled: r.delay_ms matches Some(d) && d > 0,
            base_ms: ms_or_zero(r.delay_ms),
            jitter_ms: ms_or_zero(r.jitter_ms),
            correlation: or_zero(r.delay_correlation),
        },
        duplicate: TcDuplicateConfig {
            enabled: or_zero(r.duplicate).is_pos(),
            percentage: or_zero(r.duplicate),
            correlation: or_zero(r.duplicate_correlation),
        },
        reorder: TcReorderConfig {
            enabled: or_zero(r.reorder).is_pos(),
            percentage: or_zero(r.reorder),
            correlation: or_zero(r.reorder_correlation),
            gap: match r.gap {
                Some(g) => g,
                None => 5u32,
            },
        },
        corrupt: TcCorruptConfig {
            enabled: or_zero(r.corrupt).is_pos(),
            percentage: or_zero(r.corrupt),
            correlation: or_zero(r.corrupt_correlation),
        },
        rate_limit: TcRateLimitConfig {
            enabled: r.rate_bps matches Some(b) && b > 0,
            rate_kbps: match r.rate_bps {
                Some(b) => (b / 1000) as u32,
                None => 0u32,
            },
        },
    }
}

/// What netem reports back for the settings a plan installed: each value as
/// installed, and a rate of `k` kbit/s as `125 * k` bytes per second.
pub open spec fn readings_of_plan(p: NetemPlan) -> NetemReadings {
    NetemReadings {
        loss: p.loss,
        loss_correlation: p.loss_correlation,
        delay_ms: p.delay_ms,
        jitter_ms: p.jitter_ms,
        delay_correlation: p.delay_correlation,
        duplicate: p.duplicate,
        duplicate_correlation: p.duplicate_correlation,
        reorder: p.reorder,
        reorder_correlation: p.reorder_correlation,
        gap: p.gap,
        corrupt: p.corrupt,
        corrupt_correlation: p.corrupt_correlation,
        rate_bps: match p.rate_kbit {
            Some(k) => Some((k * 125) as u64),
            None => None,
        },
    }
}

/// Capturing the netem a configuration installed and planning the captured
/// configuration again installs the same settings, for configurations with
/// no rate limit, whose delay and jitter are whole milliseconds of at least
/// one when installed, and whose reordering, when installed, has a gap.
pub proof fn law_capture_replans_the_same(c: TcNetemConfig)
    requires
        plan_spec(c).rate_kbit is None,
        plan_spec(c).delay_ms is Some ==> plan_spec(c).delay_ms->0 > 0,
        plan_spec(c).jitter_ms is Some ==> plan_spec(c).jitter_ms->0 > 0,
        plan_spec(c).reorder is Some ==> plan_spec(c).gap is Some,
    ensures
        plan_spec(captured_config_spec(readings_of_plan(plan_spec(c)))) == plan_spec(c),
{
    let p = plan_spec(c);
    let k = captured_config_spec(readings_of_plan(p));
    lemma_trunc_le_units(c.delay.base_ms);
    lemma_trunc_le_units(c.delay.jitter_ms);
    match p.delay_ms {
        Some(d) => {
            lemma_of(d as i64, 0);
            lemma_trunc_le_units(k.delay.base_ms);
        },
        None => {
            lemma_of(0, 0);
        },
    }
    match p.jitter_ms {
        Some(j) => {
            lemma_of(j as i64, 0);
            lemma_trunc_le_units(k.delay.jitter_ms);
        },
        None => {
            lemma_of(0, 0);
        },
    }
    lemma_of(0, 0);
    assert(plan_spec(k) == p);
}

/// The value read, or zero.
pub open spec fn or_zero(o: Option<Decimal>) -> Decimal {
    match o {
        Some(d) => d,
        None => Decimal::of(0, 0),
    }
}

/// A millisecond count read, as a decimal, or zero.
pub open spec fn ms_or_zero(o: Option<u64>) -> Decimal {
    match o {
        Some(n) => Decimal::of(n as i64, 0),
        None => Decimal::of(0, 0),
    }
}

impl TcCommandManager {
    /// How to install a netem configuration (see `apply_action_spec`):
    /// `existing_netem` tells whether a netem is installed and, if so,
    /// whether the change needs it recreated; `existing_qdisc` describes the
    /// root qdisc when there is no netem. A recreation under a plug is
    /// refused.
    pub fn choose_apply_action(
        namespace: &str,
        interface: &str,
        existing_netem: Option<bool>,
        plugged: bool,
        existing_qdisc: &str,
    ) -> (r: Result<ApplyAction, TcError>)
        ensures
            match apply_action_spec(existing_netem, plugged, existing_qdisc@) {
                Some(a) => r == Ok::<ApplyAction, TcError>(a),
                None => r matches Err(TcError::Plugged { namespace: n, interface: i }) && n@
                    == namespace@ && i@ == interface@,
            },
    {
        match existing_netem {
            Some(true) => {
                if plugged {
                    Err(TcError::Plugged { namespace: owned(namespace), interface: owned(interface) })
                } else {
                    Ok(ApplyAction::Recreate)
                }
            },
            Some(false) => Ok(ApplyAction::Replace),
            None => {
                if existing_qdisc.is_empty() || str_contains(existing_qdisc, "noqueue") {
                    Ok(ApplyAction::Add)
                } else {
                    Ok(ApplyAction::DeleteThenAdd)
                }
            },
        }
    }

    /// The handle a plug is grafted at under the root netem: `<major>:1`;
    /// a root with major 0 cannot address a child.
    pub fn plug_parent(root_handle: QdiscHandle) -> (r: Result<QdiscHandle, TcError>)
        ensures
            root_handle.major == 0 ==> r matches Err(TcError::NoHandleMajor),
            root_handle.major != 0 ==> r == Ok::<QdiscHandle, TcError>(
                QdiscHandle { major: root_handle.major, minor: 1 },
            ),
    {
        if root_handle.major == 0 {
            Err(TcError::NoHandleMajor)
        } else {
            Ok(QdiscHandle { major: root_handle.major, minor: 1 })
        }
    }

    /// The buffer ceiling of a plug (see `plug_limit_spec`).
    pub fn default_plug_limit(limit: Option<u32>, txqlen: Option<u32>, mtu: Option<u32>) -> (r: u32)
        ensures
            r == plug_limit_spec(limit, txqlen, mtu),
    {
        match limit {
            Some(l) => l,
            None => {
                let q = match txqlen {
                    Some(t) => t,
                    None => 1000,
                };
                let m = match mtu {
                    Some(x) => x,
                    None => 1500,
                };
                let q64: u64 = q as u64;
                let m64: u64 = m as u64;
                assert(q64 * m64 <= 0xffff_ffff * 0xffff_ffff) by (nonlinear_arith)
                    requires
                        q64 <= 0xffff_ffff,
                        m64 <= 0xffff_ffff,
                ;
                let wide: u64 = q64 * m64;
                if wide > 0xffff_ffff {
                    0xffff_ffff
                } else {
                    wide as u32
                }
            },
        }
    }

    /// Where the plug goes, from the root qdisc: under an existing netem
    /// (by its handle, the root handle when unknown), or under a netem to
    /// be synthesized at `1:` when the root is absent or a kernel default;
    /// any other root is refused. Gives the netem major and whether the
    /// netem is synthesized.
    pub fn plug_root_plan(
        namespace: &str,
        interface: &str,
        root_kind: Option<&str>,
        root_handle: Option<QdiscHandle>,
    ) -> (r: Result<(u16, bool), TcError>)
        ensures
            match opt_view(root_kind) {
                Some(k) => if k == "netem"@ {
                    let h = match root_handle {
                        Some(h) => h,
                        None => QdiscHandle { major: 0xffff, minor: 0xffff },
                    };
                    if h.major == 0 {
                        r matches Err(TcError::NoHandleMajor)
                    } else {
                        r == Ok::<(u16, bool), TcError>((h.major, false))
                    }
                } else if replaceable_root(Some(k)) {
                    r == Ok::<(u16, bool), TcError>((1u16, true))
                } else {
                    r matches Err(TcError::ForeignRootQdisc { namespace: n, interface: i, kind })
                        && n@ == namespace@ && i@ == interface@ && kind@ == k
                },
                None => r == Ok::<(u16, bool), TcError>((1u16, true)),
            },
    {
        match root_kind {
            Some(k) => {
                if str_eq(k, "netem") {
                    let h = match root_handle {
                        Some(h) => h,
                        None => QdiscHandle::root(),
                    };
                    match Self::plug_parent(h) {
                        Ok(p) => Ok((p.major, false)),
                        Err(e) => Err(e),
                    }
                } else if str_eq(k, "noqueue") || str_eq(k, "pfifo_fast") || str_eq(k, "mq")
                    || str_eq(k, "pfifo") || str_eq(k, "bfifo") {
                    Ok((1, true))
                } else {
                    Err(
                        TcError::ForeignRootQdisc {
                            namespace: owned(namespace),
                            interface: owned(interface),
                            kind: owned(k),
                        },
                    )
                }
            },
            None => Ok((1, true)),
        }
    }

    /// What to do with the plug slot under netem `major`: a plug already
    /// there gets a new epoch, an empty slot gets a plug, and a plug under
    /// any other parent is refused.
    pub fn plug_graft_action(
        namespace: &str,
        interface: &str,
        existing_parent: Option<QdiscHandle>,
        major: u16,
    ) -> (r: Result<PlugGraft, TcError>)
        ensures
            match existing_parent {
                Some(p) => if p == (QdiscHandle { major, minor: 1 }) {
                    r == Ok::<PlugGraft, TcError>(PlugGraft::NewEpoch)
                } else {
                    r matches Err(
                        TcError::PlugElsewhere {
                            namespace: n,
                            interface: i,
                            parent_major,
                            parent_minor,
                            root_major,
                        },
                    ) && n@ == namespace@ && i@ == interface@ && parent_major == p.major
                        && parent_minor == p.minor && root_major == major
                },
                None => r == Ok::<PlugGraft, TcError>(PlugGraft::Graft),
            },
    {
        match existing_parent {
            Some(p) => {
                if p.major == major && p.minor == 1 {
                    Ok(PlugGraft::NewEpoch)
                } else {
                    Err(
                        TcError::PlugElsewhere {
                            namespace: owned(namespace),
                            interface: owned(interface),
                            parent_major: p.major,
                            parent_minor: p.minor,
                            root_major: major,
                        },
                    )
                }
            },
            None => Ok(PlugGraft::Graft),
        }
    }

    /// The snapshot after a buffering epoch began: grafted under
    /// `<major>:1`, buffering, with what the plug holds (nothing when it
    /// could not be read).
    pub fn plug_snapshot(
        major: u16,
        limit_bytes: u32,
        netem_synthesized: bool,
        held: Option<(u32, u32)>,
    ) -> (s: PlugSnapshot)
        ensures
            s.parent == (QdiscHandle { major, minor: 1 }),
            s.buffering,
            s.limit_bytes == limit_bytes,
            s.netem_synthesized == netem_synthesized,
            s.buffered_bytes == (match held {
                Some(h) => h.0,
                None => 0,
            }),
            s.buffered_packets == (match held {
                Some(h) => h.1,
                None => 0,
            }),
    {
        let (buffered_bytes, buffered_packets) = match held {
            Some(h) => h,
            None => (0, 0),
        };
        PlugSnapshot {
            parent: QdiscHandle { major, minor: 1 },
            buffering: true,
            limit_bytes,
            netem_synthesized,
            buffered_bytes,
            buffered_packets,
        }
    }

    /// Whether a plug must be released and drained before the root qdisc is
    /// removed: when it holds bytes.
    pub fn must_drain_before_removal(plug_backlog: Option<u32>) -> (r: bool)
        ensures
            r == (plug_backlog matches Some(b) && b > 0),
    {
        match plug_backlog {
            Some(b) => b > 0,
            None => false,
        }
    }

    /// The message after a removal: whether a root qdisc was there.
    pub fn removal_message(removed: bool) -> (m: &'static str)
        ensures
            m@ == (if removed {
                "TC config removed successfully"@
            } else {
                "No TC config to remove"@
            }),
    {
        if removed {
            "TC config removed successfully"
        } else {
            "No TC config to remove"
        }
    }

    /// The message after a netem configuration was applied.
    pub fn applied_message(namespace: &str, interface: &str) -> (m: String)
        ensures
            m@ == "TC config applied successfully to "@ + namespace@ + ":"@ + interface@,
    {
        let mut m = owned("TC config applied successfully to ");
        push_str(&mut m, namespace);
        push_str(&mut m, ":");
        push_str(&mut m, interface);
        m
    }

    /// The configuration read back from a netem: each section enabled when
    /// its value is positive, absent values reading as zero, a gap of 5
    /// when none was read, and the rate in whole kbit/s.
    pub fn captured_netem_config(r: &NetemReadings) -> (c: TcNetemConfig)
        ensures
            c == captured_config_spec(*r),
    {
        let loss = zero_if_none(r.loss);
        let duplicate = zero_if_none(r.duplicate);
        let reorder = zero_if_none(r.reorder);
        let corrupt = zero_if_none(r.corrupt);
        TcNetemConfig {
            loss: TcLossConfig {
                enabled: loss.is_positive(),
                percentage: loss,
                correlation: zero_if_none(r.loss_correlation),
            },
            delay: TcDelayConfig {
                enabled: match r.delay_ms {
                    Some(d) => d > 0,
                    None => false,
                },
                base_ms: ms_decimal(r.delay_ms),
                jitter_ms: ms_decimal(r.jitter_ms),
                correlation: zero_if_none(r.delay_correlation),
            },
            duplicate: TcDuplicateConfig {
                enabled: duplicate.is_positive(),
                percentage: duplicate,
                correlation: zero_if_none(r.duplicate_correlation),
            },
            reorder: TcReorderConfig {
                enabled: reorder.is_positive(),
                percentage: reorder,
                correlation: zero_if_none(r.reorder_correlation),
                gap: match r.gap {
                    Some(g) => g,
                    None => 5,
                },
            },
            corrupt: TcCorruptConfig {
                enabled: corrupt.is_positive(),
                percentage: corrupt,
                correlation: zero_if_none(r.corrupt_correlation),
            },
            rate_limit: TcRateLimitConfig {
                enabled: match r.rate_bps {
                    Some(b) => b > 0,
                    None => false,
                },
                rate_kbps: match r.rate_bps {
                    Some(b) => {
                        let k: u64 = b / 1000;
                        k as u32
                    },
                    None => 0,
                },
            },
        }
    }

    /// The captured state of an interface: the root qdisc description
    /// (empty when it could not be read), whether it names a netem, and the
    /// netem configuration read back when it does.
    pub fn capture_state(
        namespace: &str,
        interface: &str,
        qdisc_info: Option<String>,
        readings: Option<NetemReadings>,
    ) -> (s: CapturedTcState)
        ensures
            s.namespace@ == namespace@,
            s.interface@ == interface@,
            s.qdisc_info@ == (match qdisc_info {
                Some(q) => q@,
                None => Seq::<char>::empty(),
            }),
            s.had_netem == contains_seq(s.qdisc_info@, "netem"@),
            s.had_netem ==> s.netem_config == (match readings {
                Some(r) => Some(captured_config_spec(r)),
                None => None::<TcNetemConfig>,
            }),
            !s.had_netem ==> s.netem_config is None,
    {
        let info = match qdisc_info {
            Some(q) => q,
            None => String::new(),
        };
        let had_netem = str_contains(info.as_str(), "netem");
        let netem_config = if had_netem {
            match readings {
                Some(r) => Some(Self::captured_netem_config(&r)),
                None => None,
            }
        } else {
            None
        };
        CapturedTcState {
            namespace: owned(namespace),
            interface: owned(interface),
            qdisc_info: info,
            had_netem,
            netem_config,
        }
    }

    /// The message after a rollback: the captured configuration reapplied,
    /// or the reason its reapplication failed; with none captured, whether
    /// there was a configuration to clear.
    pub fn restore_message(state: &CapturedTcState, reapply_error: Option<Option<&str>>) -> (m: String)
        requires
            state.netem_config is Some <==> reapply_error is Some,
        ensures
            m@ == (match reapply_error {
                Some(None) => "TC state restored with original configuration"@,
                Some(Some(e)) => "TC state partially restored (config reapply failed: "@ + e@
                    + ")"@,
                None => if state.qdisc_info@.len() > 0 && state.had_netem {
                    "TC state restored (previous config cleared)"@
                } else {
                    "TC state restored (no previous configuration)"@
                },
            }),
    {
        match reapply_error {
            Some(None) => owned("TC state restored with original configuration"),
            Some(Some(e)) => {
                let mut m = owned("TC state partially restored (config reapply failed: ");
                push_str(&mut m, e);
                push_str(&mut m, ")");
                m
            },
            None => {
                if state.had_tc_config() {
                    owned("TC state restored (previous config cleared)")
                } else {
                    owned("TC state restored (no previous configuration)")
                }
            },
        }
    }
}

impl CapturedTcState {
    /// Whether there was a TC configuration: a root qdisc that is a netem.
    pub fn had_tc_config(&self) -> (r: bool)
        ensures
            r == (self.qdisc_info@.len() > 0 && self.had_netem),
    {
        !self.qdisc_info.as_str().is_empty() && self.had_netem
    }
}

fn zero_if_none(o: Option<Decimal>) -> (d: Decimal)
    ensures
        d == or_zero(o),
{
    match o {
        Some(d) => d,
        None => Decimal::from_int(0),
    }
}

fn ms_decimal(o: Option<u64>) -> (d: Decimal)
    ensures
        d == ms_or_zero(o),
{
    match o {
        Some(n) => {
            let i: i64 = n as i64;
            Decimal::from_int(i)
        },
        None => Decimal::from_int(0),
    }
}

/// A qdisc as the kernel lists it.
#[derive(Clone, Debug)]
pub struct QdiscRecord {
    /// Whether it sits at the root of the interface.
    pub at_root: bool,
    /// Its kind, such as `netem` or `plug`.
    pub kind: Option<String>,
    pub handle: QdiscHandle,
    pub parent: QdiscHandle,
    /// Bytes queued.
    pub backlog: u32,
    /// Packets queued.
    pub qlen: u32,
}

/// What an interface's qdiscs show: the kind and handle of the root qdisc,
/// and the parent, backlog and queue length of a plug; the last one listed
/// of each counts.
pub open spec fn layout_spec(q: Seq<QdiscRecord>) -> (
    Option<Seq<char>>,
    Option<QdiscHandle>,
    Option<(QdiscHandle, u32, u32)>,
)
    decreases q.len(),
{
    if q.len() == 0 {
        (None, None, None)
    } else {
        let prev = layout_spec(q.drop_last());
        let r = q.last();
        if r.at_root {
            (crate::text::opt_text(r.kind), Some(r.handle), prev.2)
        } else if r.kind matches Some(k) && k@ == "plug"@ {
            (prev.0, prev.1, Some((r.parent, r.backlog, r.qlen)))
        } else {
            prev
        }
    }
}

impl TcCommandManager {
    /// The root qdisc and the plug of an interface, from its qdisc list
    /// (see `layout_spec`).
    pub fn qdisc_layout(qdiscs: &Vec<QdiscRecord>) -> (r: (
        Option<String>,
        Option<QdiscHandle>,
        Option<(QdiscHandle, u32, u32)>,
    ))
        ensures
            crate::text::opt_text(r.0) == layout_spec(qdiscs@).0,
            r.1 == layout_spec(qdiscs@).1,
            r.2 == layout_spec(qdiscs@).2,
    {
        let mut root_kind: Option<String> = None;
        let mut root_handle: Option<QdiscHandle> = None;
        let mut plug: Option<(QdiscHandle, u32, u32)> = None;
        let mut i: usize = 0;
        assert(qdiscs@.subrange(0, 0) =~= Seq::<QdiscRecord>::empty());
        while i < qdiscs.len()
            invariant
                i <= qdiscs@.len(),
                crate::text::opt_text(root_kind) == layout_spec(qdiscs@.subrange(0, i as int)).0,
                root_handle == layout_spec(qdiscs@.subrange(0, i as int)).1,
                plug == layout_spec(qdiscs@.subrange(0, i as int)).2,
            decreases qdiscs.len() - i,
        {
            let q = &qdiscs[i];
            proof {
                assert(qdiscs@.subrange(0, i + 1).drop_last() =~= qdiscs@.subrange(0, i as int));
                assert(qdiscs@.subrange(0, i + 1).last() == qdiscs@[i as int]);
            }
            if q.at_root {
                root_kind = match &q.kind {
                    Some(k) => Some(owned(k.as_str())),
                    None => None,
                };
                root_handle = Some(q.handle);
            } else {
                match &q.kind {
                    Some(k) => {
                        if str_eq(k.as_str(), "plug") {
                            plug = Some((q.parent, q.backlog, q.qlen));
                        }
                    },
                    None => {},
                }
            }
            i = i + 1;
        }
        assert(qdiscs@.subrange(0, qdiscs@.len() as int) =~= qdiscs@);
        (root_kind, root_handle, plug)
    }
}

} // verus!
