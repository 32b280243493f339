//! A builder for `tc qdisc` commands over several qdisc kinds, with the
//! checks that a command must pass before it is built and the exact
//! argument list each command stands for.
use vstd::prelude::*;
use crate::decimal::Decimal;
use crate::tc_commands::{
    delay_args, delay_part, is_pos, pct_args, pct_part, rate_args, rate_part,
};
use crate::tc_config::is_pos_opt;
use crate::text::{
    opt_text, extend_args, has_suffix, nat_digits, owned, push_arg, push_char, push_lit, push_str, push_u64,
    str_ends_with, str_eq, u64_to_string,
};

verus! {

/// Kinds of queueing discipline.
#[derive(Debug, Clone, PartialEq, Eq, Hash)]
pub enum QdiscType {
    /// Network emulation.
    Netem,
    /// Token bucket filter.
    Tbf,
    /// Class-based queueing.
    Cbq,
    /// Hierarchical token bucket.
    Htb,
    /// Priority queueing.
    Prio,
    /// Stochastic fair queueing.
    Sfq,
    /// Random early detection.
    Red,
    /// Controlled delay.
    Codel,
    /// Fair-queue controlled delay.
    FqCodel,
    /// The ingress qdisc.
    Ingress,
    /// A qdisc named by its `tc` name.
    Custom(String),
}

/// The `tc` name of a qdisc kind.
pub open spec fn qdisc_name(q: QdiscType) -> Seq<char> {
    match q {
        QdiscType::Netem => "netem"@,
        QdiscType::Tbf => "tbf"@,
        QdiscType::Cbq => "cbq"@,
        QdiscType::Htb => "htb"@,
        QdiscType::Prio => "prio"@,
        QdiscType::Sfq => "sfq"@,
        QdiscType::Red => "red"@,
        QdiscType::Codel => "codel"@,
        QdiscType::FqCodel => "fq_codel"@,
        QdiscType::Ingress => "ingress"@,
        QdiscType::Custom(name) => name@,
    }
}

impl QdiscType {
    /// The `tc` name of the kind.
    pub fn to_string(&self) -> (s: String)
        ensures
            s@ == qdisc_name(*self),
    {
        match self {
            QdiscType::Netem => owned("netem"),
            QdiscType::Tbf => owned("tbf"),
            QdiscType::Cbq => owned("cbq"),
            QdiscType::Htb => owned("htb"),
            QdiscType::Prio => owned("prio"),
            QdiscType::Sfq => owned("sfq"),
            QdiscType::Red => owned("red"),
            QdiscType::Codel => owned("codel"),
            QdiscType::FqCodel => owned("fq_codel"),
            QdiscType::Ingress => owned("ingress"),
            QdiscType::Custom(name) => owned(name.as_str()),
        }
    }
}

/// Whether two qdisc kinds are the same (custom ones by name).
pub open spec fn same_qdisc(a: QdiscType, b: QdiscType) -> bool {
    match (a, b) {
        (QdiscType::Custom(x), QdiscType::Custom(y)) => x@ == y@,
        (QdiscType::Custom(_), _) => false,
        (_, QdiscType::Custom(_)) => false,
        _ => a == b,
    }
}

impl QdiscType {
    /// A copy of the kind.
    pub fn duplicate(&self) -> (r: QdiscType)
        ensures
            same_qdisc(r, *self),
    {
        match self {
            QdiscType::Netem => QdiscType::Netem,
            QdiscType::Tbf => QdiscType::Tbf,
            QdiscType::Cbq => QdiscType::Cbq,
            QdiscType::Htb => QdiscType::Htb,
            QdiscType::Prio => QdiscType::Prio,
            QdiscType::Sfq => QdiscType::Sfq,
            QdiscType::Red => QdiscType::Red,
            QdiscType::Codel => QdiscType::Codel,
            QdiscType::FqCodel => QdiscType::FqCodel,
            QdiscType::Ingress => QdiscType::Ingress,
            QdiscType::Custom(name) => QdiscType::Custom(owned(name.as_str())),
        }
    }
}

/// What a `tc qdisc` command does.
#[derive(Debug, Clone, Copy, PartialEq, Eq, Structural)]
pub enum TcOperation {
    Add,
    Replace,
    Delete,
    Show,
    Change,
}

/// The `tc` word of an operation.
pub open spec fn operation_word(op: TcOperation) -> Seq<char> {
    match op {
        TcOperation::Add => "add"@,
        TcOperation::Replace => "replace"@,
        TcOperation::Delete => "del"@,
        TcOperation::Show => "show"@,
        TcOperation::Change => "change"@,
    }
}

impl TcOperation {
    /// The `tc` word of the operation.
    pub fn to_string(&self) -> (s: String)
        ensures
            s@ == operation_word(*self),
    {
        match self {
            TcOperation::Add => owned("add"),
            TcOperation::Replace => owned("replace"),
            TcOperation::Delete => owned("del"),
            TcOperation::Show => owned("show"),
            TcOperation::Change => owned("change"),
        }
    }
}

/// Where a qdisc is attached.
#[derive(Debug, Clone, PartialEq, Eq)]
pub enum TcTarget {
    /// The root of the device.
    Root,
    /// The ingress hook.
    Ingress,
    /// A given handle.
    Handle(String),
    /// Under a given parent.
    Parent(String),
}

/// The `tc` text of a target.
pub open spec fn target_text(t: TcTarget) -> Seq<char> {
    match t {
        TcTarget::Root => "root"@,
        TcTarget::Ingress => "ingress"@,
        TcTarget::Handle(h) => "handle "@ + h@,
        TcTarget::Parent(p) => "parent "@ + p@,
    }
}

impl TcTarget {
    /// The `tc` text of the target.
    pub fn to_string(&self) -> (s: String)
        ensures
            s@ == target_text(*self),
    {
        match self {
            TcTarget::Root => owned("root"),
            TcTarget::Ingress => owned("ingress"),
            TcTarget::Handle(h) => {
                let mut s = owned("handle ");
                push_str(&mut s, h.as_str());
                s
            },
            TcTarget::Parent(p) => {
                let mut s = owned("parent ");
                push_str(&mut s, p.as_str());
                s
            },
        }
    }
}

/// Whether two targets are the same.
pub open spec fn same_target(a: TcTarget, b: TcTarget) -> bool {
    match (a, b) {
        (TcTarget::Root, TcTarget::Root) => true,
        (TcTarget::Ingress, TcTarget::Ingress) => true,
        (TcTarget::Handle(x), TcTarget::Handle(y)) => x@ == y@,
        (TcTarget::Parent(x), TcTarget::Parent(y)) => x@ == y@,
        _ => false,
    }
}

impl TcTarget {
    /// A copy of the target.
    pub fn duplicate(&self) -> (r: TcTarget)
        ensures
            same_target(r, *self),
    {
        match self {
            TcTarget::Root => TcTarget::Root,
            TcTarget::Ingress => TcTarget::Ingress,
            TcTarget::Handle(h) => TcTarget::Handle(owned(h.as_str())),
            TcTarget::Parent(p) => TcTarget::Parent(owned(p.as_str())),
        }
    }
}

/// Network emulation settings; every one is optional.
#[derive(Debug, Clone, Copy)]
pub struct NetemParams {
    pub loss_percent: Option<Decimal>,
    pub loss_correlation: Option<Decimal>,
    pub delay_ms: Option<Decimal>,
    pub delay_jitter_ms: Option<Decimal>,
    pub delay_correlation: Option<Decimal>,
    pub duplicate_percent: Option<Decimal>,
    pub duplicate_correlation: Option<Decimal>,
    pub reorder_percent: Option<Decimal>,
    pub reorder_correlation: Option<Decimal>,
    pub reorder_gap: Option<u32>,
    pub corrupt_percent: Option<Decimal>,
    pub corrupt_correlation: Option<Decimal>,
    pub rate_limit_kbps: Option<u32>,
}

impl Default for NetemParams {
    fn default() -> (p: NetemParams)
        ensures
            p.loss_percent is None && p.loss_correlation is None && p.delay_ms is None
                && p.delay_jitter_ms is None && p.delay_correlation is None
                && p.duplicate_percent is None && p.duplicate_correlation is None
                && p.reorder_percent is None && p.reorder_correlation is None
                && p.reorder_gap is None && p.corrupt_percent is None
                && p.corrupt_correlation is None && p.rate_limit_kbps is None,
    {
        NetemParams {
            loss_percent: None,
            loss_correlation: None,
            delay_ms: None,
            delay_jitter_ms: None,
            delay_correlation: None,
            duplicate_percent: None,
            duplicate_correlation: None,
            reorder_percent: None,
            reorder_correlation: None,
            reorder_gap: None,
            corrupt_percent: None,
            corrupt_correlation: None,
            rate_limit_kbps: None,
        }
    }
}

/// Token bucket filter settings, as `tc` texts such as `1mbit` or `1600b`.
#[derive(Debug, Clone)]
pub struct TbfParams {
    pub rate: String,
    pub burst: Option<String>,
    pub limit: Option<String>,
    pub peakrate: Option<String>,
    pub mtu: Option<String>,
}

/// The texts of token bucket settings: rate, burst, limit, peak rate, MTU.
pub type TbfModel = (Seq<char>, Option<Seq<char>>, Option<Seq<char>>, Option<Seq<char>>, Option<
    Seq<char>,
>);

impl View for TbfParams {
    type V = TbfModel;

    open spec fn view(&self) -> TbfModel {
        (self.rate@, opt_text(self.burst), opt_text(self.limit), opt_text(self.peakrate), opt_text(self.mtu))
    }
}

/// Hierarchical token bucket settings.
#[derive(Debug, Clone)]
pub struct HtbParams {
    pub default_class: Option<String>,
    pub r2q: Option<u32>,
    pub direct_qlen: Option<u32>,
}

/// Priority qdisc settings.
#[derive(Debug, Clone)]
pub struct PrioParams {
    pub bands: Option<u32>,
    pub priomap: Option<Vec<u32>>,
}

/// Stochastic fair queueing settings.
#[derive(Debug, Clone)]
pub struct SfqParams {
    pub perturb: Option<u32>,
    pub quantum: Option<u32>,
    pub limit: Option<u32>,
}

/// Random early detection settings.
#[derive(Debug, Clone)]
pub struct RedParams {
    pub limit: Option<u32>,
    pub min: Option<u32>,
    pub max: Option<u32>,
    pub avpkt: Option<u32>,
    pub burst: Option<u32>,
    pub probability: Option<Decimal>,
    pub bandwidth: Option<String>,
}

/// The settings of a qdisc, by kind.
#[derive(Debug, Clone)]
pub enum QdiscParams {
    Netem(NetemParams),
    Tbf(TbfParams),
    Htb(HtbParams),
    Prio(PrioParams),
    Sfq(SfqParams),
    Red(RedParams),
    /// No settings.
    NoParams,
    /// Settings given as name and value pairs, in order.
    Custom(Vec<(String, String)>),
}

/// The netem setting a range check is about.
#[derive(Debug, Clone, Copy, PartialEq, Eq, Structural)]
pub enum NetemField {
    LossPercent,
    LossCorrelation,
    DelayCorrelation,
    DuplicateCorrelation,
    ReorderCorrelation,
    CorruptCorrelation,
    DuplicatePercent,
    ReorderPercent,
    CorruptPercent,
}

/// Why a command could not be built.
#[derive(Debug, Clone, Copy, PartialEq, Eq, Structural)]
pub enum BuildError {
    /// No operation was given.
    MissingOperation,
    /// No device was given.
    MissingDevice,
    /// The device name is empty.
    EmptyDevice,
    /// The operation needs a qdisc kind and none was given.
    MissingQdiscType { operation: TcOperation },
    /// The namespace name is empty.
    EmptyNamespace,
    /// A percentage or correlation lies outside `0..=100`.
    OutOfRange { field: NetemField },
    /// The delay is negative.
    NegativeDelay,
    /// The delay jitter is negative.
    NegativeJitter,
    /// The reorder gap is zero.
    ZeroReorderGap,
    /// The rate limit is zero.
    ZeroRateLimit,
    /// A token bucket filter has an empty rate.
    MissingTbfRate,
    /// A token bucket filter rate ends neither in `bit` nor in `bps`.
    BadTbfRateUnit,
    /// A token bucket filter was given settings of another kind.
    TbfParamsRequired,
}

/// The first range error among optional values, in order.
pub open spec fn first_out_of_range(fields: Seq<(NetemField, Option<Decimal>)>) -> Option<
    BuildError,
>
    decreases fields.len(),
{
    if fields.len() == 0 {
        None
    } else if fields[0].1 matches Some(v) && !v.is_percent() {
        Some(BuildError::OutOfRange { field: fields[0].0 })
    } else {
        first_out_of_range(fields.drop_first())
    }
}

/// The correlations, in the order they are checked.
pub open spec fn correlation_fields(p: NetemParams) -> Seq<(NetemField, Option<Decimal>)> {
    seq![
        (NetemField::LossCorrelation, p.loss_correlation),
        (NetemField::DelayCorrelation, p.delay_correlation),
        (NetemField::DuplicateCorrelation, p.duplicate_correlation),
        (NetemField::ReorderCorrelation, p.reorder_correlation),
        (NetemField::CorruptCorrelation, p.corrupt_correlation),
    ]
}

/// The percentages after the delays, in the order they are checked.
pub open spec fn percent_fields(p: NetemParams) -> Seq<(NetemField, Option<Decimal>)> {
    seq![
        (NetemField::DuplicatePercent, p.duplicate_percent),
        (NetemField::ReorderPercent, p.reorder_percent),
        (NetemField::CorruptPercent, p.corrupt_percent),
    ]
}

/// The first thing wrong with netem settings: the loss percentage, the
/// correlations, a negative delay or jitter, the other percentages, a zero
/// reorder gap, a zero rate limit.
pub open spec fn netem_error(p: NetemParams) -> Option<BuildError> {
    if p.loss_percent matches Some(l) && !l.is_percent() {
        Some(BuildError::OutOfRange { field: NetemField::LossPercent })
    } else if first_out_of_range(correlation_fields(p)) is Some {
        first_out_of_range(correlation_fields(p))
    } else if p.delay_ms matches Some(d) && d.is_neg() {
        Some(BuildError::NegativeDelay)
    } else if p.delay_jitter_ms matches Some(j) && j.is_neg() {
        Some(BuildError::NegativeJitter)
    } else if first_out_of_range(percent_fields(p)) is Some {
        first_out_of_range(percent_fields(p))
    } else if p.reorder_gap == Some(0u32) {
        Some(BuildError::ZeroReorderGap)
    } else if p.rate_limit_kbps == Some(0u32) {
        Some(BuildError::ZeroRateLimit)
    } else {
        None
    }
}

/// The first thing wrong with token bucket settings.
pub open spec fn tbf_error(t: TbfParams) -> Option<BuildError> {
    if t.rate@.len() == 0 {
        Some(BuildError::MissingTbfRate)
    } else if !has_suffix(t.rate@, "bit"@) && !has_suffix(t.rate@, "bps"@) {
        Some(BuildError::BadTbfRateUnit)
    } else {
        None
    }
}

/// What is wrong with settings for a qdisc kind: netem and token bucket
/// settings are checked, a token bucket needs its own settings, any other
/// pairing passes.
pub open spec fn qdisc_params_error(q: QdiscType, p: QdiscParams) -> Option<BuildError> {
    match (q, p) {
        (QdiscType::Netem, QdiscParams::Netem(n)) => netem_error(n),
        (QdiscType::Tbf, QdiscParams::Tbf(t)) => tbf_error(t),
        (QdiscType::Tbf, _) => Some(BuildError::TbfParamsRequired),
        _ => None,
    }
}

/// Whether an operation installs a qdisc and so needs its kind.
pub open spec fn installs(op: TcOperation) -> bool {
    op == TcOperation::Add || op == TcOperation::Replace || op == TcOperation::Change
}

/// Step-by-step construction of a `tc qdisc` command.
#[derive(Debug, Clone)]
pub struct TcCommandBuilder {
    pub operation: Option<TcOperation>,
    pub device: Option<String>,
    /// The namespace; `None` is the host namespace.
    pub namespace: Option<String>,
    pub qdisc_type: Option<QdiscType>,
    pub target: Option<TcTarget>,
    pub params: Option<QdiscParams>,
    pub use_sudo: bool,
    pub raw_args: Vec<String>,
    /// Whether `build` checks the settings.
    pub validate: bool,
}

/// The first thing wrong with a builder's settings: the operation, the
/// device, the qdisc kind and its settings for operations that install a
/// qdisc, an empty namespace.
pub open spec fn builder_error(b: TcCommandBuilder) -> Option<BuildError> {
    match b.operation {
        None => Some(BuildError::MissingOperation),
        Some(op) => match b.device {
            None => Some(BuildError::MissingDevice),
            Some(d) => if d@.len() == 0 {
                Some(BuildError::EmptyDevice)
            } else if installs(op) && b.qdisc_type is None {
                Some(BuildError::MissingQdiscType { operation: op })
            } else if installs(op) && b.params is Some && qdisc_params_error(
                b.qdisc_type->0,
                b.params->0,
            ) is Some {
                qdisc_params_error(b.qdisc_type->0, b.params->0)
            } else if b.namespace matches Some(n) && n@.len() == 0 {
                Some(BuildError::EmptyNamespace)
            } else {
                None
            },
        },
    }
}

/// A built `tc qdisc` command.
#[derive(Debug, Clone)]
pub struct TcCommand {
    pub operation: TcOperation,
    pub device: String,
    pub namespace: Option<String>,
    pub qdisc_type: QdiscType,
    pub target: TcTarget,
    pub params: QdiscParams,
    pub use_sudo: bool,
    pub raw_args: Vec<String>,
}

/// The checks `build` runs and the command it gives: missing settings
/// default to `add`, `eth0`, the host namespace, netem, the root and no
/// settings.
pub open spec fn built_from(b: TcCommandBuilder, c: TcCommand) -> bool {
    &&& c.operation == (match b.operation {
        Some(op) => op,
        None => TcOperation::Add,
    })
    &&& c.device@ == (match b.device {
        Some(d) => d@,
        None => "eth0"@,
    })
    &&& opt_text(c.namespace) == opt_text(b.namespace)
    &&& c.qdisc_type == (match b.qdisc_type {
        Some(q) => q,
        None => QdiscType::Netem,
    })
    &&& c.target == (match b.target {
        Some(t) => t,
        None => TcTarget::Root,
    })
    &&& c.params == (match b.params {
        Some(p) => p,
        None => QdiscParams::NoParams,
    })
    &&& c.use_sudo == b.use_sudo
    &&& c.raw_args.deep_view() == b.raw_args.deep_view()
}

impl TcCommandBuilder {
    /// Nothing set; validation on.
    pub fn new() -> (b: TcCommandBuilder)
        ensures
            b.operation is None && b.device is None && b.namespace is None && b.qdisc_type is None
                && b.target is None && b.params is None && !b.use_sudo && b.raw_args@.len() == 0
                && b.validate,
    {
        TcCommandBuilder {
            operation: None,
            device: None,
            namespace: None,
            qdisc_type: None,
            target: None,
            params: None,
            use_sudo: false,
            raw_args: Vec::new(),
            validate: true,
        }
    }

    /// Sets the operation.
    pub fn operation(self, op: TcOperation) -> (b: TcCommandBuilder)
        ensures
            b == (TcCommandBuilder { operation: Some(op), ..self }),
    {
        TcCommandBuilder { operation: Some(op), ..self }
    }

    /// Sets the device.
    pub fn device(self, device: &str) -> (b: TcCommandBuilder)
        ensures
            opt_text(b.device) == Some(device@),
            b == (TcCommandBuilder { device: b.device, ..self }),
    {
        TcCommandBuilder { device: Some(owned(device)), ..self }
    }

    /// Sets the namespace; `default` names the host namespace.
    pub fn namespace(self, namespace: &str) -> (b: TcCommandBuilder)
        ensures
            opt_text(b.namespace) == (if namespace@ == "default"@ {
                None
            } else {
                Some(namespace@)
            }),
            b == (TcCommandBuilder { namespace: b.namespace, ..self }),
    {
        if str_eq(namespace, "default") {
            TcCommandBuilder { namespace: None, ..self }
        } else {
            TcCommandBuilder { namespace: Some(owned(namespace)), ..self }
        }
    }

    /// Sets the qdisc kind.
    pub fn qdisc(self, qdisc_type: QdiscType) -> (b: TcCommandBuilder)
        ensures
            b == (TcCommandBuilder { qdisc_type: Some(qdisc_type), ..self }),
    {
        TcCommandBuilder { qdisc_type: Some(qdisc_type), ..self }
    }

    /// Sets the target.
    pub fn target(self, target: TcTarget) -> (b: TcCommandBuilder)
        ensures
            b == (TcCommandBuilder { target: Some(target), ..self }),
    {
        TcCommandBuilder { target: Some(target), ..self }
    }

    /// Sets the qdisc settings.
    pub fn params(self, params: QdiscParams) -> (b: TcCommandBuilder)
        ensures
            b == (TcCommandBuilder { params: Some(params), ..self }),
    {
        TcCommandBuilder { params: Some(params), ..self }
    }

    /// Runs the command through `sudo`.
    pub fn with_sudo(self) -> (b: TcCommandBuilder)
        ensures
            b == (TcCommandBuilder { use_sudo: true, ..self }),
    {
        TcCommandBuilder { use_sudo: true, ..self }
    }

    /// Appends arguments after everything else.
    pub fn raw_args(self, args: Vec<String>) -> (b: TcCommandBuilder)
        ensures
            b.raw_args.deep_view() == self.raw_args.deep_view() + args.deep_view(),
            b == (TcCommandBuilder { raw_args: b.raw_args, ..self }),
    {
        let mut s = self;
        let mut all = Vec::new();
        std::mem::swap(&mut all, &mut s.raw_args);
        extend_args(&mut all, args);
        TcCommandBuilder { raw_args: all, ..s }
    }

    /// Turns the checks off.
    pub fn skip_validation(self) -> (b: TcCommandBuilder)
        ensures
            b == (TcCommandBuilder { validate: false, ..self }),
    {
        TcCommandBuilder { validate: false, ..self }
    }

    /// The command; with validation on, the first thing wrong with the
    /// settings (see `builder_error`) is reported instead.
    pub fn build(self) -> (r: Result<TcCommand, BuildError>)
        ensures
            self.validate && builder_error(self) is Some ==> r == Err::<TcCommand, BuildError>(
                builder_error(self)->0,
            ),
            !(self.validate && builder_error(self) is Some) ==> (r matches Ok(c) && built_from(
                self,
                c,
            )),
    {
        if self.validate {
            match self.validate_configuration() {
                Some(e) => {
                    return Err(e);
                },
                None => {},
            }
        }
        let operation = match self.operation {
            Some(op) => op,
            None => TcOperation::Add,
        };
        let device = match self.device {
            Some(d) => d,
            None => owned("eth0"),
        };
        let qdisc_type = match self.qdisc_type {
            Some(q) => q,
            None => QdiscType::Netem,
        };
        let target = match self.target {
            Some(t) => t,
            None => TcTarget::Root,
        };
        let params = match self.params {
            Some(p) => p,
            None => QdiscParams::NoParams,
        };
        Ok(
            TcCommand {
                operation,
                device,
                namespace: self.namespace,
                qdisc_type,
                target,
                params,
                use_sudo: self.use_sudo,
                raw_args: self.raw_args,
            },
        )
    }

    /// The first thing wrong with the settings.
    fn validate_configuration(&self) -> (r: Option<BuildError>)
        ensures
            r == builder_error(*self),
    {
        let op = match self.operation {
            Some(op) => op,
            None => {
                return Some(BuildError::MissingOperation);
            },
        };
        match &self.device {
            None => {
                return Some(BuildError::MissingDevice);
            },
            Some(d) => {
                if d.as_str().is_empty() {
                    return Some(BuildError::EmptyDevice);
                }
            },
        }
        if op == TcOperation::Add || op == TcOperation::Replace || op == TcOperation::Change {
            match &self.qdisc_type {
                None => {
                    return Some(BuildError::MissingQdiscType { operation: op });
                },
                Some(q) => match &self.params {
                    Some(p) => match validate_qdisc_params(q, p) {
                        Some(e) => {
                            return Some(e);
                        },
                        None => {},
                    },
                    None => {},
                },
            }
        }
        match &self.namespace {
            Some(n) => {
                if n.as_str().is_empty() {
                    return Some(BuildError::EmptyNamespace);
                }
            },
            None => {},
        }
        None
    }
}

impl Default for TcCommandBuilder {
    fn default() -> (b: TcCommandBuilder)
        ensures
            b.operation is None && b.device is None && b.namespace is None && b.qdisc_type is None
                && b.target is None && b.params is None && !b.use_sudo && b.raw_args@.len() == 0
                && b.validate,
    {
        Self::new()
    }
}

/// Whether an optional value lies outside `0..=100`.
fn out_of_range(o: &Option<Decimal>) -> (r: bool)
    ensures
        r == (o matches Some(v) && !v.is_percent()),
{
    match o {
        Some(v) => !v.is_percentage(),
        None => false,
    }
}

/// The first range error among the correlations.
fn check_correlations(p: &NetemParams) -> (r: Option<BuildError>)
    ensures
        r == first_out_of_range(correlation_fields(*p)),
{
    let ghost f = correlation_fields(*p);
    proof {
        reveal_with_fuel(first_out_of_range, 6);
    }
    if out_of_range(&p.loss_correlation) {
        Some(BuildError::OutOfRange { field: NetemField::LossCorrelation })
    } else if out_of_range(&p.delay_correlation) {
        Some(BuildError::OutOfRange { field: NetemField::DelayCorrelation })
    } else if out_of_range(&p.duplicate_correlation) {
        Some(BuildError::OutOfRange { field: NetemField::DuplicateCorrelation })
    } else if out_of_range(&p.reorder_correlation) {
        Some(BuildError::OutOfRange { field: NetemField::ReorderCorrelation })
    } else if out_of_range(&p.corrupt_correlation) {
        Some(BuildError::OutOfRange { field: NetemField::CorruptCorrelation })
    } else {
        proof {
            assert(f.drop_first().drop_first().drop_first().drop_first().drop_first().len() == 0);
        }
        None
    }
}

/// The first range error among the later percentages.
fn check_percents(p: &NetemParams) -> (r: Option<BuildError>)
    ensures
        r == first_out_of_range(percent_fields(*p)),
{
    let ghost f = percent_fields(*p);
    proof {
        reveal_with_fuel(first_out_of_range, 4);
    }
    if out_of_range(&p.duplicate_percent) {
        Some(BuildError::OutOfRange { field: NetemField::DuplicatePercent })
    } else if out_of_range(&p.reorder_percent) {
        Some(BuildError::OutOfRange { field: NetemField::ReorderPercent })
    } else if out_of_range(&p.corrupt_percent) {
        Some(BuildError::OutOfRange { field: NetemField::CorruptPercent })
    } else {
        proof {
            assert(f.drop_first().drop_first().drop_first().len() == 0);
        }
        None
    }
}

/// The first thing wrong with netem settings (see `netem_error`).
pub fn validate_netem_params(p: &NetemParams) -> (r: Option<BuildError>)
    ensures
        r == netem_error(*p),
{
    if out_of_range(&p.loss_percent) {
        return Some(BuildError::OutOfRange { field: NetemField::LossPercent });
    }
    let c = check_correlations(p);
    if c.is_some() {
        return c;
    }
    match &p.delay_ms {
        Some(d) => {
            if d.is_negative() {
                return Some(BuildError::NegativeDelay);
            }
        },
        None => {},
    }
    match &p.delay_jitter_ms {
        Some(j) => {
            if j.is_negative() {
                return Some(BuildError::NegativeJitter);
            }
        },
        None => {},
    }
    let q = check_percents(p);
    if q.is_some() {
        return q;
    }
    match p.reorder_gap {
        Some(g) => {
            if g == 0 {
                return Some(BuildError::ZeroReorderGap);
            }
        },
        None => {},
    }
    match p.rate_limit_kbps {
        Some(r) => {
            if r == 0 {
                return Some(BuildError::ZeroRateLimit);
            }
        },
        None => {},
    }
    None
}

/// The first thing wrong with token bucket settings (see `tbf_error`).
pub fn validate_tbf_params(t: &TbfParams) -> (r: Option<BuildError>)
    ensures
        r == tbf_error(*t),
{
    if t.rate.as_str().is_empty() {
        Some(BuildError::MissingTbfRate)
    } else if !str_ends_with(t.rate.as_str(), "bit") && !str_ends_with(t.rate.as_str(), "bps") {
        Some(BuildError::BadTbfRateUnit)
    } else {
        None
    }
}

/// What is wrong with settings for a qdisc kind (see `qdisc_params_error`).
pub fn validate_qdisc_params(q: &QdiscType, p: &QdiscParams) -> (r: Option<BuildError>)
    ensures
        r == qdisc_params_error(*q, *p),
{
    match (q, p) {
        (QdiscType::Netem, QdiscParams::Netem(n)) => validate_netem_params(n),
        (QdiscType::Tbf, QdiscParams::Tbf(t)) => validate_tbf_params(t),
        (QdiscType::Tbf, _) => Some(BuildError::TbfParamsRequired),
        _ => None,
    }
}


/// The program and arguments that run `tc`, through `sudo` and inside a
/// named namespace as asked.
pub open spec fn exec_prefix(use_sudo: bool, ns: Option<Seq<char>>) -> Seq<Seq<char>> {
    let inner = match ns {
        Some(n) => seq!["ip"@, "netns"@, "exec"@, n, "tc"@],
        None => seq!["tc"@],
    };
    if use_sudo {
        seq!["sudo"@] + inner
    } else {
        inner
    }
}

/// `key N` for a present number.
pub open spec fn u32_opt_args(key: Seq<char>, v: Option<u32>) -> Seq<Seq<char>> {
    match v {
        Some(x) => seq![key, nat_digits(x as nat)],
        None => Seq::empty(),
    }
}

/// `key text` for a present text.
pub open spec fn str_opt_args(key: Seq<char>, v: Option<String>) -> Seq<Seq<char>> {
    match v {
        Some(x) => seq![key, x@],
        None => Seq::empty(),
    }
}

/// The numbers in decimal, separated by single spaces.
pub open spec fn join_numbers(s: Seq<u32>) -> Seq<char>
    decreases s.len(),
{
    if s.len() == 0 {
        Seq::empty()
    } else if s.len() == 1 {
        nat_digits(s[0] as nat)
    } else {
        join_numbers(s.drop_last()) + " "@ + nat_digits(s.last() as nat)
    }
}

/// The arguments of netem settings: loss, delay, duplication, reordering
/// (with its gap), corruption and rate, each only when positive.
pub open spec fn netem_args(p: NetemParams) -> Seq<Seq<char>> {
    pct_args("loss"@, p.loss_percent, p.loss_correlation) + delay_args(
        p.delay_ms,
        p.delay_jitter_ms,
        p.delay_correlation,
    ) + pct_args("duplicate"@, p.duplicate_percent, p.duplicate_correlation) + pct_args(
        "reorder"@,
        p.reorder_percent,
        p.reorder_correlation,
    ) + (if is_pos_opt(p.reorder_percent) {
        u32_opt_args("gap"@, p.reorder_gap)
    } else {
        Seq::empty()
    }) + pct_args("corrupt"@, p.corrupt_percent, p.corrupt_correlation) + rate_args(
        p.rate_limit_kbps,
    )
}

/// The arguments of token bucket settings.
pub open spec fn tbf_args(t: TbfParams) -> Seq<Seq<char>> {
    seq!["rate"@, t.rate@] + str_opt_args("burst"@, t.burst) + str_opt_args("limit"@, t.limit)
        + str_opt_args("peakrate"@, t.peakrate) + str_opt_args("mtu"@, t.mtu)
}

/// The arguments of hierarchical token bucket settings.
pub open spec fn htb_args(h: HtbParams) -> Seq<Seq<char>> {
    str_opt_args("default"@, h.default_class) + u32_opt_args("r2q"@, h.r2q) + u32_opt_args(
        "direct_qlen"@,
        h.direct_qlen,
    )
}

/// The arguments of priority qdisc settings.
pub open spec fn prio_args(p: PrioParams) -> Seq<Seq<char>> {
    u32_opt_args("bands"@, p.bands) + match p.priomap {
        Some(m) => seq!["priomap"@, join_numbers(m@)],
        None => Seq::empty(),
    }
}

/// The arguments of fair queueing settings.
pub open spec fn sfq_args(p: SfqParams) -> Seq<Seq<char>> {
    u32_opt_args("perturb"@, p.perturb) + u32_opt_args("quantum"@, p.quantum) + u32_opt_args(
        "limit"@,
        p.limit,
    )
}

/// The arguments of random early detection settings.
pub open spec fn red_args(p: RedParams) -> Seq<Seq<char>> {
    u32_opt_args("limit"@, p.limit) + u32_opt_args("min"@, p.min) + u32_opt_args("max"@, p.max)
        + u32_opt_args("avpkt"@, p.avpkt) + u32_opt_args("burst"@, p.burst) + match p.probability {
        Some(d) => seq!["probability"@, d.text()],
        None => Seq::empty(),
    } + str_opt_args("bandwidth"@, p.bandwidth)
}

/// Name and value pairs as consecutive arguments.
pub open spec fn pair_args(s: Seq<(String, String)>) -> Seq<Seq<char>>
    decreases s.len(),
{
    if s.len() == 0 {
        Seq::empty()
    } else {
        pair_args(s.drop_last()) + seq![s.last().0@, s.last().1@]
    }
}

/// The arguments of qdisc settings.
pub open spec fn params_args(p: QdiscParams) -> Seq<Seq<char>> {
    match p {
        QdiscParams::Netem(n) => netem_args(n),
        QdiscParams::Tbf(t) => tbf_args(t),
        QdiscParams::Htb(h) => htb_args(h),
        QdiscParams::Prio(x) => prio_args(x),
        QdiscParams::Sfq(x) => sfq_args(x),
        QdiscParams::Red(x) => red_args(x),
        QdiscParams::NoParams => Seq::empty(),
        QdiscParams::Custom(pairs) => pair_args(pairs@),
    }
}

/// The program and arguments of a command: the prefix, `qdisc`, the
/// operation, `dev` and the device, the target, then for operations other
/// than delete and show the qdisc kind and its settings, then the extra
/// arguments.
pub open spec fn command_args(c: TcCommand) -> Seq<Seq<char>> {
    exec_prefix(c.use_sudo, opt_text(c.namespace)) + seq![
        "qdisc"@,
        operation_word(c.operation),
        "dev"@,
        c.device@,
        target_text(c.target),
    ] + (if c.operation != TcOperation::Delete && c.operation != TcOperation::Show {
        seq![qdisc_name(c.qdisc_type)] + params_args(c.params)
    } else {
        Seq::empty()
    }) + c.raw_args.deep_view()
}

fn push_u32(args: &mut Vec<String>, key: &str, v: &Option<u32>)
    ensures
        final(args).deep_view() == old(args).deep_view() + u32_opt_args(key@, *v),
{
    match v {
        Some(x) => {
            push_lit(args, key);
            push_arg(args, u64_to_string(*x as u64));
        },
        None => {},
    }
    assert(args.deep_view() =~= old(args).deep_view() + u32_opt_args(key@, *v));
}

fn push_text(args: &mut Vec<String>, key: &str, v: &Option<String>)
    ensures
        final(args).deep_view() == old(args).deep_view() + str_opt_args(key@, *v),
{
    match v {
        Some(x) => {
            push_lit(args, key);
            push_lit(args, x.as_str());
        },
        None => {},
    }
    assert(args.deep_view() =~= old(args).deep_view() + str_opt_args(key@, *v));
}

fn join_numbers_exec(v: &Vec<u32>) -> (s: String)
    ensures
        s@ == join_numbers(v@),
{
    let mut s = String::new();
    let mut i: usize = 0;
    while i < v.len()
        invariant
            i <= v@.len(),
            s@ == join_numbers(v@.subrange(0, i as int)),
        decreases v.len() - i,
    {
        let ghost before = s@;
        if i > 0 {
            push_char(&mut s, ' ');
        }
        push_u64(&mut s, v[i] as u64);
        proof {
            let next = v@.subrange(0, i + 1);
            assert(next.drop_last() =~= v@.subrange(0, i as int));
            if i == 0 {
                assert(s@ =~= nat_digits(v@[0] as nat));
            } else {
                reveal_strlit(" ");
                assert(s@ =~= before + " "@ + nat_digits(v@[i as int] as nat));
            }
        }
        i = i + 1;
    }
    assert(v@.subrange(0, v@.len() as int) =~= v@);
    s
}

fn netem_part(p: &NetemParams) -> (r: Vec<String>)
    ensures
        r.deep_view() == netem_args(*p),
{
    let mut args = pct_part("loss", &p.loss_percent, &p.loss_correlation);
    extend_args(&mut args, delay_part(&p.delay_ms, &p.delay_jitter_ms, &p.delay_correlation));
    extend_args(&mut args, pct_part("duplicate", &p.duplicate_percent, &p.duplicate_correlation));
    extend_args(&mut args, pct_part("reorder", &p.reorder_percent, &p.reorder_correlation));
    let ghost before_gap = args.deep_view();
    if is_pos(&p.reorder_percent) {
        push_u32(&mut args, "gap", &p.reorder_gap);
    } else {
        assert(args.deep_view() =~= before_gap + Seq::<Seq<char>>::empty());
    }
    extend_args(&mut args, pct_part("corrupt", &p.corrupt_percent, &p.corrupt_correlation));
    extend_args(&mut args, rate_part(&p.rate_limit_kbps));
    assert(args.deep_view() =~= netem_args(*p));
    args
}

fn params_part(p: &QdiscParams) -> (r: Vec<String>)
    ensures
        r.deep_view() == params_args(*p),
{
    let mut args: Vec<String> = Vec::new();
    match p {
        QdiscParams::Netem(n) => {
            args = netem_part(n);
        },
        QdiscParams::Tbf(t) => {
            push_lit(&mut args, "rate");
            push_lit(&mut args, t.rate.as_str());
            push_text(&mut args, "burst", &t.burst);
            push_text(&mut args, "limit", &t.limit);
            push_text(&mut args, "peakrate", &t.peakrate);
            push_text(&mut args, "mtu", &t.mtu);
            assert(args.deep_view() =~= tbf_args(*t));
        },
        QdiscParams::Htb(h) => {
            push_text(&mut args, "default", &h.default_class);
            push_u32(&mut args, "r2q", &h.r2q);
            push_u32(&mut args, "direct_qlen", &h.direct_qlen);
            assert(args.deep_view() =~= htb_args(*h));
        },
        QdiscParams::Prio(x) => {
            push_u32(&mut args, "bands", &x.bands);
            match &x.priomap {
                Some(m) => {
                    push_lit(&mut args, "priomap");
                    push_arg(&mut args, join_numbers_exec(m));
                },
                None => {},
            }
            assert(args.deep_view() =~= prio_args(*x));
        },
        QdiscParams::Sfq(x) => {
            push_u32(&mut args, "perturb", &x.perturb);
            push_u32(&mut args, "quantum", &x.quantum);
            push_u32(&mut args, "limit", &x.limit);
            assert(args.deep_view() =~= sfq_args(*x));
        },
        QdiscParams::Red(x) => {
            push_u32(&mut args, "limit", &x.limit);
            push_u32(&mut args, "min", &x.min);
            push_u32(&mut args, "max", &x.max);
            push_u32(&mut args, "avpkt", &x.avpkt);
            push_u32(&mut args, "burst", &x.burst);
            let ghost mid = args.deep_view();
            match &x.probability {
                Some(d) => {
                    push_lit(&mut args, "probability");
                    push_arg(&mut args, d.to_string());
                },
                None => {},
            }
            push_text(&mut args, "bandwidth", &x.bandwidth);
            assert(args.deep_view() =~= red_args(*x));
        },
        QdiscParams::NoParams => {
            assert(args.deep_view() =~= Seq::<Seq<char>>::empty());
        },
        QdiscParams::Custom(pairs) => {
            let mut i: usize = 0;
            while i < pairs.len()
                invariant
                    i <= pairs@.len(),
                    args.deep_view() == pair_args(pairs@.subrange(0, i as int)),
                decreases pairs.len() - i,
            {
                let ghost before = args.deep_view();
                push_lit(&mut args, pairs[i].0.as_str());
                push_lit(&mut args, pairs[i].1.as_str());
                proof {
                    let next = pairs@.subrange(0, i + 1);
                    assert(next.drop_last() =~= pairs@.subrange(0, i as int));
                    assert(args.deep_view() =~= before + seq![pairs@[i as int].0@, pairs@[i as int].1@]);
                }
                i = i + 1;
            }
            assert(pairs@.subrange(0, pairs@.len() as int) =~= pairs@);
        },
    }
    args
}

impl TcCommand {
    /// The program and its arguments (see `command_args`).
    pub fn to_args(&self) -> (r: Vec<String>)
        ensures
            r.deep_view() == command_args(*self),
    {
        let mut args: Vec<String> = Vec::new();
        if self.use_sudo {
            push_lit(&mut args, "sudo");
        }
        match &self.namespace {
            Some(n) => {
                push_lit(&mut args, "ip");
                push_lit(&mut args, "netns");
                push_lit(&mut args, "exec");
                push_lit(&mut args, n.as_str());
                push_lit(&mut args, "tc");
            },
            None => {
                push_lit(&mut args, "tc");
            },
        }
        assert(args.deep_view() =~= exec_prefix(self.use_sudo, opt_text(self.namespace)));
        let ghost pre = args.deep_view();
        push_lit(&mut args, "qdisc");
        push_arg(&mut args, self.operation.to_string());
        push_lit(&mut args, "dev");
        push_lit(&mut args, self.device.as_str());
        push_arg(&mut args, self.target.to_string());
        let ghost head = args.deep_view();
        if self.operation != TcOperation::Delete && self.operation != TcOperation::Show {
            push_arg(&mut args, self.qdisc_type.to_string());
            extend_args(&mut args, params_part(&self.params));
        }
        let ghost body = args.deep_view();
        extend_args(&mut args, copy_args(&self.raw_args));
        proof {
            let mid = if self.operation != TcOperation::Delete && self.operation
                != TcOperation::Show {
                seq![qdisc_name(self.qdisc_type)] + params_args(self.params)
            } else {
                Seq::empty()
            };
            assert(body =~= head + mid);
            assert(head =~= pre + seq![
                "qdisc"@,
                operation_word(self.operation),
                "dev"@,
                self.device@,
                target_text(self.target),
            ]);
            assert(args.deep_view() =~= command_args(*self));
        }
        args
    }
}

/// A copy of an argument list.
pub fn copy_args(v: &Vec<String>) -> (r: Vec<String>)
    ensures
        r.deep_view() == v.deep_view(),
{
    let mut r: Vec<String> = Vec::new();
    let mut i: usize = 0;
    while i < v.len()
        invariant
            i <= v@.len(),
            r.deep_view() == v.deep_view().subrange(0, i as int),
        decreases v.len() - i,
    {
        push_lit(&mut r, v[i].as_str());
        proof {
            assert(r.deep_view() =~= v.deep_view().subrange(0, i + 1));
        }
        i = i + 1;
    }
    assert(v.deep_view().subrange(0, v@.len() as int) =~= v.deep_view());
    r
}

} // verus!
