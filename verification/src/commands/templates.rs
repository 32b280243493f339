//! Reusable `tc` command templates: parameter declarations with their
//! checks, how parameters map onto qdisc settings, the predefined templates,
//! and the manager that keeps predefined and user templates and turns a
//! template and parameter values into a command.
use vstd::prelude::*;
use crate::commands::builder::{
    builder_error, command_args, copy_args, exec_prefix, installs, netem_args, netem_error,
    operation_word, params_args, qdisc_name, same_qdisc, str_opt_args, target_text,
    tbf_args, BuildError, NetemParams, QdiscParams, QdiscType, TbfModel, TbfParams, TcCommand,
    TcCommandBuilder, TcOperation, TcTarget,
};
use crate::pattern::{match_pattern, pattern_outcome};
use crate::clock::{now, Timestamp};
use crate::decimal::{pow10, Decimal};
use crate::text::{
    contains_seq, contains_string, first_index, has_suffix, lemma_first_index_found, opt_text, opt_view, owned,
    str_contains, str_eq,
};
use crate::unicode::{lowercase, to_lowercase};

verus! {

/// The group a template belongs to.
#[derive(Debug, Clone, PartialEq, Eq, Hash)]
pub enum TemplateCategory {
    NetworkEmulation,
    RateLimiting,
    QualityOfService,
    CongestionControl,
    Testing,
    Production,
    /// A group named by the user.
    Custom(String),
}

/// The display name of a category.
pub open spec fn category_text(c: TemplateCategory) -> Seq<char> {
    match c {
        TemplateCategory::NetworkEmulation => "Network Emulation"@,
        TemplateCategory::RateLimiting => "Rate Limiting"@,
        TemplateCategory::QualityOfService => "Quality of Service"@,
        TemplateCategory::CongestionControl => "Congestion Control"@,
        TemplateCategory::Testing => "Testing"@,
        TemplateCategory::Production => "Production"@,
        TemplateCategory::Custom(name) => name@,
    }
}

/// Whether two categories are the same (user groups by name).
pub open spec fn same_category(a: TemplateCategory, b: TemplateCategory) -> bool {
    match (a, b) {
        (TemplateCategory::Custom(x), TemplateCategory::Custom(y)) => x@ == y@,
        (TemplateCategory::Custom(_), _) => false,
        (_, TemplateCategory::Custom(_)) => false,
        _ => a == b,
    }
}

impl TemplateCategory {
    /// The display name of the category.
    pub fn to_string(&self) -> (s: String)
        ensures
            s@ == category_text(*self),
    {
        match self {
            TemplateCategory::NetworkEmulation => owned("Network Emulation"),
            TemplateCategory::RateLimiting => owned("Rate Limiting"),
            TemplateCategory::QualityOfService => owned("Quality of Service"),
            TemplateCategory::CongestionControl => owned("Congestion Control"),
            TemplateCategory::Testing => owned("Testing"),
            TemplateCategory::Production => owned("Production"),
            TemplateCategory::Custom(name) => owned(name.as_str()),
        }
    }

    /// Whether two categories are the same.
    pub fn same_as(&self, other: &TemplateCategory) -> (r: bool)
        ensures
            r == same_category(*self, *other),
    {
        match (self, other) {
            (TemplateCategory::Custom(x), TemplateCategory::Custom(y)) => str_eq(
                x.as_str(),
                y.as_str(),
            ),
            (TemplateCategory::NetworkEmulation, TemplateCategory::NetworkEmulation) => true,
            (TemplateCategory::RateLimiting, TemplateCategory::RateLimiting) => true,
            (TemplateCategory::QualityOfService, TemplateCategory::QualityOfService) => true,
            (TemplateCategory::CongestionControl, TemplateCategory::CongestionControl) => true,
            (TemplateCategory::Testing, TemplateCategory::Testing) => true,
            (TemplateCategory::Production, TemplateCategory::Production) => true,
            _ => false,
        }
    }
}

/// The kind of value a parameter takes.
#[derive(Debug, Clone)]
pub enum ParameterType {
    String,
    Integer,
    Float,
    Boolean,
    /// One of the listed words.
    Enum(Vec<String>),
}

/// A parameter value.
#[derive(Debug, Clone)]
pub enum ParameterValue {
    String(String),
    Integer(i64),
    Float(Decimal),
    Boolean(bool),
}

/// Checks on a parameter value.
#[derive(Debug, Clone)]
pub struct ParameterConstraints {
    /// Least value allowed, for numbers.
    pub min: Option<Decimal>,
    /// Greatest value allowed, for numbers.
    pub max: Option<Decimal>,
    /// A regular expression that strings must match.
    pub pattern: Option<String>,
    /// The strings allowed.
    pub allowed_values: Option<Vec<String>>,
}

/// A parameter a template takes.
#[derive(Debug, Clone)]
pub struct TemplateParameter {
    pub name: String,
    pub description: String,
    pub param_type: ParameterType,
    pub default_value: Option<ParameterValue>,
    pub required: bool,
    pub constraints: Option<ParameterConstraints>,
}

/// The command a template builds.
#[derive(Debug, Clone)]
pub struct CommandTemplate {
    pub operation: TcOperation,
    pub qdisc_type: QdiscType,
    pub target: TcTarget,
    /// Which setting each parameter maps to, as parameter and setting names.
    pub parameter_mappings: Vec<(String, String)>,
    pub use_sudo: bool,
    pub raw_args: Vec<String>,
}

/// A reusable command template.
#[derive(Debug, Clone)]
pub struct TcTemplate {
    pub id: String,
    pub name: String,
    pub description: String,
    pub category: TemplateCategory,
    pub parameters: Vec<TemplateParameter>,
    pub command_template: CommandTemplate,
    pub version: String,
    pub author: Option<String>,
    pub tags: Vec<String>,
}

/// The ids of a list of templates.
pub open spec fn template_ids(s: Seq<TcTemplate>) -> Seq<Seq<char>> {
    s.map_values(|t: TcTemplate| t.id@)
}

/// The kind of value a parameter takes, as plain values.
pub enum TypeModel {
    Text,
    Integer,
    Float,
    Boolean,
    Choice(Seq<Seq<char>>),
}

/// A parameter value as plain values.
pub enum ValueModel {
    Text(Seq<char>),
    Integer(i64),
    Float(Decimal),
    Boolean(bool),
}

/// Checks on a parameter value, as plain values.
pub struct ConstraintsModel {
    pub min: Option<Decimal>,
    pub max: Option<Decimal>,
    pub pattern: Option<Seq<char>>,
    pub allowed_values: Option<Seq<Seq<char>>>,
}

/// A template parameter as plain values.
pub struct ParamModel {
    pub name: Seq<char>,
    pub description: Seq<char>,
    pub param_type: TypeModel,
    pub default_value: Option<ValueModel>,
    pub required: bool,
    pub constraints: Option<ConstraintsModel>,
}

/// A template as plain values.
pub struct TemplateModel {
    pub id: Seq<char>,
    pub name: Seq<char>,
    pub description: Seq<char>,
    pub category: TemplateCategory,
    pub parameters: Seq<ParamModel>,
    pub operation: TcOperation,
    pub qdisc_type: QdiscType,
    pub target: TcTarget,
    pub parameter_mappings: Seq<(Seq<char>, Seq<char>)>,
    pub use_sudo: bool,
    pub raw_args: Seq<Seq<char>>,
    pub version: Seq<char>,
    pub author: Option<Seq<char>>,
    pub tags: Seq<Seq<char>>,
}

/// The plain form of a parameter type.
pub open spec fn type_model(t: ParameterType) -> TypeModel {
    match t {
        ParameterType::String => TypeModel::Text,
        ParameterType::Integer => TypeModel::Integer,
        ParameterType::Float => TypeModel::Float,
        ParameterType::Boolean => TypeModel::Boolean,
        ParameterType::Enum(words) => TypeModel::Choice(words.deep_view()),
    }
}

/// The plain form of a parameter value.
pub open spec fn value_model(v: ParameterValue) -> ValueModel {
    match v {
        ParameterValue::String(s) => ValueModel::Text(s@),
        ParameterValue::Integer(i) => ValueModel::Integer(i),
        ParameterValue::Float(d) => ValueModel::Float(d),
        ParameterValue::Boolean(b) => ValueModel::Boolean(b),
    }
}

/// The plain form of parameter checks.
pub open spec fn constraints_model(c: ParameterConstraints) -> ConstraintsModel {
    ConstraintsModel {
        min: c.min,
        max: c.max,
        pattern: match c.pattern {
            Some(p) => Some(p@),
            None => None,
        },
        allowed_values: match c.allowed_values {
            Some(a) => Some(a.deep_view()),
            None => None,
        },
    }
}

/// The plain form of a parameter.
pub open spec fn param_model(p: TemplateParameter) -> ParamModel {
    ParamModel {
        name: p.name@,
        description: p.description@,
        param_type: type_model(p.param_type),
        default_value: match p.default_value {
            Some(v) => Some(value_model(v)),
            None => None,
        },
        required: p.required,
        constraints: match p.constraints {
            Some(c) => Some(constraints_model(c)),
            None => None,
        },
    }
}

/// The plain form of parameter mappings.
pub open spec fn mappings_model(m: Seq<(String, String)>) -> Seq<(Seq<char>, Seq<char>)> {
    m.map_values(|e: (String, String)| (e.0@, e.1@))
}

/// The plain form of a template.
pub open spec fn template_model(t: TcTemplate) -> TemplateModel {
    TemplateModel {
        id: t.id@,
        name: t.name@,
        description: t.description@,
        category: t.category,
        parameters: t.parameters@.map_values(|p: TemplateParameter| param_model(p)),
        operation: t.command_template.operation,
        qdisc_type: t.command_template.qdisc_type,
        target: t.command_template.target,
        parameter_mappings: mappings_model(t.command_template.parameter_mappings@),
        use_sudo: t.command_template.use_sudo,
        raw_args: t.command_template.raw_args.deep_view(),
        version: t.version@,
        author: match t.author {
            Some(a) => Some(a@),
            None => None,
        },
        tags: t.tags.deep_view(),
    }
}

/// A predefined parameter: its default given, and numeric bounds or none.
pub open spec fn pm(
    name: Seq<char>,
    description: Seq<char>,
    param_type: TypeModel,
    default_value: ValueModel,
    required: bool,
    constraints: Option<ConstraintsModel>,
) -> ParamModel {
    ParamModel {
        name,
        description,
        param_type,
        default_value: Some(default_value),
        required,
        constraints,
    }
}

/// Numeric bounds of whole numbers.
pub open spec fn whole_bounds(min: i64, max: i64) -> Option<ConstraintsModel> {
    Some(
        ConstraintsModel {
            min: Some(Decimal::of(min, 0)),
            max: Some(Decimal::of(max, 0)),
            pattern: None,
            allowed_values: None,
        },
    )
}

/// A predefined template: by the TC GUI team, version 1.0, run with sudo,
/// at the root, replacing the root qdisc.
pub open spec fn team_model(
    id: Seq<char>,
    name: Seq<char>,
    description: Seq<char>,
    category: TemplateCategory,
    parameters: Seq<ParamModel>,
    qdisc_type: QdiscType,
    parameter_mappings: Seq<(Seq<char>, Seq<char>)>,
    raw_args: Seq<Seq<char>>,
    tags: Seq<Seq<char>>,
) -> TemplateModel {
    TemplateModel {
        id,
        name,
        description,
        category,
        parameters,
        operation: TcOperation::Replace,
        qdisc_type,
        target: TcTarget::Root,
        parameter_mappings,
        use_sudo: true,
        raw_args,
        version: "1.0"@,
        author: Some("TC GUI Team"@),
        tags,
    }
}

/// The predefined templates.
#[derive(Debug, Clone)]
pub struct PredefinedTemplate;

/// The ids of the predefined templates, in order.
pub open spec fn predefined_ids() -> Seq<Seq<char>> {
    seq![
        "mobile_device_sim"@,
        "wan_simulation"@,
        "basic_rate_limit"@,
        "burst_rate_limit"@,
        "simple_packet_loss"@,
        "complex_netem"@,
        "production_rate_limit"@,
        "testing_high_latency"@,
        "testing_packet_corruption"@,
        "qos_priority"@,
    ]
}

/// Strings from literals.
fn strings3(a: &str, b: &str, c: &str) -> (r: Vec<String>)
    ensures
        r.deep_view() == seq![a@, b@, c@],
{
    let r = vec![owned(a), owned(b), owned(c)];
    assert(r.deep_view() =~= seq![a@, b@, c@]);
    r
}

fn strings4(a: &str, b: &str, c: &str, d: &str) -> (r: Vec<String>)
    ensures
        r.deep_view() == seq![a@, b@, c@, d@],
{
    let r = vec![owned(a), owned(b), owned(c), owned(d)];
    assert(r.deep_view() =~= seq![a@, b@, c@, d@]);
    r
}

/// A parameter → setting pair.
fn mapping(param: &str, setting: &str) -> (r: (String, String))
    ensures
        r.0@ == param@,
        r.1@ == setting@,
{
    (owned(param), owned(setting))
}

/// Numeric bounds.
fn bounds(min: Decimal, max: Decimal) -> (c: Option<ParameterConstraints>)
    ensures
        c matches Some(k) && k.min == Some(min) && k.max == Some(max) && k.pattern is None
            && k.allowed_values is None,
{
    Some(ParameterConstraints { min: Some(min), max: Some(max), pattern: None, allowed_values: None })
}

/// A parameter declaration.
fn param(
    name: &str,
    description: &str,
    param_type: ParameterType,
    default_value: ParameterValue,
    required: bool,
    constraints: Option<ParameterConstraints>,
) -> (p: TemplateParameter)
    ensures
        p.name@ == name@,
        p.description@ == description@,
        p.param_type == param_type,
        p.default_value == Some(default_value),
        p.required == required,
        p.constraints == constraints,
{
    TemplateParameter {
        name: owned(name),
        description: owned(description),
        param_type,
        default_value: Some(default_value),
        required,
        constraints,
    }
}

/// A template by the TC GUI team, version 1.0, with sudo, at the root.
fn team_template(
    id: &str,
    name: &str,
    description: &str,
    category: TemplateCategory,
    parameters: Vec<TemplateParameter>,
    operation: TcOperation,
    qdisc_type: QdiscType,
    parameter_mappings: Vec<(String, String)>,
    raw_args: Vec<String>,
    tags: Vec<String>,
) -> (t: TcTemplate)
    ensures
        t.id@ == id@,
        t.name@ == name@,
        t.description@ == description@,
        t.category == category,
        t.parameters == parameters,
        t.command_template.operation == operation,
        t.command_template.qdisc_type == qdisc_type,
        t.command_template.target == TcTarget::Root,
        t.command_template.parameter_mappings == parameter_mappings,
        t.command_template.use_sudo,
        t.command_template.raw_args == raw_args,
        t.version@ == "1.0"@,
        t.author matches Some(a) && a@ == "TC GUI Team"@,
        t.tags == tags,
{
    TcTemplate {
        id: owned(id),
        name: owned(name),
        description: owned(description),
        category,
        parameters,
        command_template: CommandTemplate {
            operation,
            qdisc_type,
            target: TcTarget::Root,
            parameter_mappings,
            use_sudo: true,
            raw_args,
        },
        version: owned("1.0"),
        author: Some(owned("TC GUI Team")),
        tags,
    }
}

/// The WAN link template.
pub open spec fn wan_simulation_model() -> TemplateModel {
    team_model(
        "wan_simulation"@,
        "WAN Link Simulation"@,
        "Simulate WAN link characteristics with configurable bandwidth and latency"@,
        TemplateCategory::NetworkEmulation,
        seq![
            pm("bandwidth_mbps"@, "Bandwidth limit in Mbps"@, TypeModel::Integer, ValueModel::Integer(10), true, whole_bounds(1, 1000)),
            pm("latency_ms"@, "Base latency in milliseconds"@, TypeModel::Integer, ValueModel::Integer(50), true, whole_bounds(1, 1000)),
            pm("jitter_ms"@, "Latency jitter in milliseconds"@, TypeModel::Integer, ValueModel::Integer(10), false, whole_bounds(0, 100)),
            pm("loss_percent"@, "Packet loss percentage"@, TypeModel::Float, ValueModel::Float(Decimal::of(1, 1)), false, whole_bounds(0, 10)),
        ],
        QdiscType::Netem,
        seq![
            ("bandwidth_mbps"@, "rate_limit_mbps"@),
            ("latency_ms"@, "delay_ms"@),
            ("jitter_ms"@, "delay_jitter_ms"@),
            ("loss_percent"@, "loss_percent"@),
        ],
        seq![],
        seq!["wan"@, "simulation"@, "latency"@],
    )
}

/// The mobile device template.
pub open spec fn mobile_device_simulation_model() -> TemplateModel {
    team_model(
        "mobile_device_sim"@,
        "Mobile Device Simulation"@,
        "Simulate mobile device network conditions with variable latency and loss"@,
        TemplateCategory::NetworkEmulation,
        seq![
            pm("signal_strength"@, "Signal strength level (excellent, good, fair, poor)"@, TypeModel::Choice(seq!["excellent"@, "good"@, "fair"@, "poor"@]), ValueModel::Text("good"@), false, None),
            pm("mobility"@, "Device mobility (stationary, walking, driving)"@, TypeModel::Choice(seq!["stationary"@, "walking"@, "driving"@]), ValueModel::Text("stationary"@), false, None),
        ],
        QdiscType::Netem,
        seq![("signal_strength"@, "loss_delay_mapping"@), ("mobility"@, "jitter_mapping"@)],
        seq![],
        seq!["mobile"@, "simulation"@, "wireless"@],
    )
}

/// The basic token bucket template.
pub open spec fn basic_rate_limiting_model() -> TemplateModel {
    team_model(
        "basic_rate_limit"@,
        "Basic Rate Limiting"@,
        "Simple bandwidth rate limiting using TBF"@,
        TemplateCategory::RateLimiting,
        seq![
            pm("rate"@, "Rate limit (e.g., '1mbit', '500kbit')"@, TypeModel::Text, ValueModel::Text("1mbit"@), true, Some(ConstraintsModel { min: None, max: None, pattern: Some("^\\d+[kmg]?bit$"@), allowed_values: None })),
            pm("burst"@, "Burst size (e.g., '32kbit', '1600b')"@, TypeModel::Text, ValueModel::Text("32kbit"@), false, None),
        ],
        QdiscType::Tbf,
        seq![("rate"@, "rate"@), ("burst"@, "burst"@)],
        seq![],
        seq!["rate"@, "limit"@, "tbf"@],
    )
}

/// The burst token bucket template.
pub open spec fn burst_rate_limiting_model() -> TemplateModel {
    team_model(
        "burst_rate_limit"@,
        "Burst Rate Limiting"@,
        "Advanced rate limiting with burst and peak rate control"@,
        TemplateCategory::RateLimiting,
        seq![
            pm("rate"@, "Sustained rate limit"@, TypeModel::Text, ValueModel::Text("1mbit"@), true, None),
            pm("burst"@, "Burst buffer size"@, TypeModel::Text, ValueModel::Text("32kbit"@), true, None),
            pm("peakrate"@, "Peak rate limit"@, TypeModel::Text, ValueModel::Text("2mbit"@), false, None),
            pm("limit"@, "Queue limit in bytes"@, TypeModel::Text, ValueModel::Text("3000b"@), false, None),
        ],
        QdiscType::Tbf,
        seq![("rate"@, "rate"@), ("burst"@, "burst"@), ("peakrate"@, "peakrate"@), ("limit"@, "limit"@)],
        seq![],
        seq!["rate"@, "burst"@, "advanced"@],
    )
}

/// The packet loss template.
pub open spec fn simple_packet_loss_model() -> TemplateModel {
    team_model(
        "simple_packet_loss"@,
        "Simple Packet Loss"@,
        "Basic packet loss simulation for testing"@,
        TemplateCategory::Testing,
        seq![
            pm("loss_percent"@, "Packet loss percentage (0-100)"@, TypeModel::Float, ValueModel::Float(Decimal::of(1, 0)), true, whole_bounds(0, 100)),
            pm("correlation"@, "Loss correlation percentage (0-100)"@, TypeModel::Float, ValueModel::Float(Decimal::of(25, 0)), false, whole_bounds(0, 100)),
        ],
        QdiscType::Netem,
        seq![("loss_percent"@, "loss_percent"@), ("correlation"@, "loss_correlation"@)],
        seq![],
        seq!["loss"@, "testing"@, "simple"@],
    )
}

/// The full netem template.
pub open spec fn complex_network_emulation_model() -> TemplateModel {
    team_model(
        "complex_netem"@,
        "Complex Network Emulation"@,
        "Full-featured network emulation with all netem parameters"@,
        TemplateCategory::NetworkEmulation,
        seq![
            pm("delay_ms"@, "Base delay in milliseconds"@, TypeModel::Float, ValueModel::Float(Decimal::of(100, 0)), false, whole_bounds(0, 5000)),
            pm("jitter_ms"@, "Delay jitter in milliseconds"@, TypeModel::Float, ValueModel::Float(Decimal::of(10, 0)), false, whole_bounds(0, 1000)),
            pm("loss_percent"@, "Packet loss percentage"@, TypeModel::Float, ValueModel::Float(Decimal::of(1, 0)), false, whole_bounds(0, 100)),
            pm("duplicate_percent"@, "Packet duplication percentage"@, TypeModel::Float, ValueModel::Float(Decimal::of(1, 1)), false, whole_bounds(0, 100)),
            pm("reorder_percent"@, "Packet reordering percentage"@, TypeModel::Float, ValueModel::Float(Decimal::of(5, 1)), false, whole_bounds(0, 100)),
            pm("corrupt_percent"@, "Packet corruption percentage"@, TypeModel::Float, ValueModel::Float(Decimal::of(2, 2)), false, whole_bounds(0, 100)),
        ],
        QdiscType::Netem,
        seq![
            ("delay_ms"@, "delay_ms"@),
            ("jitter_ms"@, "delay_jitter_ms"@),
            ("loss_percent"@, "loss_percent"@),
            ("duplicate_percent"@, "duplicate_percent"@),
            ("reorder_percent"@, "reorder_percent"@),
            ("corrupt_percent"@, "corrupt_percent"@),
        ],
        seq![],
        seq!["complex"@, "netem"@, "full"@],
    )
}

/// The production rate limit template.
pub open spec fn production_rate_limit_model() -> TemplateModel {
    team_model(
        "production_rate_limit"@,
        "Production Rate Limiting"@,
        "Production-ready rate limiting with conservative settings"@,
        TemplateCategory::Production,
        seq![
            pm("rate"@, "Maximum rate (e.g., '100mbit')"@, TypeModel::Text, ValueModel::Text("100mbit"@), true, None),
        ],
        QdiscType::Tbf,
        seq![("rate"@, "rate"@)],
        seq!["burst"@, "128kbit"@, "limit"@, "10000b"@],
        seq!["production"@, "stable"@, "rate"@],
    )
}

/// The high latency template.
pub open spec fn testing_high_latency_model() -> TemplateModel {
    team_model(
        "testing_high_latency"@,
        "High Latency Testing"@,
        "Simulate high-latency connections for testing"@,
        TemplateCategory::Testing,
        seq![
            pm("latency_type"@, "Type of high latency connection"@, TypeModel::Choice(seq!["satellite"@, "intercontinental"@, "extreme"@]), ValueModel::Text("satellite"@), true, None),
        ],
        QdiscType::Netem,
        seq![("latency_type"@, "latency_preset"@)],
        seq![],
        seq!["testing"@, "latency"@, "high"@],
    )
}

/// The packet corruption template.
pub open spec fn testing_packet_corruption_model() -> TemplateModel {
    team_model(
        "testing_packet_corruption"@,
        "Packet Corruption Testing"@,
        "Test application resilience with packet corruption"@,
        TemplateCategory::Testing,
        seq![
            pm("corruption_level"@, "Corruption severity level"@, TypeModel::Choice(seq!["light"@, "moderate"@, "heavy"@]), ValueModel::Text("light"@), true, None),
        ],
        QdiscType::Netem,
        seq![("corruption_level"@, "corruption_preset"@)],
        seq![],
        seq!["testing"@, "corruption"@, "resilience"@],
    )
}

/// The priority scheduling template.
pub open spec fn qos_priority_scheduling_model() -> TemplateModel {
    team_model(
        "qos_priority"@,
        "QoS Priority Scheduling"@,
        "Priority-based quality of service scheduling"@,
        TemplateCategory::QualityOfService,
        seq![
            pm("bands"@, "Number of priority bands (2-16)"@, TypeModel::Integer, ValueModel::Integer(3), true, whole_bounds(2, 16)),
        ],
        QdiscType::Prio,
        seq![("bands"@, "bands"@)],
        seq![],
        seq!["qos"@, "priority"@, "scheduling"@],
    )
}

/// The predefined templates, in order.
pub open spec fn predefined_models() -> Seq<TemplateModel> {
    seq![
        mobile_device_simulation_model(),
        wan_simulation_model(),
        basic_rate_limiting_model(),
        burst_rate_limiting_model(),
        simple_packet_loss_model(),
        complex_network_emulation_model(),
        production_rate_limit_model(),
        testing_high_latency_model(),
        testing_packet_corruption_model(),
        qos_priority_scheduling_model(),
    ]
}

/// The plain forms of a list of templates.
pub open spec fn template_models(s: Seq<TcTemplate>) -> Seq<TemplateModel> {
    s.map_values(|t: TcTemplate| template_model(t))
}

impl PredefinedTemplate {
    /// All predefined templates, in the order of `predefined_ids`.
    pub fn get_all() -> (r: Vec<TcTemplate>)
        ensures
            template_ids(r@) == predefined_ids(),
            template_models(r@) == predefined_models(),
    {
        let r = vec![
            Self::mobile_device_simulation(),
            Self::wan_simulation(),
            Self::basic_rate_limiting(),
            Self::burst_rate_limiting(),
            Self::simple_packet_loss(),
            Self::complex_network_emulation(),
            Self::production_rate_limit(),
            Self::testing_high_latency(),
            Self::testing_packet_corruption(),
            Self::qos_priority_scheduling(),
        ];
        assert(template_ids(r@) =~= predefined_ids());
        assert(template_models(r@) =~= predefined_models());
        r
    }

    /// Mobile device conditions by signal strength and mobility.
    pub fn mobile_device_simulation() -> (t: TcTemplate)
        ensures
            template_model(t) == mobile_device_simulation_model(),
    {
        let t = team_template(
            "mobile_device_sim",
            "Mobile Device Simulation",
            "Simulate mobile device network conditions with variable latency and loss",
            TemplateCategory::NetworkEmulation,
            vec![
                param(
                    "signal_strength",
                    "Signal strength level (excellent, good, fair, poor)",
                    ParameterType::Enum(strings4("excellent", "good", "fair", "poor")),
                    ParameterValue::String(owned("good")),
                    false,
                    None,
                ),
                param(
                    "mobility",
                    "Device mobility (stationary, walking, driving)",
                    ParameterType::Enum(strings3("stationary", "walking", "driving")),
                    ParameterValue::String(owned("stationary")),
                    false,
                    None,
                ),
            ],
            TcOperation::Replace,
            QdiscType::Netem,
            vec![
                mapping("signal_strength", "loss_delay_mapping"),
                mapping("mobility", "jitter_mapping"),
            ],
            Vec::new(),
            strings3("mobile", "simulation", "wireless"),
        );
        assert(template_model(t).parameters =~= mobile_device_simulation_model().parameters);
        assert(template_model(t).parameter_mappings =~= mobile_device_simulation_model().parameter_mappings);
        assert(template_model(t).raw_args =~= mobile_device_simulation_model().raw_args);
        t
    }

    /// A WAN link with bandwidth, latency, jitter and loss.
    pub fn wan_simulation() -> (t: TcTemplate)
        ensures
            template_model(t) == wan_simulation_model(),
    {
        let t = team_template(
            "wan_simulation",
            "WAN Link Simulation",
            "Simulate WAN link characteristics with configurable bandwidth and latency",
            TemplateCategory::NetworkEmulation,
            vec![
                param(
                    "bandwidth_mbps",
                    "Bandwidth limit in Mbps",
                    ParameterType::Integer,
                    ParameterValue::Integer(10),
                    true,
                    bounds(Decimal::from_int(1), Decimal::from_int(1000)),
                ),
                param(
                    "latency_ms",
                    "Base latency in milliseconds",
                    ParameterType::Integer,
                    ParameterValue::Integer(50),
                    true,
                    bounds(Decimal::from_int(1), Decimal::from_int(1000)),
                ),
                param(
                    "jitter_ms",
                    "Latency jitter in milliseconds",
                    ParameterType::Integer,
                    ParameterValue::Integer(10),
                    false,
                    bounds(Decimal::from_int(0), Decimal::from_int(100)),
                ),
                param(
                    "loss_percent",
                    "Packet loss percentage",
                    ParameterType::Float,
                    ParameterValue::Float(Decimal::new(1, 1)),
                    false,
                    bounds(Decimal::from_int(0), Decimal::from_int(10)),
                ),
            ],
            TcOperation::Replace,
            QdiscType::Netem,
            vec![
                mapping("bandwidth_mbps", "rate_limit_mbps"),
                mapping("latency_ms", "delay_ms"),
                mapping("jitter_ms", "delay_jitter_ms"),
                mapping("loss_percent", "loss_percent"),
            ],
            Vec::new(),
            strings3("wan", "simulation", "latency"),
        );
        assert(template_model(t).parameters =~= wan_simulation_model().parameters);
        assert(template_model(t).parameter_mappings =~= wan_simulation_model().parameter_mappings);
        assert(template_model(t).raw_args =~= wan_simulation_model().raw_args);
        t
    }

    /// Plain token bucket rate limiting.
    pub fn basic_rate_limiting() -> (t: TcTemplate)
        ensures
            template_model(t) == basic_rate_limiting_model(),
    {
        let t = team_template(
            "basic_rate_limit",
            "Basic Rate Limiting",
            "Simple bandwidth rate limiting using TBF",
            TemplateCategory::RateLimiting,
            vec![
                param(
                    "rate",
                    "Rate limit (e.g., '1mbit', '500kbit')",
                    ParameterType::String,
                    ParameterValue::String(owned("1mbit")),
                    true,
                    Some(
                        ParameterConstraints {
                            min: None,
                            max: None,
                            pattern: Some(owned("^\\d+[kmg]?bit$")),
                            allowed_values: None,
                        },
                    ),
                ),
                param(
                    "burst",
                    "Burst size (e.g., '32kbit', '1600b')",
                    ParameterType::String,
                    ParameterValue::String(owned("32kbit")),
                    false,
                    None,
                ),
            ],
            TcOperation::Replace,
            QdiscType::Tbf,
            vec![mapping("rate", "rate"), mapping("burst", "burst")],
            Vec::new(),
            strings3("rate", "limit", "tbf"),
        );
        assert(template_model(t).parameters =~= basic_rate_limiting_model().parameters);
        assert(template_model(t).parameter_mappings =~= basic_rate_limiting_model().parameter_mappings);
        assert(template_model(t).raw_args =~= basic_rate_limiting_model().raw_args);
        t
    }

    /// Token bucket rate limiting with burst, peak rate and queue limit.
    pub fn burst_rate_limiting() -> (t: TcTemplate)
        ensures
            template_model(t) == burst_rate_limiting_model(),
    {
        let t = team_template(
            "burst_rate_limit",
            "Burst Rate Limiting",
            "Advanced rate limiting with burst and peak rate control",
            TemplateCategory::RateLimiting,
            vec![
                param(
                    "rate",
                    "Sustained rate limit",
                    ParameterType::String,
                    ParameterValue::String(owned("1mbit")),
                    true,
                    None,
                ),
                param(
                    "burst",
                    "Burst buffer size",
                    ParameterType::String,
                    ParameterValue::String(owned("32kbit")),
                    true,
                    None,
                ),
                param(
                    "peakrate",
                    "Peak rate limit",
                    ParameterType::String,
                    ParameterValue::String(owned("2mbit")),
                    false,
                    None,
                ),
                param(
                    "limit",
                    "Queue limit in bytes",
                    ParameterType::String,
                    ParameterValue::String(owned("3000b")),
                    false,
                    None,
                ),
            ],
            TcOperation::Replace,
            QdiscType::Tbf,
            vec![
                mapping("rate", "rate"),
                mapping("burst", "burst"),
                mapping("peakrate", "peakrate"),
                mapping("limit", "limit"),
            ],
            Vec::new(),
            strings3("rate", "burst", "advanced"),
        );
        assert(template_model(t).parameters =~= burst_rate_limiting_model().parameters);
        assert(template_model(t).parameter_mappings =~= burst_rate_limiting_model().parameter_mappings);
        assert(template_model(t).raw_args =~= burst_rate_limiting_model().raw_args);
        t
    }

    /// Packet loss with correlation.
    pub fn simple_packet_loss() -> (t: TcTemplate)
        ensures
            template_model(t) == simple_packet_loss_model(),
    {
        let t = team_template(
            "simple_packet_loss",
            "Simple Packet Loss",
            "Basic packet loss simulation for testing",
            TemplateCategory::Testing,
            vec![
                param(
                    "loss_percent",
                    "Packet loss percentage (0-100)",
                    ParameterType::Float,
                    ParameterValue::Float(Decimal::from_int(1)),
                    true,
                    bounds(Decimal::from_int(0), Decimal::from_int(100)),
                ),
                param(
                    "correlation",
                    "Loss correlation percentage (0-100)",
                    ParameterType::Float,
                    ParameterValue::Float(Decimal::from_int(25)),
                    false,
                    bounds(Decimal::from_int(0), Decimal::from_int(100)),
                ),
            ],
            TcOperation::Replace,
            QdiscType::Netem,
            vec![mapping("loss_percent", "loss_percent"), mapping("correlation", "loss_correlation")],
            Vec::new(),
            strings3("loss", "testing", "simple"),
        );
        assert(template_model(t).parameters =~= simple_packet_loss_model().parameters);
        assert(template_model(t).parameter_mappings =~= simple_packet_loss_model().parameter_mappings);
        assert(template_model(t).raw_args =~= simple_packet_loss_model().raw_args);
        t
    }

    /// Every netem setting at once.
    pub fn complex_network_emulation() -> (t: TcTemplate)
        ensures
            template_model(t) == complex_network_emulation_model(),
    {
        let t = team_template(
            "complex_netem",
            "Complex Network Emulation",
            "Full-featured network emulation with all netem parameters",
            TemplateCategory::NetworkEmulation,
            vec![
                param(
                    "delay_ms",
                    "Base delay in milliseconds",
                    ParameterType::Float,
                    ParameterValue::Float(Decimal::from_int(100)),
                    false,
                    bounds(Decimal::from_int(0), Decimal::from_int(5000)),
                ),
                param(
                    "jitter_ms",
                    "Delay jitter in milliseconds",
                    ParameterType::Float,
                    ParameterValue::Float(Decimal::from_int(10)),
                    false,
                    bounds(Decimal::from_int(0), Decimal::from_int(1000)),
                ),
                param(
                    "loss_percent",
                    "Packet loss percentage",
                    ParameterType::Float,
                    ParameterValue::Float(Decimal::from_int(1)),
                    false,
                    bounds(Decimal::from_int(0), Decimal::from_int(100)),
                ),
                param(
                    "duplicate_percent",
                    "Packet duplication percentage",
                    ParameterType::Float,
                    ParameterValue::Float(Decimal::new(1, 1)),
                    false,
                    bounds(Decimal::from_int(0), Decimal::from_int(100)),
                ),
                param(
                    "reorder_percent",
                    "Packet reordering percentage",
                    ParameterType::Float,
                    ParameterValue::Float(Decimal::new(5, 1)),
                    false,
                    bounds(Decimal::from_int(0), Decimal::from_int(100)),
                ),
                param(
                    "corrupt_percent",
                    "Packet corruption percentage",
                    ParameterType::Float,
                    ParameterValue::Float(Decimal::new(2, 2)),
                    false,
                    bounds(Decimal::from_int(0), Decimal::from_int(100)),
                ),
            ],
            TcOperation::Replace,
            QdiscType::Netem,
            vec![
                mapping("delay_ms", "delay_ms"),
                mapping("jitter_ms", "delay_jitter_ms"),
                mapping("loss_percent", "loss_percent"),
                mapping("duplicate_percent", "duplicate_percent"),
                mapping("reorder_percent", "reorder_percent"),
                mapping("corrupt_percent", "corrupt_percent"),
            ],
            Vec::new(),
            strings3("complex", "netem", "full"),
        );
        assert(template_model(t).parameters =~= complex_network_emulation_model().parameters);
        assert(template_model(t).parameter_mappings =~= complex_network_emulation_model().parameter_mappings);
        assert(template_model(t).raw_args =~= complex_network_emulation_model().raw_args);
        t
    }

    /// Conservative production rate limiting.
    pub fn production_rate_limit() -> (t: TcTemplate)
        ensures
            template_model(t) == production_rate_limit_model(),
    {
        let t = team_template(
            "production_rate_limit",
            "Production Rate Limiting",
            "Production-ready rate limiting with conservative settings",
            TemplateCategory::Production,
            vec![
                param(
                    "rate",
                    "Maximum rate (e.g., '100mbit')",
                    ParameterType::String,
                    ParameterValue::String(owned("100mbit")),
                    true,
                    None,
                ),
            ],
            TcOperation::Replace,
            QdiscType::Tbf,
            vec![mapping("rate", "rate")],
            strings4("burst", "128kbit", "limit", "10000b"),
            strings3("production", "stable", "rate"),
        );
        assert(template_model(t).parameters =~= production_rate_limit_model().parameters);
        assert(template_model(t).parameter_mappings =~= production_rate_limit_model().parameter_mappings);
        assert(template_model(t).raw_args =~= production_rate_limit_model().raw_args);
        t
    }

    /// High latency links by kind.
    pub fn testing_high_latency() -> (t: TcTemplate)
        ensures
            template_model(t) == testing_high_latency_model(),
    {
        let t = team_template(
            "testing_high_latency",
            "High Latency Testing",
            "Simulate high-latency connections for testing",
            TemplateCategory::Testing,
            vec![
                param(
                    "latency_type",
                    "Type of high latency connection",
                    ParameterType::Enum(strings3("satellite", "intercontinental", "extreme")),
                    ParameterValue::String(owned("satellite")),
                    true,
                    None,
                ),
            ],
            TcOperation::Replace,
            QdiscType::Netem,
            vec![mapping("latency_type", "latency_preset")],
            Vec::new(),
            strings3("testing", "latency", "high"),
        );
        assert(template_model(t).parameters =~= testing_high_latency_model().parameters);
        assert(template_model(t).parameter_mappings =~= testing_high_latency_model().parameter_mappings);
        assert(template_model(t).raw_args =~= testing_high_latency_model().raw_args);
        t
    }

    /// Packet corruption by severity.
    pub fn testing_packet_corruption() -> (t: TcTemplate)
        ensures
            template_model(t) == testing_packet_corruption_model(),
    {
        let t = team_template(
            "testing_packet_corruption",
            "Packet Corruption Testing",
            "Test application resilience with packet corruption",
            TemplateCategory::Testing,
            vec![
                param(
                    "corruption_level",
                    "Corruption severity level",
                    ParameterType::Enum(strings3("light", "moderate", "heavy")),
                    ParameterValue::String(owned("light")),
                    true,
                    None,
                ),
            ],
            TcOperation::Replace,
            QdiscType::Netem,
            vec![mapping("corruption_level", "corruption_preset")],
            Vec::new(),
            strings3("testing", "corruption", "resilience"),
        );
        assert(template_model(t).parameters =~= testing_packet_corruption_model().parameters);
        assert(template_model(t).parameter_mappings =~= testing_packet_corruption_model().parameter_mappings);
        assert(template_model(t).raw_args =~= testing_packet_corruption_model().raw_args);
        t
    }

    /// Priority bands.
    pub fn qos_priority_scheduling() -> (t: TcTemplate)
        ensures
            template_model(t) == qos_priority_scheduling_model(),
    {
        let t = team_template(
            "qos_priority",
            "QoS Priority Scheduling",
            "Priority-based quality of service scheduling",
            TemplateCategory::QualityOfService,
            vec![
                param(
                    "bands",
                    "Number of priority bands (2-16)",
                    ParameterType::Integer,
                    ParameterValue::Integer(3),
                    true,
                    bounds(Decimal::from_int(2), Decimal::from_int(16)),
                ),
            ],
            TcOperation::Replace,
            QdiscType::Prio,
            vec![mapping("bands", "bands")],
            Vec::new(),
            strings3("qos", "priority", "scheduling"),
        );
        assert(template_model(t).parameters =~= qos_priority_scheduling_model().parameters);
        assert(template_model(t).parameter_mappings =~= qos_priority_scheduling_model().parameter_mappings);
        assert(template_model(t).raw_args =~= qos_priority_scheduling_model().raw_args);
        t
    }
}


/// Why a template could not be used or changed.
#[derive(Debug, Clone)]
pub enum TemplateError {
    /// No template has this id.
    TemplateNotFound { id: String },
    /// A required parameter was not given.
    MissingParameter { name: String },
    /// A value is not of the parameter's type.
    TypeMismatch { name: String },
    /// A parameter's pattern does not compile.
    InvalidPattern { pattern: String },
    /// A string does not match the parameter's pattern.
    PatternMismatch { name: String },
    /// A string is not among the allowed values.
    NotAllowed { name: String },
    /// A number is below the minimum.
    BelowMinimum { name: String },
    /// A number is above the maximum.
    AboveMaximum { name: String },
    /// A word is not one of the enumeration's.
    NotInEnum { name: String },
    /// A preset name is not known.
    UnknownPreset { value: String },
    /// A user template would take the id of a predefined one.
    PredefinedConflict { id: String },
    /// No user template has this id.
    CustomNotFound { id: String },
    /// The command could not be built.
    Build(BuildError),
}

/// The content of a `TemplateError`, with texts as character sequences.
pub enum TemplateFault {
    TemplateNotFound(Seq<char>),
    MissingParameter(Seq<char>),
    TypeMismatch(Seq<char>),
    InvalidPattern(Seq<char>),
    PatternMismatch(Seq<char>),
    NotAllowed(Seq<char>),
    BelowMinimum(Seq<char>),
    AboveMaximum(Seq<char>),
    NotInEnum(Seq<char>),
    UnknownPreset(Seq<char>),
    PredefinedConflict(Seq<char>),
    CustomNotFound(Seq<char>),
    Build(BuildError),
}

impl View for TemplateError {
    type V = TemplateFault;

    open spec fn view(&self) -> TemplateFault {
        match self {
            TemplateError::TemplateNotFound { id } => TemplateFault::TemplateNotFound(id@),
            TemplateError::MissingParameter { name } => TemplateFault::MissingParameter(name@),
            TemplateError::TypeMismatch { name } => TemplateFault::TypeMismatch(name@),
            TemplateError::InvalidPattern { pattern } => TemplateFault::InvalidPattern(pattern@),
            TemplateError::PatternMismatch { name } => TemplateFault::PatternMismatch(name@),
            TemplateError::NotAllowed { name } => TemplateFault::NotAllowed(name@),
            TemplateError::BelowMinimum { name } => TemplateFault::BelowMinimum(name@),
            TemplateError::AboveMaximum { name } => TemplateFault::AboveMaximum(name@),
            TemplateError::NotInEnum { name } => TemplateFault::NotInEnum(name@),
            TemplateError::UnknownPreset { value } => TemplateFault::UnknownPreset(value@),
            TemplateError::PredefinedConflict { id } => TemplateFault::PredefinedConflict(id@),
            TemplateError::CustomNotFound { id } => TemplateFault::CustomNotFound(id@),
            TemplateError::Build(e) => TemplateFault::Build(*e),
        }
    }
}

/// A result whose error is given by an optional fault.
pub open spec fn fault_result<T>(r: Result<T, TemplateError>, f: Option<TemplateFault>) -> bool {
    match f {
        None => r is Ok,
        Some(x) => r matches Err(e) && e@ == x,
    }
}

/// `i < m` for an integer and a decimal.
pub open spec fn int_below(i: i64, m: Decimal) -> bool {
    (i as int) * pow10(m.exp()) < m.num()
}

/// `i > m` for an integer and a decimal.
pub open spec fn int_above(i: i64, m: Decimal) -> bool {
    m.num() < (i as int) * pow10(m.exp())
}

/// What is wrong with a value for a parameter, given the outcome of its
/// pattern check (nothing when the pattern does not compile): a value of
/// another type; for strings the pattern, then the allowed values; for
/// numbers the minimum, then the maximum; for an enumeration its words.
pub open spec fn param_fault(p: TemplateParameter, v: ParameterValue, outcome: Option<bool>) -> Option<
    TemplateFault,
> {
    match (p.param_type, v) {
        (ParameterType::String, ParameterValue::String(s)) => match p.constraints {
            Some(c) => if c.pattern is Some && outcome is None {
                Some(TemplateFault::InvalidPattern(c.pattern->0@))
            } else if c.pattern is Some && outcome == Some(false) {
                Some(TemplateFault::PatternMismatch(p.name@))
            } else if c.allowed_values matches Some(a) && !a.deep_view().contains(s@) {
                Some(TemplateFault::NotAllowed(p.name@))
            } else {
                None
            },
            None => None,
        },
        (ParameterType::Integer, ParameterValue::Integer(i)) => match p.constraints {
            Some(c) => if c.min matches Some(m) && int_below(i, m) {
                Some(TemplateFault::BelowMinimum(p.name@))
            } else if c.max matches Some(m) && int_above(i, m) {
                Some(TemplateFault::AboveMaximum(p.name@))
            } else {
                None
            },
            None => None,
        },
        (ParameterType::Float, ParameterValue::Float(f)) => match p.constraints {
            Some(c) => if c.min matches Some(m) && f.value_lt(m) {
                Some(TemplateFault::BelowMinimum(p.name@))
            } else if c.max matches Some(m) && m.value_lt(f) {
                Some(TemplateFault::AboveMaximum(p.name@))
            } else {
                None
            },
            None => None,
        },
        (ParameterType::Boolean, ParameterValue::Boolean(_)) => None,
        (ParameterType::Enum(words), ParameterValue::String(s)) => if !words.deep_view().contains(
            s@,
        ) {
            Some(TemplateFault::NotInEnum(p.name@))
        } else {
            None
        },
        _ => Some(TemplateFault::TypeMismatch(p.name@)),
    }
}

/// The pattern check a value needs: a string value for a string parameter
/// whose constraints hold a pattern.
pub open spec fn pattern_check_of(p: TemplateParameter, v: ParameterValue) -> Option<bool> {
    match (p.param_type, v, p.constraints) {
        (ParameterType::String, ParameterValue::String(s), Some(c)) => match c.pattern {
            Some(pat) => pattern_outcome(pat@, s@),
            None => None,
        },
        _ => None,
    }
}

/// Checks a value against a parameter, given the outcome of its pattern
/// check (see `param_fault`).
pub fn check_parameter_value(
    param: &TemplateParameter,
    value: &ParameterValue,
    outcome: Option<bool>,
) -> (r: Result<(), TemplateError>)
    ensures
        fault_result(r, param_fault(*param, *value, outcome)),
{
    let name = param.name.as_str();
    match (&param.param_type, value) {
        (ParameterType::String, ParameterValue::String(s)) => {
            match &param.constraints {
                Some(c) => {
                    match &c.pattern {
                        Some(pat) => match outcome {
                            None => {
                                return Err(TemplateError::InvalidPattern { pattern: owned(pat.as_str()) });
                            },
                            Some(false) => {
                                return Err(TemplateError::PatternMismatch { name: owned(name) });
                            },
                            Some(true) => {},
                        },
                        None => {},
                    }
                    match &c.allowed_values {
                        Some(a) => {
                            if !contains_string(a, s.as_str()) {
                                return Err(TemplateError::NotAllowed { name: owned(name) });
                            }
                        },
                        None => {},
                    }
                    Ok(())
                },
                None => Ok(()),
            }
        },
        (ParameterType::Integer, ParameterValue::Integer(i)) => {
            match &param.constraints {
                Some(c) => {
                    let d = Decimal::from_int(*i);
                    proof {
                        assert(pow10(0nat) == 1);
                        assert(d.exp() == 0);
                    }
                    match &c.min {
                        Some(m) => {
                            if d.less_than(m) {
                                return Err(TemplateError::BelowMinimum { name: owned(name) });
                            }
                        },
                        None => {},
                    }
                    match &c.max {
                        Some(m) => {
                            if m.less_than(&d) {
                                return Err(TemplateError::AboveMaximum { name: owned(name) });
                            }
                        },
                        None => {},
                    }
                    Ok(())
                },
                None => Ok(()),
            }
        },
        (ParameterType::Float, ParameterValue::Float(f)) => {
            match &param.constraints {
                Some(c) => {
                    match &c.min {
                        Some(m) => {
                            if f.less_than(m) {
                                return Err(TemplateError::BelowMinimum { name: owned(name) });
                            }
                        },
                        None => {},
                    }
                    match &c.max {
                        Some(m) => {
                            if m.less_than(f) {
                                return Err(TemplateError::AboveMaximum { name: owned(name) });
                            }
                        },
                        None => {},
                    }
                    Ok(())
                },
                None => Ok(()),
            }
        },
        (ParameterType::Boolean, ParameterValue::Boolean(_)) => Ok(()),
        (ParameterType::Enum(words), ParameterValue::String(s)) => {
            if !contains_string(words, s.as_str()) {
                Err(TemplateError::NotInEnum { name: owned(name) })
            } else {
                Ok(())
            }
        },
        _ => Err(TemplateError::TypeMismatch { name: owned(name) }),
    }
}

/// Checks a value against a parameter, running the pattern check when the
/// parameter has one.
pub fn validate_parameter_value(param: &TemplateParameter, value: &ParameterValue) -> (r: Result<
    (),
    TemplateError,
>)
    ensures
        fault_result(r, param_fault(*param, *value, pattern_check_of(*param, *value))),
{
    let outcome = match (&param.param_type, value, &param.constraints) {
        (ParameterType::String, ParameterValue::String(s), Some(c)) => match &c.pattern {
            Some(pat) => match_pattern(pat.as_str(), s.as_str()),
            None => None,
        },
        _ => None,
    };
    check_parameter_value(param, value, outcome)
}


/// A numeric value as a decimal: floats as they are, integers exactly.
pub open spec fn number_of(v: ParameterValue) -> Option<Decimal> {
    match v {
        ParameterValue::Float(f) => Some(f),
        ParameterValue::Integer(i) => Some(Decimal::of(i, 0)),
        _ => None,
    }
}

/// A float value.
pub open spec fn float_of(v: ParameterValue) -> Option<Decimal> {
    match v {
        ParameterValue::Float(f) => Some(f),
        _ => None,
    }
}

/// `new` when present, else `cur`.
pub open spec fn set_if<T>(cur: Option<T>, new: Option<T>) -> Option<T> {
    match new {
        Some(x) => Some(x),
        None => cur,
    }
}

/// Netem settings with nothing set.
pub open spec fn no_netem() -> NetemParams {
    NetemParams {
        loss_percent: None,
        loss_correlation: None,
        delay_ms: None,
        delay_jitter_ms: None,
        delay_correlation: None,
        duplicate_percent: None,
        duplicate_correlation: None,
        reorder_percent: None,
        reorder_correlation: None,
        reorder_gap: None,
        corrupt_percent: None,
        corrupt_correlation: None,
        rate_limit_kbps: None,
    }
}

/// The delay, jitter, loss and loss correlation of a signal strength.
pub open spec fn signal_preset(p: NetemParams, s: Seq<char>) -> Option<NetemParams> {
    if s == "excellent"@ {
        Some(
            NetemParams {
                delay_ms: Some(Decimal::of(5, 0)),
                delay_jitter_ms: Some(Decimal::of(1, 0)),
                loss_percent: Some(Decimal::of(1, 2)),
                ..p
            },
        )
    } else if s == "good"@ {
        Some(
            NetemParams {
                delay_ms: Some(Decimal::of(20, 0)),
                delay_jitter_ms: Some(Decimal::of(5, 0)),
                loss_percent: Some(Decimal::of(1, 1)),
                ..p
            },
        )
    } else if s == "fair"@ {
        Some(
            NetemParams {
                delay_ms: Some(Decimal::of(100, 0)),
                delay_jitter_ms: Some(Decimal::of(50, 0)),
                loss_percent: Some(Decimal::of(1, 0)),
                loss_correlation: Some(Decimal::of(25, 0)),
                ..p
            },
        )
    } else if s == "poor"@ {
        Some(
            NetemParams {
                delay_ms: Some(Decimal::of(300, 0)),
                delay_jitter_ms: Some(Decimal::of(150, 0)),
                loss_percent: Some(Decimal::of(5, 0)),
                loss_correlation: Some(Decimal::of(50, 0)),
                ..p
            },
        )
    } else {
        None
    }
}

/// The delay and jitter of a high-latency link kind.
pub open spec fn latency_preset(p: NetemParams, s: Seq<char>) -> Option<NetemParams> {
    if s == "satellite"@ {
        Some(
            NetemParams {
                delay_ms: Some(Decimal::of(600, 0)),
                delay_jitter_ms: Some(Decimal::of(50, 0)),
                ..p
            },
        )
    } else if s == "intercontinental"@ {
        Some(
            NetemParams {
                delay_ms: Some(Decimal::of(200, 0)),
                delay_jitter_ms: Some(Decimal::of(20, 0)),
                ..p
            },
        )
    } else if s == "extreme"@ {
        Some(
            NetemParams {
                delay_ms: Some(Decimal::of(2000, 0)),
                delay_jitter_ms: Some(Decimal::of(500, 0)),
                ..p
            },
        )
    } else {
        None
    }
}

/// The corruption and its correlation of a severity.
pub open spec fn corruption_preset(p: NetemParams, s: Seq<char>) -> Option<NetemParams> {
    if s == "light"@ {
        Some(NetemParams { corrupt_percent: Some(Decimal::of(1, 2)), ..p })
    } else if s == "moderate"@ {
        Some(
            NetemParams {
                corrupt_percent: Some(Decimal::of(1, 1)),
                corrupt_correlation: Some(Decimal::of(10, 0)),
                ..p
            },
        )
    } else if s == "heavy"@ {
        Some(
            NetemParams {
                corrupt_percent: Some(Decimal::of(1, 0)),
                corrupt_correlation: Some(Decimal::of(50, 0)),
                ..p
            },
        )
    } else {
        None
    }
}

/// A preset applied by a string value; other values change nothing.
pub open spec fn preset_result(
    p: NetemParams,
    v: ParameterValue,
    preset: spec_fn(NetemParams, Seq<char>) -> Option<NetemParams>,
) -> Result<NetemParams, TemplateFault> {
    match v {
        ParameterValue::String(s) => match preset(p, s@) {
            Some(q) => Ok(q),
            None => Err(TemplateFault::UnknownPreset(s@)),
        },
        _ => Ok(p),
    }
}

/// A rate in Mbit/s as kbit/s: times 1000, saturating at the bounds of
/// `u32` (a negative rate gives 0).
pub open spec fn mbit_to_kbit(i: i64) -> u32 {
    if i <= 0 {
        0
    } else if i * 1000 > u32::MAX {
        u32::MAX
    } else {
        (i * 1000) as u32
    }
}

/// Netem settings after one parameter value reaches the setting it maps to.
/// Delay, jitter and loss take integers and floats; correlations and the
/// other percentages take floats; the rate takes an integer, in kbit/s or,
/// scaled by 1000, in Mbit/s; the three
/// preset mappings take a preset name; other values and mappings change
/// nothing.
pub open spec fn apply_netem_mapping(p: NetemParams, mapping: Seq<char>, v: ParameterValue) -> Result<
    NetemParams,
    TemplateFault,
> {
    if mapping == "delay_ms"@ {
        Ok(NetemParams { delay_ms: set_if(p.delay_ms, number_of(v)), ..p })
    } else if mapping == "delay_jitter_ms"@ {
        Ok(NetemParams { delay_jitter_ms: set_if(p.delay_jitter_ms, number_of(v)), ..p })
    } else if mapping == "loss_percent"@ {
        Ok(NetemParams { loss_percent: set_if(p.loss_percent, number_of(v)), ..p })
    } else if mapping == "loss_correlation"@ {
        Ok(NetemParams { loss_correlation: set_if(p.loss_correlation, float_of(v)), ..p })
    } else if mapping == "duplicate_percent"@ {
        Ok(NetemParams { duplicate_percent: set_if(p.duplicate_percent, float_of(v)), ..p })
    } else if mapping == "reorder_percent"@ {
        Ok(NetemParams { reorder_percent: set_if(p.reorder_percent, float_of(v)), ..p })
    } else if mapping == "corrupt_percent"@ {
        Ok(NetemParams { corrupt_percent: set_if(p.corrupt_percent, float_of(v)), ..p })
    } else if mapping == "rate_limit_kbps"@ {
        match v {
            ParameterValue::Integer(i) => Ok(NetemParams { rate_limit_kbps: Some(i as u32), ..p }),
            _ => Ok(p),
        }
    } else if mapping == "rate_limit_mbps"@ {
        match v {
            ParameterValue::Integer(i) => Ok(NetemParams { rate_limit_kbps: Some(mbit_to_kbit(i)), ..p }),
            _ => Ok(p),
        }
    } else if mapping == "loss_delay_mapping"@ {
        preset_result(p, v, |q: NetemParams, s: Seq<char>| signal_preset(q, s))
    } else if mapping == "latency_preset"@ {
        preset_result(p, v, |q: NetemParams, s: Seq<char>| latency_preset(q, s))
    } else if mapping == "corruption_preset"@ {
        preset_result(p, v, |q: NetemParams, s: Seq<char>| corruption_preset(q, s))
    } else {
        Ok(p)
    }
}

/// Each plain netem mapping sets its own setting to the value given and
/// leaves every other setting as it was: delay, jitter and loss take a
/// float or an integer (as a whole number); loss correlation,
/// duplication, reordering and corruption take a float and ignore an
/// integer; the kbit/s rate takes an integer (cast to 32 bits) and ignores
/// a float; the Mbit/s rate takes an integer scaled by 1000.
pub proof fn law_netem_mapping_sets_its_setting(p: NetemParams, v: Decimal, i: i64)
    ensures
        apply_netem_mapping(p, "delay_ms"@, ParameterValue::Float(v)) == Ok::<
            NetemParams,
            TemplateFault,
        >(NetemParams { delay_ms: Some(v), ..p }),
        apply_netem_mapping(p, "delay_ms"@, ParameterValue::Integer(i)) == Ok::<
            NetemParams,
            TemplateFault,
        >(NetemParams { delay_ms: Some(Decimal::of(i, 0)), ..p }),
        apply_netem_mapping(p, "delay_jitter_ms"@, ParameterValue::Float(v)) == Ok::<
            NetemParams,
            TemplateFault,
        >(NetemParams { delay_jitter_ms: Some(v), ..p }),
        apply_netem_mapping(p, "delay_jitter_ms"@, ParameterValue::Integer(i)) == Ok::<
            NetemParams,
            TemplateFault,
        >(NetemParams { delay_jitter_ms: Some(Decimal::of(i, 0)), ..p }),
        apply_netem_mapping(p, "loss_percent"@, ParameterValue::Float(v)) == Ok::<
            NetemParams,
            TemplateFault,
        >(NetemParams { loss_percent: Some(v), ..p }),
        apply_netem_mapping(p, "loss_percent"@, ParameterValue::Integer(i)) == Ok::<
            NetemParams,
            TemplateFault,
        >(NetemParams { loss_percent: Some(Decimal::of(i, 0)), ..p }),
        apply_netem_mapping(p, "loss_correlation"@, ParameterValue::Float(v)) == Ok::<
            NetemParams,
            TemplateFault,
        >(NetemParams { loss_correlation: Some(v), ..p }),
        apply_netem_mapping(p, "loss_correlation"@, ParameterValue::Integer(i)) == Ok::<
            NetemParams,
            TemplateFault,
        >(p),
        apply_netem_mapping(p, "duplicate_percent"@, ParameterValue::Float(v)) == Ok::<
            NetemParams,
            TemplateFault,
        >(NetemParams { duplicate_percent: Some(v), ..p }),
        apply_netem_mapping(p, "duplicate_percent"@, ParameterValue::Integer(i)) == Ok::<
            NetemParams,
            TemplateFault,
        >(p),
        apply_netem_mapping(p, "reorder_percent"@, ParameterValue::Float(v)) == Ok::<
            NetemParams,
            TemplateFault,
        >(NetemParams { reorder_percent: Some(v), ..p }),
        apply_netem_mapping(p, "reorder_percent"@, ParameterValue::Integer(i)) == Ok::<
            NetemParams,
            TemplateFault,
        >(p),
        apply_netem_mapping(p, "corrupt_percent"@, ParameterValue::Float(v)) == Ok::<
            NetemParams,
            TemplateFault,
        >(NetemParams { corrupt_percent: Some(v), ..p }),
        apply_netem_mapping(p, "corrupt_percent"@, ParameterValue::Integer(i)) == Ok::<
            NetemParams,
            TemplateFault,
        >(p),
        apply_netem_mapping(p, "rate_limit_kbps"@, ParameterValue::Integer(i)) == Ok::<
            NetemParams,
            TemplateFault,
        >(NetemParams { rate_limit_kbps: Some(i as u32), ..p }),
        apply_netem_mapping(p, "rate_limit_kbps"@, ParameterValue::Float(v)) == Ok::<
            NetemParams,
            TemplateFault,
        >(p),
        0 < i && i * 1000 <= u32::MAX ==> apply_netem_mapping(
            p,
            "rate_limit_mbps"@,
            ParameterValue::Integer(i),
        ) == Ok::<NetemParams, TemplateFault>(
            NetemParams { rate_limit_kbps: Some((i * 1000) as u32), ..p },
        ),
{
    reveal_strlit("delay_ms");
    reveal_strlit("delay_jitter_ms");
    reveal_strlit("loss_percent");
    reveal_strlit("loss_correlation");
    reveal_strlit("duplicate_percent");
    reveal_strlit("reorder_percent");
    reveal_strlit("corrupt_percent");
    reveal_strlit("rate_limit_kbps");
    reveal_strlit("rate_limit_mbps");
    assert("delay_jitter_ms"@.len() != "delay_ms"@.len());
    assert("loss_percent"@.len() != "delay_ms"@.len());
    assert("loss_percent"@.len() != "delay_jitter_ms"@.len());
    assert("loss_correlation"@.len() != "delay_ms"@.len());
    assert("loss_correlation"@.len() != "delay_jitter_ms"@.len());
    assert("loss_correlation"@.len() != "loss_percent"@.len());
    assert("duplicate_percent"@.len() != "delay_ms"@.len());
    assert("duplicate_percent"@.len() != "delay_jitter_ms"@.len());
    assert("duplicate_percent"@.len() != "loss_percent"@.len());
    assert("duplicate_percent"@.len() != "loss_correlation"@.len());
    assert("reorder_percent"@.len() != "delay_ms"@.len());
    assert("reorder_percent"@[0] != "delay_jitter_ms"@[0]);
    assert("reorder_percent"@.len() != "loss_percent"@.len());
    assert("reorder_percent"@.len() != "loss_correlation"@.len());
    assert("reorder_percent"@.len() != "duplicate_percent"@.len());
    assert("corrupt_percent"@.len() != "delay_ms"@.len());
    assert("corrupt_percent"@[0] != "delay_jitter_ms"@[0]);
    assert("corrupt_percent"@.len() != "loss_percent"@.len());
    assert("corrupt_percent"@.len() != "loss_correlation"@.len());
    assert("corrupt_percent"@.len() != "duplicate_percent"@.len());
    assert("corrupt_percent"@[0] != "reorder_percent"@[0]);
    assert("rate_limit_kbps"@.len() != "delay_ms"@.len());
    assert("rate_limit_kbps"@[0] != "delay_jitter_ms"@[0]);
    assert("rate_limit_kbps"@.len() != "loss_percent"@.len());
    assert("rate_limit_kbps"@.len() != "loss_correlation"@.len());
    assert("rate_limit_kbps"@.len() != "duplicate_percent"@.len());
    assert("rate_limit_kbps"@[1] != "reorder_percent"@[1]);
    assert("rate_limit_kbps"@[0] != "corrupt_percent"@[0]);
    assert("rate_limit_mbps"@.len() != "delay_ms"@.len());
    assert("rate_limit_mbps"@[0] != "delay_jitter_ms"@[0]);
    assert("rate_limit_mbps"@.len() != "loss_percent"@.len());
    assert("rate_limit_mbps"@.len() != "loss_correlation"@.len());
    assert("rate_limit_mbps"@.len() != "duplicate_percent"@.len());
    assert("rate_limit_mbps"@[1] != "reorder_percent"@[1]);
    assert("rate_limit_mbps"@[0] != "corrupt_percent"@[0]);
    assert("rate_limit_mbps"@[11] != "rate_limit_kbps"@[11]);
}

/// Token bucket texts after one string value reaches the setting it maps
/// to; other values and mappings change nothing.
pub open spec fn apply_tbf_mapping(t: TbfModel, mapping: Seq<char>, v: ParameterValue) -> TbfModel {
    match v {
        ParameterValue::String(s) => if mapping == "rate"@ {
            (s@, t.1, t.2, t.3, t.4)
        } else if mapping == "burst"@ {
            (t.0, Some(s@), t.2, t.3, t.4)
        } else if mapping == "limit"@ {
            (t.0, t.1, Some(s@), t.3, t.4)
        } else if mapping == "peakrate"@ {
            (t.0, t.1, t.2, Some(s@), t.4)
        } else if mapping == "mtu"@ {
            (t.0, t.1, t.2, t.3, Some(s@))
        } else {
            t
        },
        _ => t,
    }
}

/// The parameter names of a mapping list.
pub open spec fn mapping_keys(m: Seq<(String, String)>) -> Seq<Seq<char>> {
    m.map_values(|x: (String, String)| x.0@)
}

/// The setting a parameter maps to: that of its first mapping.
pub open spec fn mapping_for(m: Seq<(String, String)>, name: Seq<char>) -> Option<Seq<char>> {
    match first_index(mapping_keys(m), name) {
        Some(k) => Some(m[k].1@),
        None => None,
    }
}

/// Netem settings after every value, in order, reaches its mapping; the
/// first unknown preset stops it.
pub open spec fn netem_fold(
    p: NetemParams,
    m: Seq<(String, String)>,
    values: Seq<(String, ParameterValue)>,
) -> Result<NetemParams, TemplateFault>
    decreases values.len(),
{
    if values.len() == 0 {
        Ok(p)
    } else {
        match netem_fold(p, m, values.drop_last()) {
            Err(f) => Err(f),
            Ok(q) => match mapping_for(m, values.last().0@) {
                Some(t) => apply_netem_mapping(q, t, values.last().1),
                None => Ok(q),
            },
        }
    }
}

/// The starting token bucket texts: a rate of `1mbit` and nothing else.
pub open spec fn tbf_start() -> TbfModel {
    ("1mbit"@, None, None, None, None)
}

/// Token bucket texts after every value, in order, reaches its mapping.
pub open spec fn tbf_fold(t: TbfModel, m: Seq<(String, String)>, values: Seq<(String, ParameterValue)>) -> TbfModel
    decreases values.len(),
{
    if values.len() == 0 {
        t
    } else {
        let q = tbf_fold(t, m, values.drop_last());
        match mapping_for(m, values.last().0@) {
            Some(k) => apply_tbf_mapping(q, k, values.last().1),
            None => q,
        }
    }
}

/// The index of the first mapping for `name`.
fn find_mapping(m: &Vec<(String, String)>, name: &str) -> (r: Option<usize>)
    ensures
        match r {
            Some(k) => k < m@.len() && first_index(mapping_keys(m@), name@) == Some(k as int),
            None => first_index(mapping_keys(m@), name@) is None,
        },
{
    let mut i: usize = 0;
    while i < m.len()
        invariant
            i <= m@.len(),
            forall|j: int| 0 <= j < i ==> mapping_keys(m@)[j] != name@,
        decreases m.len() - i,
    {
        if str_eq(m[i].0.as_str(), name) {
            proof {
                lemma_first_index_found(mapping_keys(m@), name@, Some(i as int));
            }
            return Some(i);
        }
        i = i + 1;
    }
    proof {
        lemma_first_index_found(mapping_keys(m@), name@, None);
    }
    None
}

/// A float value.
fn float_value(v: &ParameterValue) -> (r: Option<Decimal>)
    ensures
        r == float_of(*v),
{
    match v {
        ParameterValue::Float(f) => Some(*f),
        _ => None,
    }
}

/// A numeric value as a decimal.
fn number_value(v: &ParameterValue) -> (r: Option<Decimal>)
    ensures
        r == number_of(*v),
{
    match v {
        ParameterValue::Float(f) => Some(*f),
        ParameterValue::Integer(i) => Some(Decimal::from_int(*i)),
        _ => None,
    }
}

fn set_decimal(cur: Option<Decimal>, new: Option<Decimal>) -> (r: Option<Decimal>)
    ensures
        r == set_if(cur, new),
{
    match new {
        Some(x) => Some(x),
        None => cur,
    }
}

/// Applies a signal strength preset.
fn apply_signal_strength_preset(p: NetemParams, s: &str) -> (r: Option<NetemParams>)
    ensures
        r == signal_preset(p, s@),
{
    if str_eq(s, "excellent") {
        Some(
            NetemParams {
                delay_ms: Some(Decimal::from_int(5)),
                delay_jitter_ms: Some(Decimal::from_int(1)),
                loss_percent: Some(Decimal::new(1, 2)),
                ..p
            },
        )
    } else if str_eq(s, "good") {
        Some(
            NetemParams {
                delay_ms: Some(Decimal::from_int(20)),
                delay_jitter_ms: Some(Decimal::from_int(5)),
                loss_percent: Some(Decimal::new(1, 1)),
                ..p
            },
        )
    } else if str_eq(s, "fair") {
        Some(
            NetemParams {
                delay_ms: Some(Decimal::from_int(100)),
                delay_jitter_ms: Some(Decimal::from_int(50)),
                loss_percent: Some(Decimal::from_int(1)),
                loss_correlation: Some(Decimal::from_int(25)),
                ..p
            },
        )
    } else if str_eq(s, "poor") {
        Some(
            NetemParams {
                delay_ms: Some(Decimal::from_int(300)),
                delay_jitter_ms: Some(Decimal::from_int(150)),
                loss_percent: Some(Decimal::from_int(5)),
                loss_correlation: Some(Decimal::from_int(50)),
                ..p
            },
        )
    } else {
        None
    }
}

/// Applies a high-latency preset.
fn apply_latency_preset(p: NetemParams, s: &str) -> (r: Option<NetemParams>)
    ensures
        r == latency_preset(p, s@),
{
    if str_eq(s, "satellite") {
        Some(
            NetemParams {
                delay_ms: Some(Decimal::from_int(600)),
                delay_jitter_ms: Some(Decimal::from_int(50)),
                ..p
            },
        )
    } else if str_eq(s, "intercontinental") {
        Some(
            NetemParams {
                delay_ms: Some(Decimal::from_int(200)),
                delay_jitter_ms: Some(Decimal::from_int(20)),
                ..p
            },
        )
    } else if str_eq(s, "extreme") {
        Some(
            NetemParams {
                delay_ms: Some(Decimal::from_int(2000)),
                delay_jitter_ms: Some(Decimal::from_int(500)),
                ..p
            },
        )
    } else {
        None
    }
}

/// Applies a corruption preset.
fn apply_corruption_preset(p: NetemParams, s: &str) -> (r: Option<NetemParams>)
    ensures
        r == corruption_preset(p, s@),
{
    if str_eq(s, "light") {
        Some(NetemParams { corrupt_percent: Some(Decimal::new(1, 2)), ..p })
    } else if str_eq(s, "moderate") {
        Some(
            NetemParams {
                corrupt_percent: Some(Decimal::new(1, 1)),
                corrupt_correlation: Some(Decimal::from_int(10)),
                ..p
            },
        )
    } else if str_eq(s, "heavy") {
        Some(
            NetemParams {
                corrupt_percent: Some(Decimal::from_int(1)),
                corrupt_correlation: Some(Decimal::from_int(50)),
                ..p
            },
        )
    } else {
        None
    }
}

/// Applies a preset named by a string value.
fn apply_preset(p: NetemParams, v: &ParameterValue, which: u8) -> (r: Result<NetemParams, TemplateError>)
    requires
        which < 3,
    ensures
        match preset_result(
            p,
            *v,
            if which == 0 {
                |q: NetemParams, s: Seq<char>| signal_preset(q, s)
            } else if which == 1 {
                |q: NetemParams, s: Seq<char>| latency_preset(q, s)
            } else {
                |q: NetemParams, s: Seq<char>| corruption_preset(q, s)
            },
        ) {
            Ok(q) => r == Ok::<NetemParams, TemplateError>(q),
            Err(f) => r matches Err(e) && e@ == f,
        },
{
    match v {
        ParameterValue::String(s) => {
            let got = if which == 0 {
                apply_signal_strength_preset(p, s.as_str())
            } else if which == 1 {
                apply_latency_preset(p, s.as_str())
            } else {
                apply_corruption_preset(p, s.as_str())
            };
            match got {
                Some(q) => Ok(q),
                None => Err(TemplateError::UnknownPreset { value: owned(s.as_str()) }),
            }
        },
        _ => Ok(p),
    }
}

/// Netem settings after one value reaches its mapping (see
/// `apply_netem_mapping`).
pub fn apply_netem_parameter(p: NetemParams, mapping: &str, v: &ParameterValue) -> (r: Result<
    NetemParams,
    TemplateError,
>)
    ensures
        match apply_netem_mapping(p, mapping@, *v) {
            Ok(q) => r == Ok::<NetemParams, TemplateError>(q),
            Err(f) => r matches Err(e) && e@ == f,
        },
{
    if str_eq(mapping, "delay_ms") {
        Ok(NetemParams { delay_ms: set_decimal(p.delay_ms, number_value(v)), ..p })
    } else if str_eq(mapping, "delay_jitter_ms") {
        Ok(NetemParams { delay_jitter_ms: set_decimal(p.delay_jitter_ms, number_value(v)), ..p })
    } else if str_eq(mapping, "loss_percent") {
        Ok(NetemParams { loss_percent: set_decimal(p.loss_percent, number_value(v)), ..p })
    } else if str_eq(mapping, "loss_correlation") {
        Ok(NetemParams { loss_correlation: set_decimal(p.loss_correlation, float_value(v)), ..p })
    } else if str_eq(mapping, "duplicate_percent") {
        Ok(NetemParams { duplicate_percent: set_decimal(p.duplicate_percent, float_value(v)), ..p })
    } else if str_eq(mapping, "reorder_percent") {
        Ok(NetemParams { reorder_percent: set_decimal(p.reorder_percent, float_value(v)), ..p })
    } else if str_eq(mapping, "corrupt_percent") {
        Ok(NetemParams { corrupt_percent: set_decimal(p.corrupt_percent, float_value(v)), ..p })
    } else if str_eq(mapping, "rate_limit_kbps") {
        match v {
            ParameterValue::Integer(i) => {
                let r: u32 = *i as u32;
                Ok(NetemParams { rate_limit_kbps: Some(r), ..p })
            },
            _ => Ok(p),
        }
    } else if str_eq(mapping, "rate_limit_mbps") {
        match v {
            ParameterValue::Integer(i) => {
                let r: u32 = if *i <= 0 {
                    0
                } else if *i > 4294967 {
                    u32::MAX
                } else {
                    let m: u32 = *i as u32;
                    m * 1000
                };
                Ok(NetemParams { rate_limit_kbps: Some(r), ..p })
            },
            _ => Ok(p),
        }
    } else if str_eq(mapping, "loss_delay_mapping") {
        apply_preset(p, v, 0)
    } else if str_eq(mapping, "latency_preset") {
        apply_preset(p, v, 1)
    } else if str_eq(mapping, "corruption_preset") {
        apply_preset(p, v, 2)
    } else {
        Ok(p)
    }
}

/// Token bucket settings after one value reaches its mapping (see
/// `apply_tbf_mapping`).
pub fn apply_tbf_parameter(t: &mut TbfParams, mapping: &str, v: &ParameterValue)
    ensures
        final(t)@ == apply_tbf_mapping(old(t)@, mapping@, *v),
{
    match v {
        ParameterValue::String(s) => {
            if str_eq(mapping, "rate") {
                t.rate = owned(s.as_str());
            } else if str_eq(mapping, "burst") {
                t.burst = Some(owned(s.as_str()));
            } else if str_eq(mapping, "limit") {
                t.limit = Some(owned(s.as_str()));
            } else if str_eq(mapping, "peakrate") {
                t.peakrate = Some(owned(s.as_str()));
            } else if str_eq(mapping, "mtu") {
                t.mtu = Some(owned(s.as_str()));
            }
        },
        _ => {},
    }
}


/// Once the fold over a prefix has failed, the fold over the whole list
/// fails the same way.
pub proof fn lemma_netem_fold_stops(
    p: NetemParams,
    m: Seq<(String, String)>,
    values: Seq<(String, ParameterValue)>,
    i: int,
)
    requires
        0 <= i <= values.len(),
        netem_fold(p, m, values.subrange(0, i)) is Err,
    ensures
        netem_fold(p, m, values) == netem_fold(p, m, values.subrange(0, i)),
    decreases values.len() - i,
{
    if i < values.len() {
        let next = values.subrange(0, i + 1);
        assert(next.drop_last() =~= values.subrange(0, i));
        lemma_netem_fold_stops(p, m, values, i + 1);
    } else {
        assert(values.subrange(0, i) =~= values);
    }
}

/// Netem settings from parameter values (see `netem_fold`).
pub fn netem_from_parameters(m: &Vec<(String, String)>, values: &Vec<(String, ParameterValue)>) -> (r:
    Result<NetemParams, TemplateError>)
    ensures
        match netem_fold(no_netem(), m@, values@) {
            Ok(n) => r == Ok::<NetemParams, TemplateError>(n),
            Err(f) => r matches Err(e) && e@ == f,
        },
{
    let mut p = NetemParams::default();
    assert(p == no_netem());
    let mut i: usize = 0;
    while i < values.len()
        invariant
            i <= values@.len(),
            netem_fold(no_netem(), m@, values@.subrange(0, i as int)) == Ok::<
                NetemParams,
                TemplateFault,
            >(p),
        decreases values.len() - i,
    {
        let ghost prefix = values@.subrange(0, i as int);
        let ghost next = values@.subrange(0, i + 1);
        proof {
            assert(next.drop_last() =~= prefix);
            assert(next.last() == values@[i as int]);
        }
        match find_mapping(m, values[i].0.as_str()) {
            Some(k) => {
                match apply_netem_parameter(p, m[k].1.as_str(), &values[i].1) {
                    Ok(q) => {
                        p = q;
                    },
                    Err(e) => {
                        proof {
                            lemma_netem_fold_stops(no_netem(), m@, values@, i + 1);
                        }
                        return Err(e);
                    },
                }
            },
            None => {},
        }
        i = i + 1;
    }
    assert(values@.subrange(0, values@.len() as int) =~= values@);
    Ok(p)
}

/// Token bucket settings from parameter values (see `tbf_fold`).
pub fn tbf_from_parameters(m: &Vec<(String, String)>, values: &Vec<(String, ParameterValue)>) -> (t:
    TbfParams)
    ensures
        t@ == tbf_fold(tbf_start(), m@, values@),
{
    let mut t = TbfParams { rate: owned("1mbit"), burst: None, limit: None, peakrate: None, mtu: None };
    let mut i: usize = 0;
    while i < values.len()
        invariant
            i <= values@.len(),
            t@ == tbf_fold(tbf_start(), m@, values@.subrange(0, i as int)),
        decreases values.len() - i,
    {
        let ghost prefix = values@.subrange(0, i as int);
        let ghost next = values@.subrange(0, i + 1);
        proof {
            assert(next.drop_last() =~= prefix);
            assert(next.last() == values@[i as int]);
        }
        match find_mapping(m, values[i].0.as_str()) {
            Some(k) => {
                apply_tbf_parameter(&mut t, m[k].1.as_str(), &values[i].1);
            },
            None => {},
        }
        i = i + 1;
    }
    assert(values@.subrange(0, values@.len() as int) =~= values@);
    t
}

/// A user template with when it was added and last changed.
#[derive(Debug, Clone)]
pub struct CustomTemplate {
    pub template: TcTemplate,
    pub created_at: Timestamp,
    pub modified_at: Timestamp,
}

/// The keys of the user templates.
pub open spec fn custom_keys(c: Seq<(String, CustomTemplate)>) -> Seq<Seq<char>> {
    c.map_values(|e: (String, CustomTemplate)| e.0@)
}

/// The template with id `id`: a predefined one first, then a user one.
pub open spec fn find_template(
    pre: Seq<TcTemplate>,
    custom: Seq<(String, CustomTemplate)>,
    id: Seq<char>,
) -> Option<TcTemplate> {
    match first_index(template_ids(pre), id) {
        Some(i) => Some(pre[i]),
        None => match first_index(custom_keys(custom), id) {
            Some(j) => Some(custom[j].1.template),
            None => None,
        },
    }
}

/// The templates behind a list of references.
pub open spec fn deref_all(s: Seq<&TcTemplate>) -> Seq<TcTemplate> {
    s.map_values(|t: &TcTemplate| *t)
}

/// Pushing a reference pushes its template.
pub proof fn lemma_deref_push(s: Seq<&TcTemplate>, x: &TcTemplate)
    ensures
        deref_all(s.push(x)) == deref_all(s).push(*x),
{
    assert(deref_all(s.push(x)) =~= deref_all(s).push(*x));
}

/// The templates of the user entries.
pub open spec fn custom_list(c: Seq<(String, CustomTemplate)>) -> Seq<TcTemplate> {
    c.map_values(|e: (String, CustomTemplate)| e.1.template)
}

/// Templates of the category `c`.
pub open spec fn category_pred(c: TemplateCategory) -> spec_fn(TcTemplate) -> bool {
    |t: TcTemplate| same_category(t.category, c)
}

/// Predefined and user templates.
pub struct TemplateManager {
    predefined_templates: Vec<TcTemplate>,
    custom_templates: Vec<(String, CustomTemplate)>,
}

/// No key occurs twice.
pub open spec fn keys_distinct(k: Seq<Seq<char>>) -> bool {
    forall|i: int, j: int| 0 <= i < j < k.len() ==> k[i] != k[j]
}

impl TemplateManager {
    #[verifier::type_invariant]
    spec fn inv(self) -> bool {
        keys_distinct(custom_keys(self.custom_templates@))
    }

    /// The predefined templates.
    pub closed spec fn predefined(&self) -> Seq<TcTemplate> {
        self.predefined_templates@
    }

    /// The user templates with their keys.
    pub closed spec fn custom(&self) -> Seq<(String, CustomTemplate)> {
        self.custom_templates@
    }

    /// Every template: the predefined ones, then the user ones.
    pub open spec fn all(&self) -> Seq<TcTemplate> {
        self.predefined() + custom_list(self.custom())
    }

    /// The predefined templates and no user ones.
    pub fn new() -> (m: TemplateManager)
        ensures
            template_ids(m.predefined()) == predefined_ids(),
            template_models(m.predefined()) == predefined_models(),
            m.custom().len() == 0,
    {
        TemplateManager {
            predefined_templates: PredefinedTemplate::get_all(),
            custom_templates: Vec::new(),
        }
    }

    /// Every template.
    pub fn get_all_templates(&self) -> (r: Vec<&TcTemplate>)
        ensures
            deref_all(r@) == self.all(),
    {
        let mut r: Vec<&TcTemplate> = Vec::new();
        let mut i: usize = 0;
        while i < self.predefined_templates.len()
            invariant
                i <= self.predefined_templates@.len(),
                deref_all(r@) == self.predefined_templates@.subrange(0, i as int),
            decreases self.predefined_templates.len() - i,
        {
            proof {
                lemma_deref_push(r@, &self.predefined_templates@[i as int]);
            }
            r.push(&self.predefined_templates[i]);
            i = i + 1;
            assert(deref_all(r@) =~= self.predefined_templates@.subrange(0, i as int));
        }
        let ghost customs = custom_list(self.custom_templates@);
        assert(self.predefined_templates@.subrange(0, self.predefined_templates@.len() as int)
            =~= self.predefined_templates@);
        assert(customs.subrange(0, 0) + self.predefined_templates@ =~= self.predefined_templates@);
        let mut j: usize = 0;
        while j < self.custom_templates.len()
            invariant
                j <= self.custom_templates@.len(),
                customs == custom_list(self.custom_templates@),
                deref_all(r@) == self.predefined_templates@ + customs.subrange(0, j as int),
            decreases self.custom_templates.len() - j,
        {
            proof {
                lemma_deref_push(r@, &self.custom_templates@[j as int].1.template);
            }
            r.push(&self.custom_templates[j].1.template);
            j = j + 1;
            assert(deref_all(r@) =~= self.predefined_templates@ + customs.subrange(0, j as int));
        }
        assert(customs.subrange(0, customs.len() as int) =~= customs);
        r
    }

    /// The templates of a category, in the order of `all`.
    pub fn get_templates_by_category(&self, category: &TemplateCategory) -> (r: Vec<&TcTemplate>)
        ensures
            deref_all(r@) == self.all().filter(category_pred(*category)),
    {
        let all = self.get_all_templates();
        let ghost pred = category_pred(*category);
        let ghost seq_all = deref_all(all@);
        let mut r: Vec<&TcTemplate> = Vec::new();
        let mut i: usize = 0;
        while i < all.len()
            invariant
                i <= all@.len(),
                seq_all == deref_all(all@),
                pred == category_pred(*category),
                deref_all(r@) == seq_all.subrange(0, i as int).filter(pred),
            decreases all.len() - i,
        {
            let t = all[i];
            proof {
                let next = seq_all.subrange(0, i + 1);
                assert(next.drop_last() =~= seq_all.subrange(0, i as int));
                assert(next.last() == *t);
                lemma_deref_push(r@, t);
            }
            let ghost before = r@;
            let keep = t.category.same_as(category);
            if keep {
                r.push(t);
            }
            proof {
                let next = seq_all.subrange(0, i + 1);
                assert(pred(*t) == keep);
                reveal(Seq::filter);
                assert(next.filter(pred) == (if pred(next.last()) {
                    next.drop_last().filter(pred).push(next.last())
                } else {
                    next.drop_last().filter(pred)
                }));
            }
            i = i + 1;
        }
        assert(seq_all.subrange(0, seq_all.len() as int) =~= seq_all);
        r
    }

    /// The template with id `id` (see `find_template`).
    pub fn get_template(&self, id: &str) -> (r: Option<&TcTemplate>)
        ensures
            match r {
                Some(t) => find_template(self.predefined(), self.custom(), id@) == Some(*t),
                None => find_template(self.predefined(), self.custom(), id@) is None,
            },
    {
        let mut i: usize = 0;
        while i < self.predefined_templates.len()
            invariant
                i <= self.predefined_templates@.len(),
                forall|j: int| 0 <= j < i ==> template_ids(self.predefined_templates@)[j] != id@,
            decreases self.predefined_templates.len() - i,
        {
            if str_eq(self.predefined_templates[i].id.as_str(), id) {
                proof {
                    lemma_first_index_found(
                        template_ids(self.predefined_templates@),
                        id@,
                        Some(i as int),
                    );
                }
                return Some(&self.predefined_templates[i]);
            }
            i = i + 1;
        }
        proof {
            lemma_first_index_found(template_ids(self.predefined_templates@), id@, None);
        }
        match self.custom_position(id) {
            Some(k) => Some(&self.custom_templates[k].1.template),
            None => None,
        }
    }

    /// The index of the user template keyed `id`.
    fn custom_position(&self, id: &str) -> (r: Option<usize>)
        ensures
            match r {
                Some(k) => k < self.custom_templates@.len() && first_index(
                    custom_keys(self.custom_templates@),
                    id@,
                ) == Some(k as int) && self.custom_templates@[k as int].0@ == id@,
                None => first_index(custom_keys(self.custom_templates@), id@) is None,
            },
    {
        let mut i: usize = 0;
        while i < self.custom_templates.len()
            invariant
                i <= self.custom_templates@.len(),
                forall|j: int| 0 <= j < i ==> custom_keys(self.custom_templates@)[j] != id@,
            decreases self.custom_templates.len() - i,
        {
            if str_eq(self.custom_templates[i].0.as_str(), id) {
                proof {
                    lemma_first_index_found(custom_keys(self.custom_templates@), id@, Some(i as int));
                }
                return Some(i);
            }
            i = i + 1;
        }
        proof {
            lemma_first_index_found(custom_keys(self.custom_templates@), id@, None);
        }
        None
    }

    /// Whether a predefined template has id `id`.
    fn is_predefined(&self, id: &str) -> (r: bool)
        ensures
            r == (first_index(template_ids(self.predefined_templates@), id@) is Some),
    {
        let mut i: usize = 0;
        while i < self.predefined_templates.len()
            invariant
                i <= self.predefined_templates@.len(),
                forall|j: int| 0 <= j < i ==> template_ids(self.predefined_templates@)[j] != id@,
            decreases self.predefined_templates.len() - i,
        {
            if str_eq(self.predefined_templates[i].id.as_str(), id) {
                proof {
                    lemma_first_index_found(
                        template_ids(self.predefined_templates@),
                        id@,
                        Some(i as int),
                    );
                }
                return true;
            }
            i = i + 1;
        }
        proof {
            lemma_first_index_found(template_ids(self.predefined_templates@), id@, None);
        }
        false
    }

    /// Adds a user template under its id, stamped with the current time.
    pub fn add_custom_template(&mut self, template: TcTemplate) -> (r: Result<(), TemplateError>)
        ensures
            first_index(template_ids(old(self).predefined()), template.id@) is Some ==> (r matches Err(
                e,
            ) && e@ == TemplateFault::PredefinedConflict(template.id@) && final(self).custom()
                == old(self).custom()),
            first_index(template_ids(old(self).predefined()), template.id@) is None ==> (r is Ok
                && find_template(final(self).predefined(), final(self).custom(), template.id@)
                == Some(template)),
            final(self).predefined() == old(self).predefined(),
    {
        let t = now();
        self.add_custom_template_at(template, t)
    }

    /// Adds a user template under its id, stamped `at`; a user template
    /// with the same id is replaced, and an id of a predefined template is
    /// refused.
    pub fn add_custom_template_at(&mut self, template: TcTemplate, at: Timestamp) -> (r: Result<
        (),
        TemplateError,
    >)
        ensures
            first_index(template_ids(old(self).predefined()), template.id@) is Some ==> (r matches Err(
                e,
            ) && e@ == TemplateFault::PredefinedConflict(template.id@) && final(self).custom()
                == old(self).custom()),
            first_index(template_ids(old(self).predefined()), template.id@) is None ==> (r is Ok
                && find_template(final(self).predefined(), final(self).custom(), template.id@)
                == Some(template)),
            r is Ok ==> forall|k: Seq<char>|
                k != template.id@ ==> #[trigger] find_template(
                    final(self).predefined(),
                    final(self).custom(),
                    k,
                ) == find_template(old(self).predefined(), old(self).custom(), k),
            final(self).predefined() == old(self).predefined(),
    {
        proof {
            use_type_invariant(&*self);
        }
        if self.is_predefined(template.id.as_str()) {
            return Err(TemplateError::PredefinedConflict { id: owned(template.id.as_str()) });
        }
        let key = owned(template.id.as_str());
        let ghost id = template.id@;
        let pos = self.custom_position(key.as_str());
        let entry = (key, CustomTemplate { template, created_at: at, modified_at: at });
        let mut customs: Vec<(String, CustomTemplate)> = Vec::new();
        std::mem::swap(&mut customs, &mut self.custom_templates);
        let ghost before = customs@;
        match pos {
            Some(k) => {
                customs.set(k, entry);
                proof {
                    assert(custom_keys(customs@) =~= custom_keys(before));
                    assert forall|q: Seq<char>| q != id implies #[trigger] find_template(
                        self.predefined_templates@,
                        customs@,
                        q,
                    ) == find_template(self.predefined_templates@, before, q) by {
                        crate::text::lemma_first_index(custom_keys(before), q);
                        match first_index(custom_keys(before), q) {
                            Some(j) => {
                                assert(custom_keys(before)[j] == q);
                                assert(j != k);
                                assert(customs@[j] == before[j]);
                            },
                            None => {},
                        }
                    }
                }
            },
            None => {
                customs.push(entry);
                proof {
                    crate::text::lemma_first_index(custom_keys(before), id);
                    assert(custom_keys(customs@) =~= custom_keys(before).push(id));
                    lemma_first_index_found(custom_keys(customs@), id, Some(before.len() as int));
                    assert forall|q: Seq<char>| q != id implies #[trigger] find_template(
                        self.predefined_templates@,
                        customs@,
                        q,
                    ) == find_template(self.predefined_templates@, before, q) by {
                        crate::text::lemma_first_index(custom_keys(before), q);
                        match first_index(custom_keys(before), q) {
                            Some(i) => {
                                lemma_first_index_found(custom_keys(customs@), q, Some(i));
                                assert(customs@[i] == before[i]);
                            },
                            None => {
                                lemma_first_index_found(custom_keys(customs@), q, None);
                            },
                        }
                    }
                    assert forall|a: int, b: int| 0 <= a < b < custom_keys(customs@).len() implies custom_keys(customs@)[a] != custom_keys(customs@)[b] by {
                        if b == before.len() {
                            assert(custom_keys(customs@)[a] == custom_keys(before)[a]);
                        } else {
                            assert(custom_keys(customs@)[a] == custom_keys(before)[a]);
                            assert(custom_keys(customs@)[b] == custom_keys(before)[b]);
                        }
                    }
                }
            },
        }
        self.custom_templates = customs;
        Ok(())
    }

    /// Replaces the template of the user entry keyed `id`, stamped with the
    /// current time.
    pub fn update_custom_template(&mut self, id: &str, template: TcTemplate) -> (r: Result<
        (),
        TemplateError,
    >)
        ensures
            first_index(custom_keys(old(self).custom()), id@) is None ==> (r matches Err(e) && e@
                == TemplateFault::CustomNotFound(id@) && final(self).custom() == old(self).custom()),
            first_index(custom_keys(old(self).custom()), id@) is Some ==> r is Ok
                && first_index(template_ids(old(self).predefined()), id@) is None ==> find_template(
                final(self).predefined(),
                final(self).custom(),
                id@,
            ) == Some(template),
            final(self).predefined() == old(self).predefined(),
    {
        let t = now();
        self.update_custom_template_at(id, template, t)
    }

    /// Replaces the template of the user entry keyed `id`, stamped `at`;
    /// the entry keeps its key and when it was added.
    pub fn update_custom_template_at(&mut self, id: &str, template: TcTemplate, at: Timestamp) -> (r:
        Result<(), TemplateError>)
        ensures
            first_index(custom_keys(old(self).custom()), id@) is None ==> (r matches Err(e) && e@
                == TemplateFault::CustomNotFound(id@) && final(self).custom() == old(self).custom()),
            first_index(custom_keys(old(self).custom()), id@) matches Some(k) ==> {
                &&& r is Ok
                &&& final(self).custom() == old(self).custom().update(
                    k,
                    (
                        old(self).custom()[k].0,
                        CustomTemplate {
                            template,
                            created_at: old(self).custom()[k].1.created_at,
                            modified_at: at,
                        },
                    ),
                )
            },
            first_index(custom_keys(old(self).custom()), id@) is Some ==> r is Ok
                && first_index(template_ids(old(self).predefined()), id@) is None ==> find_template(
                final(self).predefined(),
                final(self).custom(),
                id@,
            ) == Some(template),
            final(self).predefined() == old(self).predefined(),
    {
        proof {
            use_type_invariant(&*self);
        }
        match self.custom_position(id) {
            None => Err(TemplateError::CustomNotFound { id: owned(id) }),
            Some(k) => {
                let mut customs: Vec<(String, CustomTemplate)> = Vec::new();
                std::mem::swap(&mut customs, &mut self.custom_templates);
                let ghost before = customs@;
                let old_entry = customs.remove(k);
                let (key, old_custom) = old_entry;
                let entry = (key, CustomTemplate { template, created_at: old_custom.created_at, modified_at: at });
                customs.insert(k, entry);
                proof {
                    assert(customs@ =~= before.update(
                        k as int,
                        (before[k as int].0, customs@[k as int].1),
                    ));
                    assert(custom_keys(customs@) =~= custom_keys(before));
                    lemma_first_index_found(custom_keys(customs@), id@, Some(k as int));
                }
                self.custom_templates = customs;
                Ok(())
            },
        }
    }

    /// Removes the user entry keyed `id`.
    pub fn remove_custom_template(&mut self, id: &str) -> (r: Result<(), TemplateError>)
        ensures
            first_index(custom_keys(old(self).custom()), id@) is None ==> (r matches Err(e) && e@
                == TemplateFault::CustomNotFound(id@) && final(self).custom() == old(self).custom()),
            first_index(custom_keys(old(self).custom()), id@) matches Some(k) ==> (r is Ok
                && final(self).custom() == old(self).custom().remove(k)),
            first_index(custom_keys(final(self).custom()), id@) is None,
            final(self).predefined() == old(self).predefined(),
    {
        proof {
            use_type_invariant(&*self);
        }
        match self.custom_position(id) {
            None => Err(TemplateError::CustomNotFound { id: owned(id) }),
            Some(k) => {
                let mut customs: Vec<(String, CustomTemplate)> = Vec::new();
                std::mem::swap(&mut customs, &mut self.custom_templates);
                let ghost before = customs@;
                proof {
                    assert(keys_distinct(custom_keys(before)));
                }
                customs.remove(k);
                proof {
                    let kb = custom_keys(before);
                    let ka = custom_keys(customs@);
                    assert(ka =~= kb.remove(k as int));
                    crate::text::lemma_first_index(kb, id@);
                    assert forall|j: int| 0 <= j < ka.len() implies ka[j] != id@ by {
                        if j < k {
                            assert(ka[j] == kb[j]);
                        } else {
                            assert(ka[j] == kb[j + 1]);
                            assert(kb[k as int] == id@);
                            assert(kb[k as int] != kb[j + 1]);
                        }
                    }
                    lemma_first_index_found(ka, id@, None);
                    assert forall|a: int, b: int| 0 <= a < b < ka.len() implies ka[a] != ka[b] by {
                        let a2 = if a < k { a } else { a + 1 };
                        let b2 = if b < k { b } else { b + 1 };
                        assert(ka[a] == kb[a2] && ka[b] == kb[b2]);
                    }
                }
                self.custom_templates = customs;
                Ok(())
            },
        }
    }
}

impl Default for TemplateManager {
    fn default() -> (m: TemplateManager)
        ensures
            template_ids(m.predefined()) == predefined_ids(),
            template_models(m.predefined()) == predefined_models(),
            m.custom().len() == 0,
    {
        Self::new()
    }
}


/// Whether a template matches a lowercase query: by name, description or
/// a tag, each compared in lowercase.
pub open spec fn query_matches(t: TcTemplate, q: Seq<char>) -> bool {
    ||| contains_seq(lowercase(t.name@), q)
    ||| contains_seq(lowercase(t.description@), q)
    ||| exists|i: int| 0 <= i < t.tags@.len() && contains_seq(lowercase(#[trigger] t.tags@[i]@), q)
}

/// Templates matching the lowercase query `q`.
pub open spec fn query_pred(q: Seq<char>) -> spec_fn(TcTemplate) -> bool {
    |t: TcTemplate| query_matches(t, q)
}

/// Whether a template matches a lowercase query.
fn template_matches(t: &TcTemplate, q: &str) -> (r: bool)
    ensures
        r == query_matches(*t, q@),
{
    if str_contains(to_lowercase(t.name.as_str()).as_str(), q) {
        return true;
    }
    if str_contains(to_lowercase(t.description.as_str()).as_str(), q) {
        return true;
    }
    let mut i: usize = 0;
    while i < t.tags.len()
        invariant
            i <= t.tags@.len(),
            forall|j: int| 0 <= j < i ==> !contains_seq(lowercase(#[trigger] t.tags@[j]@), q@),
        decreases t.tags.len() - i,
    {
        if str_contains(to_lowercase(t.tags[i].as_str()).as_str(), q) {
            return true;
        }
        i = i + 1;
    }
    false
}

/// The names of parameter values.
pub open spec fn value_names(values: Seq<(String, ParameterValue)>) -> Seq<Seq<char>> {
    values.map_values(|v: (String, ParameterValue)| v.0@)
}

/// The names of parameters.
pub open spec fn param_names(ps: Seq<TemplateParameter>) -> Seq<Seq<char>> {
    ps.map_values(|p: TemplateParameter| p.name@)
}

/// The first required parameter, in declaration order, with no value.
pub open spec fn first_missing(ps: Seq<TemplateParameter>, given: Seq<Seq<char>>) -> Option<Seq<char>>
    decreases ps.len(),
{
    if ps.len() == 0 {
        None
    } else if ps[0].required && !given.contains(ps[0].name@) {
        Some(ps[0].name@)
    } else {
        first_missing(ps.drop_first(), given)
    }
}

/// What is wrong with one value: nothing for a name no parameter has,
/// else `param_fault` for the first parameter of that name.
pub open spec fn value_fault(ps: Seq<TemplateParameter>, v: (String, ParameterValue)) -> Option<
    TemplateFault,
> {
    match first_index(param_names(ps), v.0@) {
        Some(k) => param_fault(ps[k], v.1, pattern_check_of(ps[k], v.1)),
        None => None,
    }
}

/// The first thing wrong with the values, in the order given.
pub open spec fn first_value_fault(ps: Seq<TemplateParameter>, values: Seq<(String, ParameterValue)>) -> Option<
    TemplateFault,
>
    decreases values.len(),
{
    if values.len() == 0 {
        None
    } else if value_fault(ps, values[0]) is Some {
        value_fault(ps, values[0])
    } else {
        first_value_fault(ps, values.drop_first())
    }
}

/// The namespace a command is built for: `default` is the host namespace.
pub open spec fn effective_ns(ns: Option<Seq<char>>) -> Option<Seq<char>> {
    match ns {
        Some(n) => if n == "default"@ {
            None
        } else {
            Some(n)
        },
        None => None,
    }
}

/// What is wrong with token bucket texts (as `tbf_error`).
pub open spec fn tbf_model_error(m: TbfModel) -> Option<BuildError> {
    if m.0.len() == 0 {
        Some(BuildError::MissingTbfRate)
    } else if !has_suffix(m.0, "bit"@) && !has_suffix(m.0, "bps"@) {
        Some(BuildError::BadTbfRateUnit)
    } else {
        None
    }
}

/// `key text` for a present text.
pub open spec fn text_opt_args(key: Seq<char>, v: Option<Seq<char>>) -> Seq<Seq<char>> {
    match v {
        Some(x) => seq![key, x],
        None => Seq::empty(),
    }
}

/// The arguments of token bucket texts (as `tbf_args`).
pub open spec fn tbf_model_args(m: TbfModel) -> Seq<Seq<char>> {
    seq!["rate"@, m.0] + text_opt_args("burst"@, m.1) + text_opt_args("limit"@, m.2)
        + text_opt_args("peakrate"@, m.3) + text_opt_args("mtu"@, m.4)
}

/// The arguments of a template's command, or why it cannot be built:
/// an empty device, bad settings for a qdisc that is installed, an empty
/// namespace.
pub open spec fn template_outcome(
    t: TcTemplate,
    device: Seq<char>,
    ns: Option<Seq<char>>,
    params_fault: Option<BuildError>,
    params: Seq<Seq<char>>,
) -> Result<Seq<Seq<char>>, TemplateFault> {
    let ct = t.command_template;
    if device.len() == 0 {
        Err(TemplateFault::Build(BuildError::EmptyDevice))
    } else if installs(ct.operation) && params_fault is Some {
        Err(TemplateFault::Build(params_fault->0))
    } else if ns matches Some(n) && n.len() == 0 {
        Err(TemplateFault::Build(BuildError::EmptyNamespace))
    } else {
        Ok(
            exec_prefix(ct.use_sudo, ns) + seq![
                "qdisc"@,
                operation_word(ct.operation),
                "dev"@,
                device,
                target_text(ct.target),
            ] + (if ct.operation != TcOperation::Delete && ct.operation != TcOperation::Show {
                seq![qdisc_name(ct.qdisc_type)] + params
            } else {
                Seq::empty()
            }) + ct.raw_args.deep_view(),
        )
    }
}

/// The arguments of the command a template gives for a device, namespace
/// and parameter values, or why it gives none: no template, a missing
/// required parameter, a bad value, an unknown preset, or a command that
/// cannot be built. Netem and token bucket templates map the values onto
/// settings; other kinds take none.
pub open spec fn generation(
    found: Option<TcTemplate>,
    id: Seq<char>,
    device: Seq<char>,
    ns: Option<Seq<char>>,
    values: Seq<(String, ParameterValue)>,
) -> Result<Seq<Seq<char>>, TemplateFault> {
    match found {
        None => Err(TemplateFault::TemplateNotFound(id)),
        Some(t) => match first_missing(t.parameters@, value_names(values)) {
            Some(n) => Err(TemplateFault::MissingParameter(n)),
            None => match first_value_fault(t.parameters@, values) {
                Some(f) => Err(f),
                None => {
                    let ct = t.command_template;
                    let nse = effective_ns(ns);
                    match ct.qdisc_type {
                        QdiscType::Netem => match netem_fold(
                            no_netem(),
                            ct.parameter_mappings@,
                            values,
                        ) {
                            Err(f) => Err(f),
                            Ok(n) => template_outcome(t, device, nse, netem_error(n), netem_args(n)),
                        },
                        QdiscType::Tbf => {
                            let m = tbf_fold(tbf_start(), ct.parameter_mappings@, values);
                            template_outcome(t, device, nse, tbf_model_error(m), tbf_model_args(m))
                        },
                        _ => template_outcome(t, device, nse, None, Seq::empty()),
                    }
                },
            },
        },
    }
}

/// Whether some value has the name `name`.
fn has_value_named(values: &Vec<(String, ParameterValue)>, name: &str) -> (r: bool)
    ensures
        r == value_names(values@).contains(name@),
{
    let mut i: usize = 0;
    while i < values.len()
        invariant
            i <= values@.len(),
            forall|j: int| 0 <= j < i ==> value_names(values@)[j] != name@,
        decreases values.len() - i,
    {
        if str_eq(values[i].0.as_str(), name) {
            assert(value_names(values@)[i as int] == name@);
            return true;
        }
        i = i + 1;
    }
    false
}

/// The first required parameter with no value (see `first_missing`).
fn check_required(ps: &Vec<TemplateParameter>, values: &Vec<(String, ParameterValue)>) -> (r: Option<
    TemplateError,
>)
    ensures
        match first_missing(ps@, value_names(values@)) {
            Some(n) => r matches Some(e) && e@ == TemplateFault::MissingParameter(n),
            None => r is None,
        },
{
    let ghost given = value_names(values@);
    let mut i: usize = 0;
    assert(ps@.subrange(0, ps@.len() as int) =~= ps@);
    while i < ps.len()
        invariant
            i <= ps@.len(),
            given == value_names(values@),
            first_missing(ps@, given) == first_missing(ps@.subrange(i as int, ps@.len() as int), given),
        decreases ps.len() - i,
    {
        let ghost rest = ps@.subrange(i as int, ps@.len() as int);
        proof {
            assert(rest[0] == ps@[i as int]);
            assert(rest.drop_first() =~= ps@.subrange(i + 1, ps@.len() as int));
        }
        if ps[i].required && !has_value_named(values, ps[i].name.as_str()) {
            return Some(TemplateError::MissingParameter { name: owned(ps[i].name.as_str()) });
        }
        i = i + 1;
    }
    proof {
        assert(ps@.subrange(ps@.len() as int, ps@.len() as int).len() == 0);
    }
    None
}

/// The index of the first parameter named `name`.
fn find_param(ps: &Vec<TemplateParameter>, name: &str) -> (r: Option<usize>)
    ensures
        match r {
            Some(k) => k < ps@.len() && first_index(param_names(ps@), name@) == Some(k as int),
            None => first_index(param_names(ps@), name@) is None,
        },
{
    let mut i: usize = 0;
    while i < ps.len()
        invariant
            i <= ps@.len(),
            forall|j: int| 0 <= j < i ==> param_names(ps@)[j] != name@,
        decreases ps.len() - i,
    {
        if str_eq(ps[i].name.as_str(), name) {
            proof {
                lemma_first_index_found(param_names(ps@), name@, Some(i as int));
            }
            return Some(i);
        }
        i = i + 1;
    }
    proof {
        lemma_first_index_found(param_names(ps@), name@, None);
    }
    None
}

/// The first thing wrong with the values (see `first_value_fault`).
fn check_values(ps: &Vec<TemplateParameter>, values: &Vec<(String, ParameterValue)>) -> (r: Option<
    TemplateError,
>)
    ensures
        match first_value_fault(ps@, values@) {
            Some(f) => r matches Some(e) && e@ == f,
            None => r is None,
        },
{
    let mut i: usize = 0;
    assert(values@.subrange(0, values@.len() as int) =~= values@);
    while i < values.len()
        invariant
            i <= values@.len(),
            first_value_fault(ps@, values@) == first_value_fault(
                ps@,
                values@.subrange(i as int, values@.len() as int),
            ),
        decreases values.len() - i,
    {
        let ghost rest = values@.subrange(i as int, values@.len() as int);
        proof {
            assert(rest[0] == values@[i as int]);
            assert(rest.drop_first() =~= values@.subrange(i + 1, values@.len() as int));
        }
        match find_param(ps, values[i].0.as_str()) {
            Some(k) => {
                match validate_parameter_value(&ps[k], &values[i].1) {
                    Err(e) => {
                        return Some(e);
                    },
                    Ok(()) => {},
                }
            },
            None => {},
        }
        i = i + 1;
    }
    proof {
        assert(values@.subrange(values@.len() as int, values@.len() as int).len() == 0);
    }
    None
}

/// The qdisc settings a template's values give, for netem and token bucket
/// templates; none for other kinds.
fn template_params(ct: &CommandTemplate, values: &Vec<(String, ParameterValue)>) -> (r: Result<
    Option<QdiscParams>,
    TemplateError,
>)
    ensures
        match ct.qdisc_type {
            QdiscType::Netem => match netem_fold(no_netem(), ct.parameter_mappings@, values@) {
                Ok(n) => r == Ok::<Option<QdiscParams>, TemplateError>(
                    Some(QdiscParams::Netem(n)),
                ),
                Err(f) => r matches Err(e) && e@ == f,
            },
            QdiscType::Tbf => r matches Ok(Some(QdiscParams::Tbf(t))) && t@ == tbf_fold(
                tbf_start(),
                ct.parameter_mappings@,
                values@,
            ),
            _ => r == Ok::<Option<QdiscParams>, TemplateError>(None),
        },
{
    match &ct.qdisc_type {
        QdiscType::Netem => match netem_from_parameters(&ct.parameter_mappings, values) {
            Ok(n) => Ok(Some(QdiscParams::Netem(n))),
            Err(e) => Err(e),
        },
        QdiscType::Tbf => Ok(Some(QdiscParams::Tbf(tbf_from_parameters(&ct.parameter_mappings, values)))),
        _ => Ok(None),
    }
}

/// `str_opt_args` over the text of the option.
proof fn lemma_text_opt_args(key: Seq<char>, o: Option<String>)
    ensures
        str_opt_args(key, o) == text_opt_args(key, opt_text(o)),
{
}

/// The command a template builds once its values have passed the checks.
fn build_from_template(
    t: &TcTemplate,
    device: &str,
    namespace: Option<&str>,
    values: &Vec<(String, ParameterValue)>,
) -> (r: Result<TcCommand, TemplateError>)
    ensures
        ({
            let ct = t.command_template;
            let nse = effective_ns(opt_view(namespace));
            let outcome = match ct.qdisc_type {
                QdiscType::Netem => match netem_fold(no_netem(), ct.parameter_mappings@, values@) {
                    Err(f) => Err(f),
                    Ok(n) => template_outcome(*t, device@, nse, netem_error(n), netem_args(n)),
                },
                QdiscType::Tbf => {
                    let m = tbf_fold(tbf_start(), ct.parameter_mappings@, values@);
                    template_outcome(*t, device@, nse, tbf_model_error(m), tbf_model_args(m))
                },
                _ => template_outcome(*t, device@, nse, None, Seq::empty()),
            };
            match outcome {
                Ok(args) => r matches Ok(c) && command_args(c) == args,
                Err(f) => r matches Err(e) && e@ == f,
            }
        }),
{
    let ct = &t.command_template;
    let mut builder = TcCommandBuilder::new().operation(ct.operation).device(device).qdisc(
        ct.qdisc_type.duplicate(),
    ).target(ct.target.duplicate());
    if ct.use_sudo {
        builder = builder.with_sudo();
    }
    match namespace {
        Some(ns) => {
            builder = builder.namespace(ns);
        },
        None => {},
    }
    builder = builder.raw_args(copy_args(&ct.raw_args));
    let params = match template_params(ct, values) {
        Ok(p) => p,
        Err(e) => {
            return Err(e);
        },
    };
    let ghost b0 = builder;
    match params {
        Some(p) => {
            builder = builder.params(p);
        },
        None => {},
    }
    let ghost b = builder;
    proof {
        assert(b.raw_args.deep_view() =~= ct.raw_args.deep_view());
        assert(opt_text(b.namespace) == effective_ns(opt_view(namespace)));
        assert(same_qdisc(b.qdisc_type->0, ct.qdisc_type));
        assert(qdisc_name(b.qdisc_type->0) == qdisc_name(ct.qdisc_type));
        assert(target_text(b.target->0) == target_text(ct.target));
        match b.params {
            Some(QdiscParams::Tbf(tp)) => {
                lemma_text_opt_args("burst"@, tp.burst);
                lemma_text_opt_args("limit"@, tp.limit);
                lemma_text_opt_args("peakrate"@, tp.peakrate);
                lemma_text_opt_args("mtu"@, tp.mtu);
                assert(tbf_args(tp) =~= tbf_model_args(tp@));
            },
            _ => {},
        }
    }
    match builder.build() {
        Ok(c) => {
            proof {
                assert(command_args(c) =~= exec_prefix(c.use_sudo, opt_text(c.namespace)) + seq![
                    "qdisc"@,
                    operation_word(c.operation),
                    "dev"@,
                    c.device@,
                    target_text(c.target),
                ] + (if c.operation != TcOperation::Delete && c.operation != TcOperation::Show {
                    seq![qdisc_name(c.qdisc_type)] + params_args(c.params)
                } else {
                    Seq::empty()
                }) + c.raw_args.deep_view());
            }
            Ok(c)
        },
        Err(e) => Err(TemplateError::Build(e)),
    }
}


impl TemplateManager {
    /// The templates whose name, description or a tag contains the query,
    /// all compared in lowercase, in the order of `all`.
    pub fn search_templates(&self, query: &str) -> (r: Vec<&TcTemplate>)
        ensures
            deref_all(r@) == self.all().filter(query_pred(lowercase(query@))),
    {
        let q = to_lowercase(query);
        let all = self.get_all_templates();
        let ghost pred = query_pred(lowercase(query@));
        let ghost seq_all = deref_all(all@);
        let mut r: Vec<&TcTemplate> = Vec::new();
        let mut i: usize = 0;
        while i < all.len()
            invariant
                i <= all@.len(),
                seq_all == deref_all(all@),
                q@ == lowercase(query@),
                pred == query_pred(lowercase(query@)),
                deref_all(r@) == seq_all.subrange(0, i as int).filter(pred),
            decreases all.len() - i,
        {
            let t = all[i];
            proof {
                let next = seq_all.subrange(0, i + 1);
                assert(next.drop_last() =~= seq_all.subrange(0, i as int));
                assert(next.last() == *t);
                lemma_deref_push(r@, t);
            }
            let keep = template_matches(t, q.as_str());
            if keep {
                r.push(t);
            }
            proof {
                let next = seq_all.subrange(0, i + 1);
                assert(pred(*t) == keep);
                reveal(Seq::filter);
                assert(next.filter(pred) == (if pred(next.last()) {
                    next.drop_last().filter(pred).push(next.last())
                } else {
                    next.drop_last().filter(pred)
                }));
            }
            i = i + 1;
        }
        assert(seq_all.subrange(0, seq_all.len() as int) =~= seq_all);
        r
    }

    /// The command the template `template_id` gives for a device, an
    /// optional namespace and parameter values (see `generation`).
    pub fn generate_command_from_template(
        &self,
        template_id: &str,
        device: &str,
        namespace: Option<&str>,
        parameter_values: &Vec<(String, ParameterValue)>,
    ) -> (r: Result<TcCommand, TemplateError>)
        ensures
            match generation(
                find_template(self.predefined(), self.custom(), template_id@),
                template_id@,
                device@,
                opt_view(namespace),
                parameter_values@,
            ) {
                Ok(args) => r matches Ok(c) && command_args(c) == args,
                Err(f) => r matches Err(e) && e@ == f,
            },
    {
        let t = match self.get_template(template_id) {
            Some(t) => t,
            None => {
                return Err(TemplateError::TemplateNotFound { id: owned(template_id) });
            },
        };
        match check_required(&t.parameters, parameter_values) {
            Some(e) => {
                return Err(e);
            },
            None => {},
        }
        match check_values(&t.parameters, parameter_values) {
            Some(e) => {
                return Err(e);
            },
            None => {},
        }
        build_from_template(t, device, namespace, parameter_values)
    }
}

} // verus!
