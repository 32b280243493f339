//! Command templates: the predefined ones, user templates, parameter checks
//! and command generation.
use tcgui_backend::clock::Timestamp;
use tcgui_backend::commands::builder::{QdiscType, TcOperation, TcTarget};
use tcgui_backend::commands::templates::{
    validate_parameter_value, CommandTemplate, ParameterConstraints, ParameterType,
    ParameterValue, PredefinedTemplate, TcTemplate, TemplateCategory, TemplateError,
    TemplateManager, TemplateParameter,
};
use tcgui_backend::decimal::Decimal;

fn whole(n: i64) -> Decimal {
    Decimal::from_int(n)
}

fn custom_template(id: &str) -> TcTemplate {
    TcTemplate {
        id: id.to_string(),
        name: "Custom Test Template".to_string(),
        description: "A test template".to_string(),
        category: TemplateCategory::Custom("Test".to_string()),
        parameters: vec![],
        command_template: CommandTemplate {
            operation: TcOperation::Add,
            qdisc_type: QdiscType::Netem,
            target: TcTarget::Root,
            parameter_mappings: vec![],
            use_sudo: false,
            raw_args: vec![],
        },
        version: "1.0".to_string(),
        author: Some("Test User".to_string()),
        tags: vec!["test".to_string()],
    }
}

#[test]
fn test_template_manager_creation() {
    let manager = TemplateManager::new();
    let templates = manager.get_all_templates();
    assert!(!templates.is_empty());
    assert!(templates.len() >= 10);
}

#[test]
fn test_search_templates() {
    let manager = TemplateManager::new();

    let results = manager.search_templates("mobile");
    assert!(!results.is_empty());
    assert!(results.iter().any(|t| t.name.contains("Mobile")));

    let results = manager.search_templates("rate");
    assert!(!results.is_empty());
    assert!(results.iter().any(|t| t.tags.contains(&"rate".to_string())));
}

#[test]
fn test_templates_by_category() {
    let manager = TemplateManager::new();

    let netem_templates = manager.get_templates_by_category(&TemplateCategory::NetworkEmulation);
    assert!(!netem_templates.is_empty());

    let rate_templates = manager.get_templates_by_category(&TemplateCategory::RateLimiting);
    assert!(!rate_templates.is_empty());
}

#[test]
fn test_generate_command_from_template() {
    let manager = TemplateManager::new();

    let params = vec![
        ("loss_percent".to_string(), ParameterValue::Float(whole(5))),
        ("correlation".to_string(), ParameterValue::Float(whole(25))),
    ];

    let result = manager.generate_command_from_template("simple_packet_loss", "eth0", None, &params);

    assert!(result.is_ok());
    let command = result.unwrap();
    let args = command.to_args();
    assert!(args.contains(&"netem".to_string()));
    assert!(args.contains(&"loss".to_string()));
    assert!(args.contains(&"5%".to_string()));
}

#[test]
fn test_parameter_validation() {
    let manager = TemplateManager::new();

    let params = vec![
        ("bandwidth_mbps".to_string(), ParameterValue::Integer(10)),
        ("latency_ms".to_string(), ParameterValue::Integer(50)),
    ];
    let result = manager.generate_command_from_template("wan_simulation", "eth0", None, &params);
    assert!(result.is_ok());

    let invalid_params = vec![("bandwidth_mbps".to_string(), ParameterValue::Integer(2000))];
    let result = manager.generate_command_from_template("wan_simulation", "eth0", None, &invalid_params);
    assert!(result.is_err());
}

#[test]
fn test_custom_template_management() {
    let mut manager = TemplateManager::new();

    assert!(manager.add_custom_template(custom_template("custom_test")).is_ok());
    assert!(manager.get_template("custom_test").is_some());
    assert!(manager.remove_custom_template("custom_test").is_ok());
    assert!(manager.get_template("custom_test").is_none());
}

#[test]
fn predefined_ids_are_reserved_and_unknown_ids_refused() {
    let mut manager = TemplateManager::new();
    assert!(matches!(
        manager.add_custom_template(custom_template("wan_simulation")),
        Err(TemplateError::PredefinedConflict { .. })
    ));
    assert!(matches!(
        manager.remove_custom_template("nope"),
        Err(TemplateError::CustomNotFound { .. })
    ));
    assert!(matches!(
        manager.update_custom_template("nope", custom_template("nope")),
        Err(TemplateError::CustomNotFound { .. })
    ));
    let none: Vec<(String, ParameterValue)> = vec![];
    assert!(matches!(
        manager.generate_command_from_template("nope", "eth0", None, &none),
        Err(TemplateError::TemplateNotFound { .. })
    ));
}

#[test]
fn update_keeps_creation_time() {
    let mut manager = TemplateManager::new();
    let t0 = Timestamp { secs: 100, nanos: 0 };
    let t1 = Timestamp { secs: 200, nanos: 5 };
    manager.add_custom_template_at(custom_template("mine"), t0).unwrap();
    let mut changed = custom_template("mine");
    changed.name = "Renamed".to_string();
    manager.update_custom_template_at("mine", changed, t1).unwrap();
    assert_eq!(manager.get_template("mine").unwrap().name, "Renamed");
    assert_eq!(manager.get_all_templates().len(), PredefinedTemplate::get_all().len() + 1);
}

#[test]
fn generated_commands_use_defaults_and_namespace() {
    let manager = TemplateManager::new();
    let none: Vec<(String, ParameterValue)> = vec![];
    let missing = manager.generate_command_from_template("simple_packet_loss", "eth1", Some("lab"), &none);
    assert!(matches!(missing, Err(TemplateError::MissingParameter { ref name }) if name == "loss_percent"));
    let given = vec![("loss_percent".to_string(), ParameterValue::Float(Decimal::new(15, 1)))];
    let cmd = manager.generate_command_from_template("simple_packet_loss", "eth1", Some("lab"), &given);
    let args = cmd.unwrap().to_args();
    assert!(args.contains(&"1.5%".to_string()));
    assert!(args.contains(&"lab".to_string()));
    assert!(args.contains(&"eth1".to_string()));
    assert!(args.contains(&"loss".to_string()));
}

fn param(param_type: ParameterType, constraints: Option<ParameterConstraints>) -> TemplateParameter {
    TemplateParameter {
        name: "p".to_string(),
        description: String::new(),
        param_type,
        default_value: None,
        required: true,
        constraints,
    }
}

#[test]
fn parameter_values_are_checked_against_their_type_and_limits() {
    let range = ParameterConstraints { min: Some(whole(1)), max: Some(whole(10)), pattern: None, allowed_values: None };
    let p = param(ParameterType::Integer, Some(range));
    assert!(validate_parameter_value(&p, &ParameterValue::Integer(5)).is_ok());
    assert!(matches!(
        validate_parameter_value(&p, &ParameterValue::Integer(0)),
        Err(TemplateError::BelowMinimum { .. })
    ));
    assert!(matches!(
        validate_parameter_value(&p, &ParameterValue::Integer(11)),
        Err(TemplateError::AboveMaximum { .. })
    ));
    assert!(matches!(
        validate_parameter_value(&p, &ParameterValue::Boolean(true)),
        Err(TemplateError::TypeMismatch { .. })
    ));

    let words = param(ParameterType::Enum(vec!["a".to_string(), "b".to_string()]), None);
    assert!(validate_parameter_value(&words, &ParameterValue::String("b".to_string())).is_ok());
    assert!(matches!(
        validate_parameter_value(&words, &ParameterValue::String("c".to_string())),
        Err(TemplateError::NotInEnum { .. })
    ));

    let pat = ParameterConstraints { min: None, max: None, pattern: Some("^[0-9]+kbit$".to_string()), allowed_values: None };
    let s = param(ParameterType::String, Some(pat));
    assert!(validate_parameter_value(&s, &ParameterValue::String("100kbit".to_string())).is_ok());
    assert!(matches!(
        validate_parameter_value(&s, &ParameterValue::String("fast".to_string())),
        Err(TemplateError::PatternMismatch { .. })
    ));
    let bad = ParameterConstraints { min: None, max: None, pattern: Some("(".to_string()), allowed_values: None };
    let b = param(ParameterType::String, Some(bad));
    assert!(matches!(
        validate_parameter_value(&b, &ParameterValue::String("x".to_string())),
        Err(TemplateError::InvalidPattern { .. })
    ));
    let allowed = ParameterConstraints { min: None, max: None, pattern: None, allowed_values: Some(vec!["x".to_string()]) };
    let a = param(ParameterType::String, Some(allowed));
    assert!(matches!(
        validate_parameter_value(&a, &ParameterValue::String("y".to_string())),
        Err(TemplateError::NotAllowed { .. })
    ));
}

#[test]
fn category_names() {
    assert_eq!(TemplateCategory::NetworkEmulation.to_string(), "Network Emulation");
    assert_eq!(TemplateCategory::Custom("Mine".to_string()).to_string(), "Mine");
}

#[test]
fn wan_bandwidth_is_in_megabits() {
    let manager = TemplateManager::new();
    let vals = vec![
        ("bandwidth_mbps".to_string(), ParameterValue::Integer(10)),
        ("latency_ms".to_string(), ParameterValue::Integer(50)),
    ];
    let c = manager.generate_command_from_template("wan_simulation", "eth0", None, &vals).unwrap();
    assert_eq!(
        c.to_args(),
        vec!["sudo", "tc", "qdisc", "replace", "dev", "eth0", "root", "netem", "delay", "50ms", "rate", "10mbit"]
    );
}
