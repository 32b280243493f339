//! Building `tc qdisc` commands step by step.
use tcgui_backend::commands::builder::{
    validate_netem_params, validate_tbf_params, BuildError, NetemField, NetemParams, QdiscParams,
    QdiscType, TbfParams, TcCommandBuilder, TcOperation, TcTarget,
};
use tcgui_backend::decimal::Decimal;

fn whole(n: i64) -> Decimal {
    Decimal::from_int(n)
}

fn has(args: &[String], s: &str) -> bool {
    args.iter().any(|a| a == s)
}

#[test]
fn test_basic_netem_command() {
    let netem_params = NetemParams {
        loss_percent: Some(whole(5)),
        delay_ms: Some(whole(100)),
        ..Default::default()
    };

    let cmd = TcCommandBuilder::new()
        .operation(TcOperation::Add)
        .device("eth0")
        .qdisc(QdiscType::Netem)
        .params(QdiscParams::Netem(netem_params))
        .build()
        .unwrap();

    let args = cmd.to_args();
    assert!(has(&args, "netem"));
    assert!(has(&args, "loss"));
    assert!(has(&args, "5%"));
    assert!(has(&args, "delay"));
    assert!(has(&args, "100ms"));
}

#[test]
fn test_tbf_command() {
    let tbf_params = TbfParams {
        rate: "1mbit".to_string(),
        burst: Some("32kbit".to_string()),
        limit: Some("3000b".to_string()),
        peakrate: None,
        mtu: None,
    };

    let cmd = TcCommandBuilder::new()
        .operation(TcOperation::Replace)
        .device("eth1")
        .qdisc(QdiscType::Tbf)
        .params(QdiscParams::Tbf(tbf_params))
        .build()
        .unwrap();

    let args = cmd.to_args();
    assert!(has(&args, "replace"));
    assert!(has(&args, "tbf"));
    assert!(has(&args, "rate"));
    assert!(has(&args, "1mbit"));
    assert!(has(&args, "burst"));
    assert!(has(&args, "32kbit"));
}

#[test]
fn test_namespace_command() {
    let cmd = TcCommandBuilder::new()
        .operation(TcOperation::Delete)
        .device("veth0")
        .namespace("test-ns")
        .qdisc(QdiscType::Netem)
        .with_sudo()
        .build()
        .unwrap();

    let args = cmd.to_args();
    assert!(has(&args, "sudo"));
    assert!(has(&args, "ip"));
    assert!(has(&args, "netns"));
    assert!(has(&args, "exec"));
    assert!(has(&args, "test-ns"));
}

#[test]
fn test_validation_errors() {
    let result = TcCommandBuilder::new().device("eth0").build();
    assert!(result.is_err());

    let netem_params = NetemParams { loss_percent: Some(whole(150)), ..Default::default() };

    let result = TcCommandBuilder::new()
        .operation(TcOperation::Add)
        .device("eth0")
        .qdisc(QdiscType::Netem)
        .params(QdiscParams::Netem(netem_params))
        .build();
    assert!(result.is_err());
}

#[test]
fn test_custom_qdisc() {
    let cmd = TcCommandBuilder::new()
        .operation(TcOperation::Add)
        .device("eth0")
        .qdisc(QdiscType::Custom("myqdisc".to_string()))
        .params(QdiscParams::Custom(vec![
            ("param1".to_string(), "value1".to_string()),
            ("param2".to_string(), "value2".to_string()),
        ]))
        .build()
        .unwrap();

    let args = cmd.to_args();
    assert!(has(&args, "myqdisc"));
    assert!(has(&args, "param1"));
    assert!(has(&args, "value1"));
}

#[test]
fn test_skip_validation() {
    let netem_params = NetemParams { loss_percent: Some(whole(150)), ..Default::default() };

    let result = TcCommandBuilder::new()
        .operation(TcOperation::Add)
        .device("eth0")
        .qdisc(QdiscType::Netem)
        .params(QdiscParams::Netem(netem_params))
        .skip_validation()
        .build();

    assert!(result.is_ok());
}

#[test]
fn test_qdisc_type_display() {
    assert_eq!(QdiscType::Netem.to_string(), "netem");
    assert_eq!(QdiscType::Tbf.to_string(), "tbf");
    assert_eq!(QdiscType::Htb.to_string(), "htb");
    assert_eq!(QdiscType::Custom("test".to_string()).to_string(), "test");
}

#[test]
fn test_target_display() {
    assert_eq!(TcTarget::Root.to_string(), "root");
    assert_eq!(TcTarget::Ingress.to_string(), "ingress");
    assert_eq!(TcTarget::Handle("1:0".to_string()).to_string(), "handle 1:0");
    assert_eq!(TcTarget::Parent("1:1".to_string()).to_string(), "parent 1:1");
}

#[test]
fn builder_reports_each_error_in_turn() {
    assert_eq!(TcCommandBuilder::new().build().unwrap_err(), BuildError::MissingOperation);
    assert_eq!(
        TcCommandBuilder::new().operation(TcOperation::Add).build().unwrap_err(),
        BuildError::MissingDevice
    );
    assert_eq!(
        TcCommandBuilder::new().operation(TcOperation::Add).device("").build().unwrap_err(),
        BuildError::EmptyDevice
    );
    assert_eq!(
        TcCommandBuilder::new().operation(TcOperation::Add).device("eth0").build().unwrap_err(),
        BuildError::MissingQdiscType { operation: TcOperation::Add }
    );
    assert_eq!(
        TcCommandBuilder::new()
            .operation(TcOperation::Delete)
            .device("eth0")
            .namespace("")
            .build()
            .unwrap_err(),
        BuildError::EmptyNamespace
    );
    assert_eq!(
        TcCommandBuilder::new()
            .operation(TcOperation::Add)
            .device("eth0")
            .qdisc(QdiscType::Tbf)
            .params(QdiscParams::NoParams)
            .build()
            .unwrap_err(),
        BuildError::TbfParamsRequired
    );
}

#[test]
fn netem_checks_come_in_order() {
    let bad_corr = NetemParams {
        delay_correlation: Some(whole(101)),
        delay_ms: Some(whole(-1)),
        ..Default::default()
    };
    assert_eq!(
        validate_netem_params(&bad_corr),
        Some(BuildError::OutOfRange { field: NetemField::DelayCorrelation })
    );
    let neg_delay = NetemParams { delay_ms: Some(whole(-1)), ..Default::default() };
    assert_eq!(validate_netem_params(&neg_delay), Some(BuildError::NegativeDelay));
    let neg_jitter = NetemParams { delay_jitter_ms: Some(whole(-2)), ..Default::default() };
    assert_eq!(validate_netem_params(&neg_jitter), Some(BuildError::NegativeJitter));
    let bad_dup = NetemParams { duplicate_percent: Some(whole(120)), ..Default::default() };
    assert_eq!(
        validate_netem_params(&bad_dup),
        Some(BuildError::OutOfRange { field: NetemField::DuplicatePercent })
    );
    let gap = NetemParams { reorder_gap: Some(0), ..Default::default() };
    assert_eq!(validate_netem_params(&gap), Some(BuildError::ZeroReorderGap));
    let rate = NetemParams { rate_limit_kbps: Some(0), ..Default::default() };
    assert_eq!(validate_netem_params(&rate), Some(BuildError::ZeroRateLimit));
    let fine = NetemParams {
        loss_percent: Some(Decimal::new(255, 1)),
        reorder_gap: Some(5),
        ..Default::default()
    };
    assert_eq!(validate_netem_params(&fine), None);
}

#[test]
fn tbf_rate_needs_a_unit() {
    let mk = |rate: &str| TbfParams {
        rate: rate.to_string(),
        burst: None,
        limit: None,
        peakrate: None,
        mtu: None,
    };
    assert_eq!(validate_tbf_params(&mk("")), Some(BuildError::MissingTbfRate));
    assert_eq!(validate_tbf_params(&mk("100")), Some(BuildError::BadTbfRateUnit));
    assert_eq!(validate_tbf_params(&mk("100kbit")), None);
    assert_eq!(validate_tbf_params(&mk("100bps")), None);
}

#[test]
fn netem_arguments_come_in_fixed_order() {
    let p = NetemParams {
        loss_percent: Some(Decimal::new(25, 1)),
        loss_correlation: Some(whole(10)),
        delay_ms: Some(whole(50)),
        delay_jitter_ms: Some(whole(5)),
        rate_limit_kbps: Some(2000),
        ..Default::default()
    };
    let cmd = TcCommandBuilder::new()
        .operation(TcOperation::Replace)
        .device("eth0")
        .qdisc(QdiscType::Netem)
        .params(QdiscParams::Netem(p))
        .build()
        .unwrap();
    assert_eq!(
        cmd.to_args(),
        vec![
            "tc", "qdisc", "replace", "dev", "eth0", "root", "netem", "loss", "2.5%", "10%",
            "delay", "50ms", "5ms", "rate", "2mbit"
        ]
    );
}
