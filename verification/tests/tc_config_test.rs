//! The flat configuration record, its command line, and the netem settings
//! a structured configuration installs.
use tcgui_backend::decimal::Decimal;
use tcgui_backend::tc_config::{
    build_tc_configuration, has_meaningful_params, netem_plan, TcCorruptConfig, TcDelayConfig, TcDuplicateConfig,
    TcLossConfig, TcNetemConfig, TcRateLimitConfig, TcReorderConfig,
};

fn d(units: i64, scale: u8) -> Decimal {
    Decimal::new(units, scale)
}

fn whole(n: i64) -> Decimal {
    Decimal::from_int(n)
}

#[test]
fn test_build_tc_configuration() {
    let config = build_tc_configuration(
        "eth0",
        whole(5),
        Some(whole(25)),
        Some(whole(100)),
        Some(whole(10)),
        Some(whole(30)),
        Some(whole(2)),
        Some(whole(15)),
        Some(whole(20)),
        Some(whole(50)),
        Some(5),
        Some(whole(1)),
        Some(whole(10)),
        Some(1000),
    );

    assert_eq!(config.loss.to_string(), "5");
    assert_eq!(config.correlation.map(|c| c.to_string()), Some("25".to_string()));
    assert_eq!(config.delay_ms.map(|c| c.to_string()), Some("100".to_string()));
    assert_eq!(config.rate_limit_kbps, Some(1000));
    assert!(config.command.contains("tc qdisc replace dev eth0 root netem"));
    assert!(config.command.contains("loss 5% correlation 25%"));
    assert!(config.command.contains("delay 100ms 10ms 30%"));
}

#[test]
fn full_command_line() {
    let config = build_tc_configuration(
        "eth1",
        d(25, 1),
        None,
        Some(whole(50)),
        None,
        Some(whole(40)),
        Some(whole(3)),
        None,
        Some(whole(10)),
        Some(whole(60)),
        Some(4),
        Some(d(5, 1)),
        None,
        Some(512),
    );
    assert_eq!(
        config.command,
        "tc qdisc replace dev eth1 root netem loss 2.5% delay 50ms duplicate 3% reorder 10% 60% gap 4 corrupt 0.5% rate 512kbit"
    );
}

#[test]
fn zero_values_leave_the_command_bare() {
    let config = build_tc_configuration(
        "lo", whole(0), Some(whole(5)), Some(whole(0)), None, None, None, None, None, None, None,
        None, None, Some(0),
    );
    assert_eq!(config.command, "tc qdisc replace dev lo root netem");
}

fn zero() -> Decimal {
    whole(0)
}

#[test]
fn plan_takes_enabled_positive_sections_only() {
    let c = TcNetemConfig {
        loss: TcLossConfig { enabled: true, percentage: d(15, 1), correlation: zero() },
        delay: TcDelayConfig { enabled: true, base_ms: d(1009, 1), jitter_ms: zero(), correlation: whole(50) },
        duplicate: TcDuplicateConfig { enabled: false, percentage: whole(10), correlation: zero() },
        reorder: TcReorderConfig { enabled: true, percentage: whole(20), correlation: whole(30), gap: 0 },
        corrupt: TcCorruptConfig { enabled: true, percentage: zero(), correlation: whole(5) },
        rate_limit: TcRateLimitConfig { enabled: true, rate_kbps: 256 },
    };
    let p = netem_plan(&c);
    assert_eq!(p.loss.map(|x| x.to_string()), Some("1.5".to_string()));
    assert!(p.loss_correlation.is_none());
    assert_eq!(p.delay_ms, Some(100));
    assert_eq!(p.jitter_ms, None);
    assert!(p.delay_correlation.is_none());
    assert!(p.duplicate.is_none());
    assert_eq!(p.reorder.map(|x| x.to_string()), Some("20".to_string()));
    assert_eq!(p.reorder_correlation.map(|x| x.to_string()), Some("30".to_string()));
    assert_eq!(p.gap, None);
    assert!(p.corrupt.is_none());
    assert!(p.corrupt_correlation.is_none());
    assert_eq!(p.rate_kbit, Some(256));
}

#[test]
fn meaningful_parameters() {
    assert!(!has_meaningful_params(whole(0), None, None, None, None, None));
    assert!(!has_meaningful_params(whole(0), Some(whole(0)), Some(whole(-1)), None, None, Some(0)));
    assert!(has_meaningful_params(d(1, 2), None, None, None, None, None));
    assert!(has_meaningful_params(whole(0), None, None, Some(whole(3)), None, None));
    assert!(has_meaningful_params(whole(0), None, None, None, None, Some(64)));
}
