//! Argument lists of netem `tc` commands.
use tcgui_backend::decimal::Decimal;
use tcgui_backend::tc_commands::TcCommandManager;

fn create_tc_manager() -> TcCommandManager {
    TcCommandManager::new()
}

fn whole(n: i64) -> Decimal {
    Decimal::from_int(n)
}

fn get_netem_args(cmd_args: &[String]) -> &[String] {
    if let Some(netem_idx) = cmd_args.iter().position(|arg| arg == "netem") {
        &cmd_args[netem_idx + 1..]
    } else {
        &[]
    }
}

#[test]
fn test_basic_loss_command_generation() {
    let tc_manager = create_tc_manager();
    let args = tc_manager.generate_tc_command(
        "default", "eth0", "replace", whole(5), None, None, None, None, None, None, None, None,
        None, None, None, None,
    );
    assert_eq!(args[0], "tc");
    assert_eq!(args[1], "qdisc");
    assert_eq!(args[2], "replace");
    assert_eq!(args[3], "dev");
    assert_eq!(args[4], "eth0");
    assert_eq!(args[5], "root");
    assert_eq!(args[6], "netem");
    let netem_args = get_netem_args(&args);
    assert_eq!(netem_args, &["loss", "random", "5%"]);
}

#[test]
fn test_loss_with_correlation() {
    let tc_manager = create_tc_manager();
    let args = tc_manager.generate_tc_command(
        "default", "eth0", "replace", whole(10), Some(whole(25)), None, None, None, None, None,
        None, None, None, None, None, None,
    );
    let netem_args = get_netem_args(&args);
    assert_eq!(netem_args, &["loss", "random", "10%", "25%"]);
}

#[test]
fn test_delay_only() {
    let tc_manager = create_tc_manager();
    let args = tc_manager.generate_tc_command(
        "default", "eth0", "replace", whole(0), None, Some(whole(100)), None, None, None, None,
        None, None, None, None, None, None,
    );
    let netem_args = get_netem_args(&args);
    assert_eq!(netem_args, &["delay", "100ms"]);
}

#[test]
fn test_delay_with_jitter() {
    let tc_manager = create_tc_manager();
    let args = tc_manager.generate_tc_command(
        "default", "eth0", "replace", whole(0), None, Some(whole(100)), Some(whole(20)), None, None,
        None, None, None, None, None, None, None,
    );
    let netem_args = get_netem_args(&args);
    assert_eq!(netem_args, &["delay", "100ms", "20ms"]);
}

#[test]
fn test_delay_with_jitter_and_correlation() {
    let tc_manager = create_tc_manager();
    let args = tc_manager.generate_tc_command(
        "default", "eth0", "replace", whole(0), None, Some(whole(100)), Some(whole(20)),
        Some(whole(75)), None, None, None, None, None, None, None, None,
    );
    let netem_args = get_netem_args(&args);
    assert_eq!(netem_args, &["delay", "100ms", "20ms", "75%"]);
}

#[test]
fn test_duplicate_parameters() {
    let tc_manager = create_tc_manager();
    let args = tc_manager.generate_tc_command(
        "default", "eth0", "replace", whole(0), None, None, None, None, Some(whole(15)),
        Some(whole(30)), None, None, None, None, None, None,
    );
    let netem_args = get_netem_args(&args);
    assert_eq!(netem_args, &["duplicate", "15%", "30%"]);
}

#[test]
fn test_reorder_without_delay_adds_automatic_delay() {
    let tc_manager = create_tc_manager();
    let args = tc_manager.generate_tc_command(
        "default", "eth0", "replace", whole(0), None, None, None, None, None, None,
        Some(whole(25)), None, None, None, None, None,
    );
    let netem_args = get_netem_args(&args);
    assert_eq!(netem_args, &["delay", "1ms", "reorder", "25%"]);
}

#[test]
fn test_reorder_with_existing_delay() {
    let tc_manager = create_tc_manager();
    let args = tc_manager.generate_tc_command(
        "default", "eth0", "replace", whole(0), None, Some(whole(50)), None, None, None, None,
        Some(whole(25)), Some(whole(80)), Some(5), None, None, None,
    );
    let netem_args = get_netem_args(&args);
    assert_eq!(
        netem_args,
        &["delay", "50ms", "reorder", "25%", "80%", "gap", "5"]
    );
}

#[test]
fn test_corrupt_parameters() {
    let tc_manager = create_tc_manager();
    let args = tc_manager.generate_tc_command(
        "default", "eth0", "replace", whole(0), None, None, None, None, None, None, None, None,
        None, Some(whole(8)), Some(whole(40)), None,
    );
    let netem_args = get_netem_args(&args);
    assert_eq!(netem_args, &["corrupt", "8%", "40%"]);
}

#[test]
fn test_rate_limit_kbps() {
    let tc_manager = create_tc_manager();
    let args = tc_manager.generate_tc_command(
        "default", "eth0", "replace", whole(0), None, None, None, None, None, None, None, None,
        None, None, None, Some(512),
    );
    let netem_args = get_netem_args(&args);
    assert_eq!(netem_args, &["rate", "512kbit"]);
}

#[test]
fn test_rate_limit_mbps_conversion() {
    let tc_manager = create_tc_manager();
    let args = tc_manager.generate_tc_command(
        "default", "eth0", "replace", whole(0), None, None, None, None, None, None, None, None,
        None, None, None, Some(2000),
    );
    let netem_args = get_netem_args(&args);
    assert_eq!(netem_args, &["rate", "2mbit"]);
}

#[test]
fn test_namespace_command_generation() {
    let tc_manager = create_tc_manager();
    let args = tc_manager.generate_tc_command(
        "test-ns", "veth0", "add", whole(5), None, None, None, None, None, None, None, None, None,
        None, None, None,
    );
    assert_eq!(args[0], "ip");
    assert_eq!(args[1], "netns");
    assert_eq!(args[2], "exec");
    assert_eq!(args[3], "test-ns");
    assert_eq!(args[4], "tc");
    assert_eq!(args[5], "qdisc");
    assert_eq!(args[6], "add");
    assert_eq!(args[7], "dev");
    assert_eq!(args[8], "veth0");
}

#[test]
fn test_complex_all_parameters() {
    let tc_manager = create_tc_manager();
    let args = tc_manager.generate_tc_command(
        "default",
        "eth0",
        "replace",
        Decimal::new(25, 1),
        Some(whole(15)),
        Some(whole(50)),
        Some(whole(10)),
        Some(whole(25)),
        Some(whole(5)),
        Some(whole(20)),
        Some(whole(30)),
        Some(whole(60)),
        Some(3),
        Some(whole(1)),
        Some(whole(10)),
        Some(1000),
    );
    let netem_args = get_netem_args(&args);
    let expected = vec![
        "loss", "random", "2.5%", "15%", "delay", "50ms", "10ms", "25%", "duplicate", "5%",
        "20%", "reorder", "30%", "60%", "gap", "3", "corrupt", "1%", "10%", "rate", "1mbit",
    ];
    assert_eq!(netem_args, expected.as_slice());
}

#[test]
fn test_zero_values_ignored() {
    let tc_manager = create_tc_manager();
    let args = tc_manager.generate_tc_command(
        "default",
        "eth0",
        "replace",
        whole(0),
        Some(whole(15)),
        Some(whole(0)),
        Some(whole(10)),
        Some(whole(25)),
        Some(whole(0)),
        Some(whole(20)),
        Some(whole(0)),
        Some(whole(60)),
        Some(3),
        Some(whole(0)),
        Some(whole(10)),
        Some(0),
    );
    let netem_args = get_netem_args(&args);
    assert_eq!(netem_args, &[] as &[String]);
}

#[test]
fn test_edge_case_very_small_values() {
    let tc_manager = create_tc_manager();
    let args = tc_manager.generate_tc_command(
        "default",
        "eth0",
        "replace",
        Decimal::new(1, 2),
        None,
        Some(Decimal::new(5, 1)),
        None,
        None,
        None,
        None,
        None,
        None,
        None,
        None,
        None,
        Some(1),
    );
    let netem_args = get_netem_args(&args);
    assert_eq!(
        netem_args,
        &["loss", "random", "0.01%", "delay", "0.5ms", "rate", "1kbit"]
    );
}

#[test]
fn test_edge_case_maximum_values() {
    let tc_manager = create_tc_manager();
    let args = tc_manager.generate_tc_command(
        "default",
        "eth0",
        "replace",
        whole(100),
        Some(whole(100)),
        Some(whole(5000)),
        Some(whole(1000)),
        Some(whole(100)),
        Some(whole(100)),
        Some(whole(100)),
        Some(whole(100)),
        Some(whole(100)),
        Some(10),
        Some(whole(100)),
        Some(whole(100)),
        Some(1000000),
    );
    let netem_args = get_netem_args(&args);
    let expected = vec![
        "loss", "random", "100%", "100%", "delay", "5000ms", "1000ms", "100%", "duplicate",
        "100%", "100%", "reorder", "100%", "100%", "gap", "10", "corrupt", "100%", "100%",
        "rate", "1000mbit",
    ];
    assert_eq!(netem_args, expected.as_slice());
}

#[test]
fn test_parameter_validation_ranges() {
    let tc_manager = create_tc_manager();
    let args = tc_manager.generate_tc_command(
        "default",
        "eth0",
        "replace",
        whole(-5),
        None,
        Some(whole(-100)),
        None,
        None,
        None,
        None,
        None,
        None,
        None,
        None,
        None,
        None,
    );
    let netem_args = get_netem_args(&args);
    assert_eq!(netem_args, &[] as &[String]);
}
