//! Answers to traffic control and interface control requests.
use tcgui_backend::decimal::Decimal;
use tcgui_backend::responses::{interface_control_response, tc_query_response, TcQueryOp};
use tcgui_backend::tc_config::build_tc_configuration;

#[test]
fn interface_answers() {
    let ok = interface_control_response(true, "ns1", "eth0", None);
    assert!(ok.success);
    assert_eq!(ok.message, "Interface eth0 enabled successfully in namespace ns1");
    assert!(ok.new_state);
    assert_eq!(ok.error_code, None);

    let off = interface_control_response(false, "default", "eth1", None);
    assert_eq!(off.message, "Interface eth1 disabled successfully in namespace default");
    assert!(!off.new_state);

    let failed = interface_control_response(false, "default", "eth1", Some("no such device"));
    assert!(!failed.success);
    assert_eq!(failed.message, "Failed to disable interface: no such device");
    assert!(failed.new_state);
    assert_eq!(failed.error_code, Some(-1));
}

fn some_config() -> tcgui_backend::tc_config::TcConfiguration {
    build_tc_configuration(
        "eth0", Decimal::from_int(5), None, None, None, None, None, None, None, None, None, None,
        None, None,
    )
}

#[test]
fn tc_answers_on_success() {
    let r = tc_query_response(TcQueryOp::ApplyConfig, "ns", "eth0", Some(some_config()), None);
    assert!(r.success);
    assert_eq!(r.message, "Structured TC config applied successfully to ns:eth0");
    assert_eq!(r.applied_config.unwrap().command, "tc qdisc replace dev eth0 root netem loss 5%");
    assert_eq!(r.error_code, None);

    let flat = tc_query_response(TcQueryOp::Apply { meaningful: true }, "ns", "eth0", Some(some_config()), None);
    assert_eq!(flat.message, "TC applied successfully to ns:eth0");
    assert!(flat.applied_config.is_some());

    let cleared = tc_query_response(TcQueryOp::Apply { meaningful: false }, "ns", "eth0", Some(some_config()), None);
    assert_eq!(cleared.message, "TC removed from ns:eth0 (no meaningful parameters)");
    assert!(cleared.applied_config.is_none());

    let removed = tc_query_response(TcQueryOp::Remove, "ns", "eth0", None, None);
    assert_eq!(removed.message, "TC removed successfully from ns:eth0");
}

#[test]
fn tc_answers_on_failure() {
    let r = tc_query_response(TcQueryOp::ApplyConfig, "ns", "eth0", Some(some_config()), Some("busy"));
    assert!(!r.success);
    assert_eq!(r.message, "Failed to apply structured TC config: busy");
    assert!(r.applied_config.is_none());
    assert_eq!(r.error_code, Some(-1));
    assert_eq!(
        tc_query_response(TcQueryOp::Apply { meaningful: true }, "n", "i", None, Some("x")).message,
        "Failed to apply TC: x"
    );
    assert_eq!(
        tc_query_response(TcQueryOp::Apply { meaningful: false }, "n", "i", None, Some("x")).message,
        "Failed to remove TC: x"
    );
    assert_eq!(tc_query_response(TcQueryOp::Remove, "n", "i", None, Some("gone")).message, "Failed to remove TC: gone");
}
