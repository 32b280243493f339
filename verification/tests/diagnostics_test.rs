//! Reading ping output.
use tcgui_backend::decimal::Decimal;
use tcgui_backend::diagnostics::{
    parse_packet_loss, parse_ping_output, summary_message, DiagnosticsFindings, LatencyFigures,
};

fn as_f64(d: &Decimal) -> f64 {
    d.units() as f64 / 10f64.powi(d.scale() as i32)
}

#[test]
fn test_parse_ping_output() {
    let output = r#"PING 8.8.8.8 (8.8.8.8) 56(84) bytes of data.
64 bytes from 8.8.8.8: icmp_seq=1 ttl=117 time=12.3 ms
64 bytes from 8.8.8.8: icmp_seq=2 ttl=117 time=11.8 ms
64 bytes from 8.8.8.8: icmp_seq=3 ttl=117 time=12.1 ms

--- 8.8.8.8 ping statistics ---
3 packets transmitted, 3 received, 0% packet loss, time 2003ms
rtt min/avg/max/mdev = 11.800/12.067/12.300/0.205 ms"#;

    let result = parse_ping_output(output, "8.8.8.8", 3);
    assert!(result.is_some());
    let lat = result.unwrap();
    assert!((as_f64(&lat.min_ms) - 11.8).abs() < 0.01);
    assert!((as_f64(&lat.avg_ms) - 12.067).abs() < 0.01);
    assert!((as_f64(&lat.max_ms) - 12.3).abs() < 0.01);
    assert!((as_f64(&lat.packet_loss_percent) - 0.0).abs() < 0.01);
    assert_eq!(lat.target, "8.8.8.8");
    assert_eq!(lat.samples, 3);
}

#[test]
fn test_parse_packet_loss() {
    let output = "3 packets transmitted, 2 received, 33.33% packet loss, time 2003ms";
    let loss = parse_packet_loss(output);
    assert!((as_f64(&loss) - 33.33).abs() < 0.01);
}

#[test]
fn test_parse_packet_loss_integer() {
    let output = "5 packets transmitted, 4 received, 20% packet loss, time 4000ms";
    let loss = parse_packet_loss(output);
    assert!((as_f64(&loss) - 20.0).abs() < 0.01);
}

#[test]
fn loss_is_zero_without_a_loss_line() {
    let loss = parse_packet_loss("no statistics here\n100% of nothing");
    assert_eq!(loss.units(), 0);
    assert_eq!(loss.to_string(), "0");
}

#[test]
fn loss_exact_value() {
    let loss = parse_packet_loss("x\n4 packets transmitted, 1 received, 75% packet loss, time 3s");
    assert_eq!(loss.to_string(), "75");
}

#[test]
fn no_summary_line_gives_nothing() {
    assert!(parse_ping_output("ping: unknown host", "nowhere", 3).is_none());
    assert!(parse_ping_output("rtt min/avg/max/mdev = a/b/c/d ms", "x", 1).is_none());
}

#[test]
fn summary_with_loss() {
    let out = "2 packets transmitted, 1 received, 50% packet loss\nrtt min/avg/max/mdev = 1.5/2.25/3/0.5 ms";
    let lat = parse_ping_output(out, "h", 2).unwrap();
    assert_eq!(lat.min_ms.to_string(), "1.5");
    assert_eq!(lat.avg_ms.to_string(), "2.25");
    assert_eq!(lat.max_ms.to_string(), "3");
    assert_eq!(lat.packet_loss_percent.to_string(), "50");
}

#[test]
fn summary_lists_what_was_found() {
    let all = DiagnosticsFindings {
        link_up: true,
        has_carrier: true,
        connectivity: Some(("8.8.8.8".to_string(), true)),
        latency: Some(LatencyFigures {
            avg_text: "12.1".to_string(),
            loss: Decimal::new(3333, 2),
            loss_text: "33.3".to_string(),
        }),
        tc_active: true,
        tc_stats: Some((4, 0)),
    };
    assert_eq!(
        summary_message(&all),
        "Link UP, 8.8.8.8 reachable, avg latency: 12.1ms, 33.3% loss, TC active, TC: 4 drops, 0 overlimits"
    );
    let little = DiagnosticsFindings {
        link_up: true,
        has_carrier: false,
        connectivity: Some(("10.0.0.1".to_string(), false)),
        latency: Some(LatencyFigures { avg_text: "0.5".to_string(), loss: Decimal::from_int(0), loss_text: "0.0".to_string() }),
        tc_active: false,
        tc_stats: Some((0, 0)),
    };
    assert_eq!(summary_message(&little), "Link UP (no carrier), 10.0.0.1 unreachable, avg latency: 0.5ms");
    let down = DiagnosticsFindings {
        link_up: false,
        has_carrier: true,
        connectivity: None,
        latency: None,
        tc_active: false,
        tc_stats: None,
    };
    assert_eq!(summary_message(&down), "Link DOWN");
}
