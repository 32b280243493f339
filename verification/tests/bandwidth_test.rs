//! Interface counters from `/proc/net/dev`.
use tcgui_backend::bandwidth::{latest_by_interface, parse_proc_net_dev, reading_deltas, InterfaceCounters};

const PROC_NET_DEV: &str = r#"Inter-|   Receive                                                |  Transmit
 face |bytes    packets errs drop fifo frame compressed multicast|bytes    packets errs drop fifo colls carrier compressed
    lo:       0       0    0    0    0     0          0         0        0       0    0    0    0     0       0          0
  eth0: 1234567      100    1    2    0     0          0         0  9876543      200    0    1    0     0       0          0
  wlan0:  500000       50    0    0    0     0          0         0   300000       40    0    0    0     0       0          0
"#;

#[test]
fn test_parse_proc_net_dev() {
    let result = latest_by_interface(parse_proc_net_dev(PROC_NET_DEV));

    assert_eq!(result.len(), 3);

    let eth0_stats = result.iter().find(|c| c.name == "eth0").unwrap();
    assert_eq!(eth0_stats.rx_bytes, 1234567);
    assert_eq!(eth0_stats.tx_bytes, 9876543);
}

#[test]
fn all_counter_fields_are_read() {
    let records = parse_proc_net_dev(PROC_NET_DEV);
    assert_eq!(records.len(), 3);
    let eth0 = &records[1];
    assert_eq!(eth0.name, "eth0");
    assert_eq!(eth0.rx_packets, 100);
    assert_eq!(eth0.rx_errors, 1);
    assert_eq!(eth0.rx_dropped, 2);
    assert_eq!(eth0.tx_packets, 200);
    assert_eq!(eth0.tx_errors, 0);
    assert_eq!(eth0.tx_dropped, 1);
}

#[test]
fn short_lines_and_headers_are_skipped() {
    let text = "h1\nh2\n eth0: 1 2 3\nnocolon 1 2 3 4 5 6 7 8 9 10 11 12 13 14 15 16\n x: a 1 1 1 1 1 1 1 9 1 1 1 1 1 1 1\n";
    let records = parse_proc_net_dev(text);
    assert_eq!(records.len(), 1);
    assert_eq!(records[0].name, "x");
    assert_eq!(records[0].rx_bytes, 0);
    assert_eq!(records[0].tx_bytes, 9);
    assert!(parse_proc_net_dev("only one line").is_empty());
}

#[test]
fn the_last_reading_of_an_interface_wins() {
    let text = "h\nh\n a: 1 0 0 0 0 0 0 0 1 0 0 0 0 0 0 0\n a: 7 0 0 0 0 0 0 0 8 0 0 0 0 0 0 0\n";
    let merged = latest_by_interface(parse_proc_net_dev(text));
    assert_eq!(merged.len(), 1);
    assert_eq!(merged[0].rx_bytes, 7);
    assert_eq!(merged[0].tx_bytes, 8);
}

fn counters(rx: u64, tx: u64) -> InterfaceCounters {
    InterfaceCounters {
        name: "eth0".to_string(),
        rx_bytes: rx,
        rx_packets: 0,
        rx_errors: 0,
        rx_dropped: 0,
        tx_bytes: tx,
        tx_packets: 0,
        tx_errors: 0,
        tx_dropped: 0,
    }
}

#[test]
fn test_calculate_rates() {
    let previous = counters(1000, 500);
    let current = counters(3000, 1500);
    let (rx, tx, dt) = reading_deltas(&current, 102, &previous, 100);
    assert_eq!((rx, tx, dt), (2000, 1000, 2));
    assert_eq!(rx as f64 / dt as f64, 1000.0);
    assert_eq!(tx as f64 / dt as f64, 500.0);
}

#[test]
fn deltas_never_go_below_zero() {
    let (rx, tx, dt) = reading_deltas(&counters(10, 10), 5, &counters(20, 30), 9);
    assert_eq!((rx, tx, dt), (0, 0, 0));
}
