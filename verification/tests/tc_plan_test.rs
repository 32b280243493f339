//! Decisions around netem installation, plugs and rollback.
use tcgui_backend::decimal::Decimal;
use tcgui_backend::tc_commands::{
    ApplyAction, NamespaceTarget, NetemReadings, PlugGraft, QdiscHandle, QdiscRecord,
    TcCommandManager, TcError,
};
use tcgui_backend::tc_config::{
    netem_plan, TcCorruptConfig, TcDelayConfig, TcDuplicateConfig, TcLossConfig, TcNetemConfig,
    TcRateLimitConfig, TcReorderConfig,
};

fn whole(n: i64) -> Decimal {
    Decimal::from_int(n)
}

#[test]
fn apply_action_depends_on_what_is_installed() {
    assert_eq!(TcCommandManager::choose_apply_action("ns", "eth0", Some(false), true, "").unwrap(), ApplyAction::Replace);
    assert_eq!(TcCommandManager::choose_apply_action("ns", "eth0", Some(true), false, "").unwrap(), ApplyAction::Recreate);
    assert!(matches!(
        TcCommandManager::choose_apply_action("ns", "eth0", Some(true), true, ""),
        Err(TcError::Plugged { .. })
    ));
    assert_eq!(TcCommandManager::choose_apply_action("ns", "eth0", None, false, "").unwrap(), ApplyAction::Add);
    assert_eq!(
        TcCommandManager::choose_apply_action("ns", "eth0", None, false, "qdisc noqueue 0: root").unwrap(),
        ApplyAction::Add
    );
    assert_eq!(
        TcCommandManager::choose_apply_action("ns", "eth0", None, false, "qdisc fq_codel 0: root").unwrap(),
        ApplyAction::DeleteThenAdd
    );
}

#[test]
fn namespaces_are_reached_by_kind() {
    assert!(matches!(TcCommandManager::connection_target("default", None, false), Ok(NamespaceTarget::Default)));
    match TcCommandManager::connection_target("blue", None, false) {
        Ok(NamespaceTarget::Named(n)) => assert_eq!(n, "blue"),
        other => panic!("unexpected {:?}", other),
    }
    match TcCommandManager::connection_target("container:web", Some("/proc/7/ns/net"), true) {
        Ok(NamespaceTarget::Path(p)) => assert_eq!(p, "/proc/7/ns/net"),
        other => panic!("unexpected {:?}", other),
    }
    assert!(matches!(
        TcCommandManager::connection_target("container:web", None, true),
        Err(TcError::MissingNamespacePath { .. })
    ));
    assert!(matches!(
        TcCommandManager::connection_target("container:web", Some("/proc/7/ns/net"), false),
        Err(TcError::StaleNamespacePath { .. })
    ));
    assert!(TcCommandManager::is_container_namespace("container:x"));
    assert!(!TcCommandManager::is_container_namespace("default"));
}

#[test]
fn plug_placement() {
    assert_eq!(
        TcCommandManager::plug_parent(QdiscHandle { major: 8001, minor: 0 }).unwrap(),
        QdiscHandle { major: 8001, minor: 1 }
    );
    assert!(matches!(TcCommandManager::plug_parent(QdiscHandle { major: 0, minor: 0 }), Err(TcError::NoHandleMajor)));
    assert_eq!(TcCommandManager::plug_root_plan("n", "i", None, None).unwrap(), (1, true));
    assert_eq!(TcCommandManager::plug_root_plan("n", "i", Some("pfifo_fast"), None).unwrap(), (1, true));
    assert_eq!(
        TcCommandManager::plug_root_plan("n", "i", Some("netem"), Some(QdiscHandle { major: 5, minor: 0 })).unwrap(),
        (5, false)
    );
    assert_eq!(TcCommandManager::plug_root_plan("n", "i", Some("netem"), None).unwrap(), (0xffff, false));
    match TcCommandManager::plug_root_plan("n", "i", Some("htb"), None) {
        Err(TcError::ForeignRootQdisc { kind, .. }) => assert_eq!(kind, "htb"),
        other => panic!("unexpected {:?}", other),
    }
    assert_eq!(TcCommandManager::plug_graft_action("n", "i", None, 5).unwrap(), PlugGraft::Graft);
    assert_eq!(
        TcCommandManager::plug_graft_action("n", "i", Some(QdiscHandle { major: 5, minor: 1 }), 5).unwrap(),
        PlugGraft::NewEpoch
    );
    assert!(matches!(
        TcCommandManager::plug_graft_action("n", "i", Some(QdiscHandle { major: 6, minor: 1 }), 5),
        Err(TcError::PlugElsewhere { parent_major: 6, parent_minor: 1, root_major: 5, .. })
    ));
}

#[test]
fn plug_limits_and_snapshots() {
    assert_eq!(TcCommandManager::default_plug_limit(Some(10), None, None), 10);
    assert_eq!(TcCommandManager::default_plug_limit(None, None, None), 1_500_000);
    assert_eq!(TcCommandManager::default_plug_limit(None, Some(10), Some(100)), 1000);
    assert_eq!(TcCommandManager::default_plug_limit(None, Some(1), Some(1500)), 1500);
    assert_eq!(TcCommandManager::default_plug_limit(None, Some(u32::MAX), Some(2)), u32::MAX);
    let s = TcCommandManager::plug_snapshot(3, 4096, true, Some((100, 2)));
    assert_eq!(s.parent, QdiscHandle { major: 3, minor: 1 });
    assert!(s.buffering);
    assert_eq!((s.buffered_bytes, s.buffered_packets), (100, 2));
    let e = TcCommandManager::plug_snapshot(3, 4096, false, None);
    assert_eq!((e.buffered_bytes, e.buffered_packets), (0, 0));
    assert!(TcCommandManager::must_drain_before_removal(Some(1)));
    assert!(!TcCommandManager::must_drain_before_removal(Some(0)));
    assert!(!TcCommandManager::must_drain_before_removal(None));
}

#[test]
fn messages() {
    assert_eq!(TcCommandManager::removal_message(true), "TC config removed successfully");
    assert_eq!(TcCommandManager::removal_message(false), "No TC config to remove");
    assert_eq!(TcCommandManager::applied_message("ns", "eth0"), "TC config applied successfully to ns:eth0");
}

fn readings() -> NetemReadings {
    NetemReadings {
        loss: Some(whole(5)),
        loss_correlation: None,
        delay_ms: Some(100),
        jitter_ms: Some(10),
        delay_correlation: Some(whole(30)),
        duplicate: None,
        duplicate_correlation: None,
        reorder: Some(whole(25)),
        reorder_correlation: None,
        gap: None,
        corrupt: None,
        corrupt_correlation: None,
        rate_bps: Some(125_000),
    }
}

#[test]
fn captured_state_and_rollback() {
    let state = TcCommandManager::capture_state("ns", "eth0", Some("qdisc netem 8001: root".to_string()), Some(readings()));
    assert!(state.had_netem);
    assert!(state.had_tc_config());
    let c = state.netem_config.unwrap();
    assert!(c.loss.enabled);
    assert!(c.delay.enabled);
    assert_eq!(c.delay.base_ms.to_string(), "100");
    assert_eq!(c.reorder.gap, 5);
    assert!(!c.duplicate.enabled);
    assert_eq!(c.rate_limit.rate_kbps, 125);
    assert!(c.rate_limit.enabled);

    let p = netem_plan(&c);
    assert_eq!(p.delay_ms, Some(100));
    assert_eq!(p.jitter_ms, Some(10));
    assert_eq!(p.gap, Some(5));
    assert_eq!(p.rate_kbit, Some(125));

    assert_eq!(
        TcCommandManager::restore_message(&state, Some(None)),
        "TC state restored with original configuration"
    );
    assert_eq!(
        TcCommandManager::restore_message(&state, Some(Some("busy"))),
        "TC state partially restored (config reapply failed: busy)"
    );

    let none = TcCommandManager::capture_state("ns", "eth0", None, None);
    assert!(!none.had_netem);
    assert!(none.netem_config.is_none());
    assert_eq!(
        TcCommandManager::restore_message(&none, None),
        "TC state restored (no previous configuration)"
    );
    let other = TcCommandManager::capture_state("ns", "eth0", Some("qdisc netem 1: root".to_string()), None);
    assert!(other.netem_config.is_none());
    assert_eq!(
        TcCommandManager::restore_message(&other, None),
        "TC state restored (previous config cleared)"
    );
}

#[test]
fn capturing_an_installed_netem_plans_it_again() {
    let c = TcNetemConfig {
        loss: TcLossConfig { enabled: true, percentage: Decimal::new(25, 1), correlation: whole(10) },
        delay: TcDelayConfig { enabled: true, base_ms: whole(40), jitter_ms: whole(4), correlation: whole(20) },
        duplicate: TcDuplicateConfig { enabled: false, percentage: whole(3), correlation: whole(0) },
        reorder: TcReorderConfig { enabled: true, percentage: whole(15), correlation: whole(0), gap: 3 },
        corrupt: TcCorruptConfig { enabled: true, percentage: Decimal::new(5, 1), correlation: whole(0) },
        rate_limit: TcRateLimitConfig { enabled: false, rate_kbps: 0 },
    };
    let p = netem_plan(&c);
    let read_back = NetemReadings {
        loss: p.loss,
        loss_correlation: p.loss_correlation,
        delay_ms: p.delay_ms,
        jitter_ms: p.jitter_ms,
        delay_correlation: p.delay_correlation,
        duplicate: p.duplicate,
        duplicate_correlation: p.duplicate_correlation,
        reorder: p.reorder,
        reorder_correlation: p.reorder_correlation,
        gap: p.gap,
        corrupt: p.corrupt,
        corrupt_correlation: p.corrupt_correlation,
        rate_bps: p.rate_kbit.map(|k| k * 125),
    };
    let captured = TcCommandManager::captured_netem_config(&read_back);
    let again = netem_plan(&captured);
    let show = |o: Option<Decimal>| o.map(|d| d.to_string());
    assert_eq!(show(again.loss), show(p.loss));
    assert_eq!(show(again.loss_correlation), show(p.loss_correlation));
    assert_eq!(again.delay_ms, p.delay_ms);
    assert_eq!(again.jitter_ms, p.jitter_ms);
    assert_eq!(show(again.delay_correlation), show(p.delay_correlation));
    assert_eq!(show(again.duplicate), show(p.duplicate));
    assert_eq!(show(again.reorder), show(p.reorder));
    assert_eq!(again.gap, p.gap);
    assert_eq!(show(again.corrupt), show(p.corrupt));
    assert_eq!(again.rate_kbit, None);
}

#[test]
fn a_captured_rate_limit_comes_back_divided() {
    let r = NetemReadings {
        loss: None,
        loss_correlation: None,
        delay_ms: None,
        jitter_ms: None,
        delay_correlation: None,
        duplicate: None,
        duplicate_correlation: None,
        reorder: None,
        reorder_correlation: None,
        gap: None,
        corrupt: None,
        corrupt_correlation: None,
        rate_bps: Some(1000 * 125),
    };
    let captured = TcCommandManager::captured_netem_config(&r);
    assert_eq!(captured.rate_limit.rate_kbps, 125);
    assert_eq!(netem_plan(&captured).rate_kbit, Some(125));
}

fn record(at_root: bool, kind: Option<&str>, major: u16, parent_major: u16, backlog: u32) -> QdiscRecord {
    QdiscRecord {
        at_root,
        kind: kind.map(|k| k.to_string()),
        handle: QdiscHandle { major, minor: 0 },
        parent: QdiscHandle { major: parent_major, minor: 1 },
        backlog,
        qlen: backlog / 100,
    }
}

#[test]
fn qdisc_layout_finds_root_and_plug() {
    let (kind, handle, plug) = TcCommandManager::qdisc_layout(&vec![]);
    assert!(kind.is_none() && handle.is_none() && plug.is_none());

    let list = vec![
        record(true, Some("netem"), 8001, 0xffff, 0),
        record(false, Some("plug"), 1, 8001, 300),
        record(false, Some("pfifo"), 2, 1, 0),
    ];
    let (kind, handle, plug) = TcCommandManager::qdisc_layout(&list);
    assert_eq!(kind.as_deref(), Some("netem"));
    assert_eq!(handle, Some(QdiscHandle { major: 8001, minor: 0 }));
    assert_eq!(plug, Some((QdiscHandle { major: 8001, minor: 1 }, 300, 3)));
    assert!(TcCommandManager::must_drain_before_removal(plug.map(|p| p.1)));

    let (kind, _, plug) = TcCommandManager::qdisc_layout(&vec![record(true, None, 0, 0xffff, 0)]);
    assert!(kind.is_none());
    assert!(plug.is_none());
}
