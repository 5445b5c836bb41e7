//! End-to-end scenarios of the connection manager, driven the way the
//! surrounding service would drive it.

use connection_manager::machine::ConnMgr;
use connection_manager::registry::WifiStateSubscription;
use connection_manager::selector::get_next_ssid;
use connection_manager::ssid_set::SsidSet;
use connection_manager::types::{
    pack_ec_rev, ConnectResult, IpState, LinkState, SsidInfo, SsidScanState, WifiState,
    WlanStatus, MIN_EC_REV,
};

fn names(list: &[&str]) -> Vec<String> {
    list.iter().map(|s| s.to_string()).collect()
}

/// A machine on adequate firmware whose poll gate is about to fire.
fn ready_mgr() -> ConnMgr {
    let mut m = ConnMgr::new(MIN_EC_REV);
    m.activity_ms = 20_000;
    m
}

#[test]
fn happy_path() {
    let mut m = ready_mgr();
    assert!(m.run_enabled);
    m.subscribers
        .subscribe(7, WifiStateSubscription { sid: [1, 2, 3, 4], opcode: 9 })
        .unwrap();
    // the pre-fetch path: an SSID seen mid-scan is enough to try a join
    m.handle_scan_update(&names(&["home"]));

    let g = m.poll_begin(true);
    assert!(g.reconcile);
    assert!(!g.broadcast_disconnect);
    let known = SsidSet::from_vec(&names(&["home"]));
    assert!(m.select_prepare()); // the still-running scan gets parked
    assert_eq!(m.scan, SsidScanState::Idle);
    let candidate = m.next_candidate(&known);
    assert_eq!(candidate.as_deref(), Some("home"));
    m.confirm_join();
    assert_eq!(m.state, WifiState::Connecting);
    m.poll_commit();

    let stop_scan = m.handle_connect_result(ConnectResult::Success);
    assert!(stop_scan);
    assert_eq!(m.state, WifiState::WaitDhcp);

    let snapshot = WlanStatus::new(
        Some(SsidInfo { name: "home".to_string(), rssi: 40 }),
        LinkState::Connected,
        IpState::Bound,
    );
    m.handle_ip_config_update(snapshot);
    assert_eq!(m.state, WifiState::Connected);
    // one broadcast, to every subscriber exactly once
    assert_eq!(m.subscribers.cids(), vec![7]);
    assert_eq!(m.status.ssid.as_ref().unwrap().name, "home");
    assert_eq!(m.status.ssid.as_ref().unwrap().rssi, 40);
}

#[test]
fn bad_password_reselects_and_cycles() {
    let mut m = ready_mgr();
    m.handle_scan_finished(&names(&["home", "cafe"]));
    let known = SsidSet::from_vec(&names(&["home", "cafe"]));

    // first attempt
    let g = m.poll_begin(true);
    assert!(g.reconcile);
    m.select_prepare();
    let first = m.next_candidate(&known).expect("a candidate is due");
    m.confirm_join();
    m.poll_commit();
    assert!(m.handle_connect_result(ConnectResult::AuthFail) == false);
    assert_eq!(m.state, WifiState::InvalidAuth);

    // the next poll re-selects: the other candidate comes out
    m.activity_ms = 20_000;
    let g = m.poll_begin(true);
    assert!(g.reconcile);
    m.select_prepare();
    let second = m.next_candidate(&known).expect("a second candidate is due");
    assert_ne!(first, second);
    m.confirm_join();
    m.poll_commit();
    assert!(m.handle_connect_result(ConnectResult::AuthFail) == false);

    // both were attempted: the selector reseeds and cycles back
    m.activity_ms = 20_000;
    m.poll_begin(true);
    let third = m.next_candidate(&known).expect("selection is cyclic");
    assert!(third == "home" || third == "cafe");
}

#[test]
fn timeout_then_retry() {
    let mut m = ready_mgr();
    m.handle_scan_finished(&names(&["home"]));
    let known = SsidSet::from_vec(&names(&["home"]));
    m.poll_begin(true);
    m.select_prepare();
    m.next_candidate(&known).expect("a candidate is due");
    m.confirm_join();
    m.poll_commit();
    assert_eq!(m.state, WifiState::Connecting);

    // no interrupt arrives; the waiting polls burn the interval budget
    m.poll_waiting();
    m.poll_waiting();
    m.poll_waiting();
    assert_eq!(m.state, WifiState::Connecting); // budget not yet exceeded
    m.poll_waiting();
    assert_eq!(m.state, WifiState::Retry); // exceeded on the next poll

    let a = m.poll_retry();
    assert!(a.leave);
    assert!(a.net_reset);
    assert!(a.inject_poll); // the self-poll, so selection is not delayed
    assert_eq!(m.state, WifiState::Disconnected);
    assert_eq!(m.scan, SsidScanState::Scanning);

    // the injected poll selects afresh
    m.activity_ms = 20_000;
    m.poll_begin(true);
    m.select_prepare();
    assert_eq!(m.next_candidate(&known).as_deref(), Some("home"));
}

#[test]
fn move_out_of_range() {
    let mut m = ready_mgr();
    m.handle_scan_finished(&names(&["home"]));
    m.handle_ip_config_update(WlanStatus::new(
        Some(SsidInfo { name: "home".to_string(), rssi: 40 }),
        LinkState::Connected,
        IpState::Bound,
    ));
    m.poll_commit(); // a pass committed while connected
    assert_eq!(m.state, WifiState::Connected);

    m.handle_disconnect();
    assert_eq!(m.state, WifiState::Disconnected);
    assert_eq!(m.scan, SsidScanState::Scanning); // scan restarted
    assert_eq!(m.ssid_list.len(), 0); // visible list cleared

    // the edge detection broadcasts one default snapshot
    m.activity_ms = 20_000;
    let g = m.poll_begin(true);
    assert!(g.broadcast_disconnect);
    assert!(m.status.ssid.is_none());
    m.poll_commit();

    // and only one: the following poll broadcasts nothing
    m.activity_ms = 20_000;
    let g2 = m.poll_begin(true);
    assert!(!g2.broadcast_disconnect);
}

#[test]
fn resume_broadcast_settles_the_edge() {
    let mut m = ready_mgr();
    m.handle_ip_config_update(WlanStatus::new(
        Some(SsidInfo { name: "home".to_string(), rssi: 40 }),
        LinkState::Connected,
        IpState::Bound,
    ));
    m.poll_commit(); // a pass committed while connected
    // resume finds the link gone: one default snapshot goes out here
    let a = m.reconcile_resume(LinkState::Disconnected);
    assert!(a.broadcast_disconnect);
    assert_eq!(m.state, WifiState::Disconnected);
    // the edge is settled: the next reconciling poll broadcasts no second
    // default snapshot for the same departure
    m.activity_ms = 20_000;
    let g = m.poll_begin(true);
    assert!(g.reconcile);
    assert!(!g.broadcast_disconnect);
}

#[test]
fn disconnect_before_any_commit_still_broadcasts() {
    let mut m = ready_mgr();
    // connect and broadcast the connected snapshot; no poll commits yet
    m.handle_ip_config_update(WlanStatus::new(
        Some(SsidInfo { name: "home".to_string(), rssi: 40 }),
        LinkState::Connected,
        IpState::Bound,
    ));
    // the link drops again right away
    m.handle_disconnect();
    // subscribers saw a connected snapshot, so the edge owes them one
    // default snapshot at the next reconciling poll
    m.activity_ms = 20_000;
    let g = m.poll_begin(true);
    assert!(g.broadcast_disconnect);
    assert!(m.status.ssid.is_none());
}

#[test]
fn resume_divergence() {
    let mut m = ready_mgr();
    m.state = WifiState::Disconnected;
    m.scan = SsidScanState::Idle;

    // the EC claims a link this machine never established: distrust it
    let a = m.reconcile_resume(LinkState::Connected);
    assert!(a.leave);
    assert!(a.net_reset);
    assert!(a.start_scan); // the scanner was idle
    assert!(a.inject_poll);
    assert_eq!(m.state, WifiState::Disconnected);
    assert_eq!(m.scan, SsidScanState::Scanning);
}

#[test]
fn old_firmware_stays_inert() {
    let mut m = ConnMgr::new(pack_ec_rev(0, 9, 5, 0));
    assert!(!m.rev_ok); // below the minimum revision: show the notification
    assert!(!m.run_enabled);
    assert!(!m.pump_begin()); // the pump short-circuits: no poll is emitted

    // even a forced poll reconciles nothing, so no join is ever issued
    m.activity_ms = 20_000;
    m.handle_scan_finished(&names(&["home"]));
    let g = m.poll_begin(true);
    assert!(!g.reconcile);
    assert_eq!(m.state, WifiState::Unknown);
}

#[test]
fn selector_covers_pool_then_reseeds() {
    let visible = SsidSet::from_vec(&names(&["home", "cafe", "lab", "street"]));
    let known = SsidSet::from_vec(&names(&["home", "cafe", "lab"]));
    let mut attempted = SsidSet::new();
    let mut seen: Vec<String> = Vec::new();
    for _ in 0..3 {
        let c = get_next_ssid(&visible, &mut attempted, &known).expect("pool is non-empty");
        assert!(!seen.contains(&c), "no candidate repeats within one pass");
        assert!(c == "home" || c == "cafe" || c == "lab");
        seen.push(c);
    }
    // the pool is exhausted: the next call reseeds and returns an element
    let again = get_next_ssid(&visible, &mut attempted, &known).expect("reseed returns one");
    assert!(seen.contains(&again));
}
