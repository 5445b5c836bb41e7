//! Unit tests of single transitions of the connection manager.

use connection_manager::machine::ConnMgr;
use connection_manager::types::{
    ConnectResult, IpState, LinkState, SsidInfo, SsidScanState, WifiState, WlanStatus,
    BOOT_POLL_INTERVAL_MS, MIN_EC_REV, POLL_INTERVAL_MS,
};

fn connected_mgr(rssi: u8) -> ConnMgr {
    let mut m = ConnMgr::new(MIN_EC_REV);
    m.handle_ip_config_update(WlanStatus::new(
        Some(SsidInfo { name: "home".to_string(), rssi }),
        LinkState::Connected,
        IpState::Bound,
    ));
    m
}

#[test]
fn connect_result_mapping() {
    let cases = [
        (ConnectResult::Success, WifiState::WaitDhcp),
        (ConnectResult::NoMatchingAp, WifiState::InvalidAp),
        (ConnectResult::Timeout, WifiState::Retry),
        (ConnectResult::Reject, WifiState::InvalidAuth),
        (ConnectResult::AuthFail, WifiState::InvalidAuth),
        (ConnectResult::Aborted, WifiState::Retry),
        (ConnectResult::Error, WifiState::Error),
        (ConnectResult::Pending, WifiState::Error), // protocol violation lands in Error
    ];
    for (r, target) in cases {
        let mut m = ConnMgr::new(MIN_EC_REV);
        m.state = WifiState::Connecting;
        m.activity_ms = 999;
        let stop_scan = m.handle_connect_result(r);
        assert_eq!(m.state, target);
        assert_eq!(stop_scan, r == ConnectResult::Success);
        if r == ConnectResult::Success {
            assert_eq!(m.activity_ms, 0); // idle clock cleared on association
            assert_eq!(m.scan, SsidScanState::Idle);
        } else {
            assert_eq!(m.activity_ms, 999);
        }
    }
}

#[test]
fn rssi_rebroadcast_only_on_change() {
    let mut m = connected_mgr(40);
    assert!(m.update_rssi(55)); // changed: broadcast
    assert_eq!(m.status.ssid.as_ref().unwrap().rssi, 55);
    assert!(!m.update_rssi(55)); // unchanged across consecutive polls: silence
    assert!(m.update_rssi(54));
    assert!(!m.update_rssi(54));
}

#[test]
fn rssi_needs_connection_and_name() {
    let mut m = ConnMgr::new(MIN_EC_REV);
    assert!(!m.update_rssi(10)); // not connected
    m.state = WifiState::Connected; // connected but the cache names no SSID
    assert!(!m.update_rssi(10));
}

#[test]
fn interval_tracks_mount_state() {
    let mut m = ConnMgr::new(MIN_EC_REV);
    assert_eq!(m.interval_ms, BOOT_POLL_INTERVAL_MS);
    assert_eq!(m.refresh_interval(), BOOT_POLL_INTERVAL_MS);
    m.activity_ms = 20_000;
    m.poll_begin(true); // reconciling pass latches the mount
    assert!(m.mounted);
    assert_eq!(m.refresh_interval(), POLL_INTERVAL_MS);
    assert_eq!(m.interval_ms, POLL_INTERVAL_MS);
}

#[test]
fn poll_gate_needs_a_full_interval() {
    let mut m = ConnMgr::new(MIN_EC_REV);
    assert!(!m.poll_begin(true).reconcile); // 0 ms idle
    assert!(!m.poll_begin(true).reconcile); // exactly one interval idle
    assert!(m.poll_begin(true).reconcile); // more than one interval idle
}

#[test]
fn idle_clock_wraps_like_the_shared_counter() {
    let mut m = ConnMgr::new(MIN_EC_REV);
    m.activity_ms = u32::MAX;
    let g = m.poll_begin(true);
    assert!(g.gate);
    assert_eq!(m.activity_ms, BOOT_POLL_INTERVAL_MS - 1); // wrapped, not saturated
}

#[test]
fn poll_gate_needs_the_mount() {
    let mut m = ConnMgr::new(MIN_EC_REV);
    m.activity_ms = 20_000;
    assert!(!m.poll_begin(false).reconcile);
    assert!(!m.mounted);
    m.activity_ms = 20_000;
    assert!(m.poll_begin(true).reconcile);
}

#[test]
fn run_stop_coalescing() {
    let mut m = ConnMgr::new(MIN_EC_REV);
    assert!(!m.handle_run()); // already enabled: no duplicate pump kick
    m.handle_stop();
    assert!(!m.run_enabled);
    assert!(!m.pump_begin()); // stopped pump emits no poll
    m.pumping = true;
    assert!(!m.handle_run()); // a cycle is in flight: coalesced
    m.handle_stop();
    m.pumping = false;
    assert!(m.handle_run()); // stopped and quiet: one kick
    assert!(m.pump_begin());
    m.pump_end();
    assert!(!m.pumping);
}

#[test]
fn no_second_join_while_one_is_outstanding() {
    let mut m = ConnMgr::new(MIN_EC_REV);
    m.activity_ms = 20_000;
    m.handle_scan_update(&vec!["home".to_string(), "cafe".to_string()]);
    let known = connection_manager::ssid_set::SsidSet::from_vec(&vec![
        "home".to_string(),
        "cafe".to_string(),
    ]);
    m.poll_begin(true);
    m.select_prepare();
    assert!(m.next_candidate(&known).is_some());
    m.confirm_join();
    // with the join outstanding, polls select no further candidate
    assert!(m.next_candidate(&known).is_none());
    m.poll_waiting();
    assert!(m.next_candidate(&known).is_none());
    // only the terminal result frees the machine to select again
    m.handle_connect_result(ConnectResult::NoMatchingAp);
    assert_eq!(m.state, WifiState::InvalidAp);
    assert!(m.next_candidate(&known).is_some());
}

#[test]
fn error_poll_resets_radio() {
    let mut m = ConnMgr::new(MIN_EC_REV);
    m.state = WifiState::Error;
    m.scan = SsidScanState::Idle;
    let a = m.poll_error();
    assert!(a.wifi_reset);
    assert!(a.net_reset);
    assert!(a.start_scan);
    assert!(a.inject_poll);
    assert_eq!(m.state, WifiState::Disconnected);
    assert_eq!(m.scan, SsidScanState::Scanning);
}

#[test]
fn retry_poll_noop_elsewhere() {
    let mut m = ConnMgr::new(MIN_EC_REV);
    let a = m.poll_retry();
    assert!(!a.leave && !a.net_reset && !a.start_scan && !a.inject_poll);
    assert_eq!(m.state, WifiState::Unknown);
}

#[test]
fn resume_agreeing_reports_change_nothing() {
    let mut m = connected_mgr(40);
    let a = m.reconcile_resume(LinkState::Connected);
    assert_eq!(m.state, WifiState::Connected);
    assert!(!a.leave && !a.net_reset && !a.broadcast_disconnect);

    let mut m = ConnMgr::new(MIN_EC_REV);
    m.state = WifiState::Disconnected;
    m.reconcile_resume(LinkState::Disconnected);
    assert_eq!(m.state, WifiState::Disconnected);

    let mut m = ConnMgr::new(MIN_EC_REV);
    m.state = WifiState::Error;
    m.reconcile_resume(LinkState::WFXError);
    assert_eq!(m.state, WifiState::Error);
}

#[test]
fn resume_lost_link_broadcasts_default() {
    let mut m = connected_mgr(40);
    m.scan = SsidScanState::Idle;
    let a = m.reconcile_resume(LinkState::Disconnected);
    assert!(a.broadcast_disconnect);
    assert!(a.net_reset);
    assert!(a.start_scan);
    assert!(!a.leave);
    assert_eq!(m.state, WifiState::Disconnected);
    assert!(m.status.ssid.is_none()); // the cache was invalidated
}

#[test]
fn resume_snaps_intermediate_states() {
    let mut m = ConnMgr::new(MIN_EC_REV);
    m.state = WifiState::Connecting;
    let a = m.reconcile_resume(LinkState::Unknown);
    assert_eq!(m.state, WifiState::Disconnected);
    assert!(!a.leave && !a.net_reset && !a.broadcast_disconnect);

    let mut m = ConnMgr::new(MIN_EC_REV);
    m.state = WifiState::WaitDhcp;
    m.reconcile_resume(LinkState::WFXError);
    assert_eq!(m.state, WifiState::Error);
}

#[test]
fn scan_updates_fold_and_finish() {
    let mut m = ConnMgr::new(MIN_EC_REV);
    m.handle_scan_update(&vec!["home".to_string(), "cafe".to_string()]);
    assert_eq!(m.scan, SsidScanState::Scanning); // an update alone keeps scanning
    m.handle_scan_update(&vec!["home".to_string()]); // duplicates fold away
    assert_eq!(m.ssid_list.len(), 2);
    m.handle_scan_finished(&vec!["lab".to_string()]);
    assert_eq!(m.scan, SsidScanState::Idle);
    assert_eq!(m.ssid_list.len(), 3);
    assert!(m.ssid_list.contains(&"lab".to_string()));
}
