//! The executable connection manager. Every method is one transition of the
//! model in [`crate::model`]; the returned action records tell the caller
//! which EC commands, resets, broadcasts and self-polls to perform.

use vstd::prelude::*;
use crate::model::{
    awaiting, begin_broadcasts, gate_fires, init, next_candidate_rel, reconciles,
    resume_broadcasts, resume_leaves, run_sends_pump, selecting, step_confirm_join,
    step_connect_result, step_disconnect, step_ip_config, step_poll_begin, step_poll_commit,
    step_poll_connected, step_poll_error, step_poll_retry, step_poll_waiting, step_pump_begin,
    step_pump_end, step_refresh_interval, step_reset_activity, step_resume, step_run,
    step_scan_finished, step_scan_update, step_select_prepare, step_stop, step_update_rssi,
    wadd32, MgrV,
};
use crate::registry::SubscriberRegistry;
use crate::selector::get_next_ssid;
use crate::ssid_set::{names_of, SsidSet};
use crate::types::{
    ConnectResult, LinkState, SsidScanState, WifiState, WlanStatus, BOOT_POLL_INTERVAL_MS,
    INTERVALS_BEFORE_RETRY, MIN_EC_REV, POLL_INTERVAL_MS,
};

verus! {

/// What the poll prologue decided.
#[derive(Copy, Clone, Debug, PartialEq, Eq, Structural)]
pub struct PollGate {
    /// The idle clock had outrun one poll interval: this poll ends with a
    /// commit, whether or not it reconciles.
    pub gate: bool,
    /// A reconciliation pass runs on this poll.
    pub reconcile: bool,
    /// The machine just left `Connected`: broadcast the (already reset)
    /// snapshot cache to every subscriber.
    pub broadcast_disconnect: bool,
}

/// Commands owed after a poll found the machine in `Retry`.
#[derive(Copy, Clone, Debug, PartialEq, Eq, Structural)]
pub struct RetryActions {
    /// Issue `wlan_leave` to the EC.
    pub leave: bool,
    /// Reset the net stack.
    pub net_reset: bool,
    /// Issue `set_ssid_scanning(true)` to the EC.
    pub start_scan: bool,
    /// Send one fresh `Poll` to the machine's own inbox.
    pub inject_poll: bool,
}

/// Commands owed after a poll found the machine in `Error`.
#[derive(Copy, Clone, Debug, PartialEq, Eq, Structural)]
pub struct ErrorActions {
    /// Reset the radio.
    pub wifi_reset: bool,
    /// Reset the net stack.
    pub net_reset: bool,
    /// Issue `set_ssid_scanning(true)` to the EC.
    pub start_scan: bool,
    /// Send one fresh `Poll` to the machine's own inbox.
    pub inject_poll: bool,
}

/// Commands owed after resume reconciliation.
#[derive(Copy, Clone, Debug, PartialEq, Eq, Structural)]
pub struct ResumeActions {
    /// Issue `wlan_leave` to the EC.
    pub leave: bool,
    /// Reset the net stack.
    pub net_reset: bool,
    /// Issue `set_ssid_scanning(true)` to the EC.
    pub start_scan: bool,
    /// Send one fresh `Poll` to the machine's own inbox.
    pub inject_poll: bool,
    /// Broadcast the (already reset) snapshot cache.
    pub broadcast_disconnect: bool,
}

/// The connection manager. The caller owns the transports: it decodes inbox
/// messages and EC interrupts, calls one handler per event, and performs the
/// commands the handler hands back.
pub struct ConnMgr {
    pub state: WifiState,
    pub last_state: WifiState,
    pub scan: SsidScanState,
    pub ssid_list: SsidSet,
    pub ssid_attempted: SsidSet,
    pub wait_count: u32,
    pub mounted: bool,
    pub rev_ok: bool,
    pub run_enabled: bool,
    pub pumping: bool,
    pub activity_ms: u32,
    pub interval_ms: u32,
    pub status: WlanStatus,
    pub subscribers: SubscriberRegistry,
}

impl View for ConnMgr {
    type V = MgrV;

    open spec fn view(&self) -> MgrV {
        MgrV {
            state: self.state,
            last_state: self.last_state,
            scan: self.scan,
            ssid_list: self.ssid_list@,
            ssid_attempted: self.ssid_attempted@,
            wait_count: self.wait_count,
            mounted: self.mounted,
            rev_ok: self.rev_ok,
            run_enabled: self.run_enabled,
            pumping: self.pumping,
            activity_ms: self.activity_ms,
            interval_ms: self.interval_ms,
            status: self.status@,
            subscribers: self.subscribers@,
        }
    }
}

impl ConnMgr {
    /// The stored sets are duplicate-free, the registry is sound, and the
    /// wait counter sits within its bound.
    pub open spec fn wf(&self) -> bool {
        &&& self.ssid_list.wf()
        &&& self.ssid_attempted.wf()
        &&& self.subscribers.wf()
        &&& self.wait_count <= INTERVALS_BEFORE_RETRY
    }

    /// Builds the machine from the EC's firmware revision word. Firmware
    /// below [`MIN_EC_REV`] must not be driven: the pump is then disabled
    /// and the caller shows a notification instead.
    pub fn new(ec_rev: u32) -> (r: ConnMgr)
        ensures
            r.wf(),
            r@ == init(ec_rev),
    {
        let r = ConnMgr {
            state: WifiState::Unknown,
            last_state: WifiState::Unknown,
            scan: SsidScanState::Scanning,
            ssid_list: SsidSet::new(),
            ssid_attempted: SsidSet::new(),
            wait_count: 0,
            mounted: false,
            rev_ok: ec_rev >= MIN_EC_REV,
            run_enabled: ec_rev >= MIN_EC_REV,
            pumping: false,
            activity_ms: 0,
            interval_ms: BOOT_POLL_INTERVAL_MS,
            status: WlanStatus::default(),
            subscribers: SubscriberRegistry::new(),
        };
        proof {
            assert(r@ =~~= init(ec_rev));
        }
        r
    }

    /// `Run`: enable the pump; the caller sends one pump kick exactly when
    /// the pump was stopped and no cycle is in flight.
    pub fn handle_run(&mut self) -> (send_pump: bool)
        requires
            old(self).wf(),
        ensures
            final(self).wf(),
            final(self)@ == step_run(old(self)@),
            send_pump == run_sends_pump(old(self)@),
    {
        let was = self.run_enabled;
        self.run_enabled = true;
        proof {
            assert(self@ =~~= step_run(old(self)@));
        }
        !was && !self.pumping
    }

    /// `Stop`: the in-flight cycle finishes, no further one starts.
    pub fn handle_stop(&mut self)
        requires
            old(self).wf(),
        ensures
            final(self).wf(),
            final(self)@ == step_stop(old(self)@),
    {
        self.run_enabled = false;
        proof {
            assert(self@ =~~= step_stop(old(self)@));
        }
    }

    /// A pump cycle begins; the caller emits one `Poll` exactly when the
    /// pump is enabled.
    pub fn pump_begin(&mut self) -> (emit_poll: bool)
        requires
            old(self).wf(),
        ensures
            final(self).wf(),
            final(self)@ == step_pump_begin(old(self)@),
            emit_poll == old(self)@.run_enabled,
    {
        if self.run_enabled {
            self.pumping = true;
            proof {
                assert(self@ =~~= step_pump_begin(old(self)@));
            }
            true
        } else {
            false
        }
    }

    /// A pump cycle ends.
    pub fn pump_end(&mut self)
        requires
            old(self).wf(),
        ensures
            final(self).wf(),
            final(self)@ == step_pump_end(old(self)@),
    {
        self.pumping = false;
        proof {
            assert(self@ =~~= step_pump_end(old(self)@));
        }
    }

    /// A `Connect` interrupt's terminal result. On success, the caller stops
    /// the EC scan.
    pub fn handle_connect_result(&mut self, r: ConnectResult) -> (stop_scan: bool)
        requires
            old(self).wf(),
        ensures
            final(self).wf(),
            final(self)@ == step_connect_result(old(self)@, r),
            stop_scan == (r is Success),
    {
        match r {
            ConnectResult::Success => {
                self.scan = SsidScanState::Idle;
                self.activity_ms = 0;
                self.state = WifiState::WaitDhcp;
                proof {
                    assert(self@ =~~= step_connect_result(old(self)@, r));
                }
                true
            },
            ConnectResult::NoMatchingAp => {
                self.state = WifiState::InvalidAp;
                proof {
                    assert(self@ =~~= step_connect_result(old(self)@, r));
                }
                false
            },
            ConnectResult::Timeout | ConnectResult::Aborted => {
                self.state = WifiState::Retry;
                proof {
                    assert(self@ =~~= step_connect_result(old(self)@, r));
                }
                false
            },
            ConnectResult::Reject | ConnectResult::AuthFail => {
                self.state = WifiState::InvalidAuth;
                proof {
                    assert(self@ =~~= step_connect_result(old(self)@, r));
                }
                false
            },
            ConnectResult::Error | ConnectResult::Pending => {
                self.state = WifiState::Error;
                proof {
                    assert(self@ =~~= step_connect_result(old(self)@, r));
                }
                false
            },
        }
    }

    /// A `Disconnect` interrupt: the device may have moved out of range.
    /// The caller starts an EC scan.
    pub fn handle_disconnect(&mut self)
        requires
            old(self).wf(),
        ensures
            final(self).wf(),
            final(self)@ == step_disconnect(old(self)@),
    {
        self.ssid_list.clear();
        self.scan = SsidScanState::Scanning;
        self.state = WifiState::Disconnected;
        proof {
            assert(self@ =~~= step_disconnect(old(self)@));
        }
    }

    /// A scan update: fold the names fetched from the EC into the visible
    /// list.
    pub fn handle_scan_update(&mut self, names: &Vec<String>)
        requires
            old(self).wf(),
        ensures
            final(self).wf(),
            final(self)@ == step_scan_update(old(self)@, names_of(names@)),
    {
        self.fold_names(names);
        proof {
            assert(self@ =~~= step_scan_update(old(self)@, names_of(names@)));
        }
    }

    /// A finished scan: fold the names in and note the scanner is idle.
    pub fn handle_scan_finished(&mut self, names: &Vec<String>)
        requires
            old(self).wf(),
        ensures
            final(self).wf(),
            final(self)@ == step_scan_finished(old(self)@, names_of(names@)),
    {
        self.fold_names(names);
        self.scan = SsidScanState::Idle;
        proof {
            assert(self@ =~~= step_scan_finished(old(self)@, names_of(names@)));
        }
    }

    /// Folds fetched scan names into the visible list.
    fn fold_names(&mut self, names: &Vec<String>)
        requires
            old(self).wf(),
        ensures
            final(self).wf(),
            final(self)@ == (MgrV {
                ssid_list: old(self)@.ssid_list.union(names_of(names@)),
                ..old(self)@
            }),
    {
        let n = names.len();
        let mut i: usize = 0;
        while i < n
            invariant
                old(self).wf(),
                self.wf(),
                n == names@.len(),
                i <= n,
                self@ == (MgrV {
                    ssid_list: old(self)@.ssid_list.union(names_of(names@.take(i as int))),
                    ..old(self)@
                }),
            decreases n - i,
        {
            self.ssid_list.insert(names[i].clone());
            proof {
                crate::ssid_set::lemma_names_of_take_step(names@, i as int);
                assert(self@ =~~= (MgrV {
                    ssid_list: old(self)@.ssid_list.union(
                        names_of(names@.take(i as int + 1)),
                    ),
                    ..old(self)@
                }));
            }
            i += 1;
        }
        proof {
            assert(names@.take(n as int) =~= names@);
        }
    }

    /// An IP configuration update: the link is up. The caller fetched the
    /// fresh snapshot from the EC; it is cached here and the caller
    /// broadcasts it to every subscriber. That broadcast arms the edge
    /// reference, so the next departure from `Connected` owes subscribers
    /// one default snapshot.
    pub fn handle_ip_config_update(&mut self, status: WlanStatus)
        requires
            old(self).wf(),
        ensures
            final(self).wf(),
            final(self)@ == step_ip_config(old(self)@, status@),
    {
        self.activity_ms = 0;
        self.state = WifiState::Connected;
        self.last_state = WifiState::Connected;
        self.status = status;
        proof {
            assert(self@ =~~= step_ip_config(old(self)@, self.status@));
        }
    }

    /// The poll prologue: advances the idle clock, decides whether this poll
    /// reconciles, latches `mounted`, and detects the disconnect edge. On
    /// the edge the snapshot cache is reset and the caller broadcasts it.
    pub fn poll_begin(&mut self, mounted_now: bool) -> (g: PollGate)
        requires
            old(self).wf(),
        ensures
            final(self).wf(),
            final(self)@ == step_poll_begin(old(self)@, mounted_now),
            g.gate == gate_fires(old(self)@),
            g.reconcile == reconciles(old(self)@, mounted_now),
            g.broadcast_disconnect == begin_broadcasts(old(self)@, mounted_now),
    {
        let gate = self.activity_ms > self.interval_ms;
        self.activity_ms = wrapping_add32(self.activity_ms, self.interval_ms);
        let reconcile = gate && mounted_now && self.rev_ok;
        let mut broadcast_disconnect = false;
        if reconcile {
            self.mounted = true;
            if self.last_state == WifiState::Connected && self.state != WifiState::Connected {
                self.status = WlanStatus::default();
                broadcast_disconnect = true;
            }
        }
        proof {
            assert(self@ =~~= step_poll_begin(old(self)@, mounted_now));
        }
        PollGate { gate, reconcile, broadcast_disconnect }
    }

    /// Before selection, a running scan is parked; the caller issues
    /// `set_ssid_scanning(false)` when told so.
    pub fn select_prepare(&mut self) -> (stop_scan: bool)
        requires
            old(self).wf(),
        ensures
            final(self).wf(),
            final(self)@ == step_select_prepare(old(self)@),
            stop_scan == (selecting(old(self)@.state) && old(self)@.scan is Scanning),
    {
        let sel = self.is_selecting();
        if sel && self.scan == SsidScanState::Scanning {
            self.scan = SsidScanState::Idle;
            proof {
                assert(self@ =~~= step_select_prepare(old(self)@));
            }
            true
        } else {
            false
        }
    }

    /// Runs candidate selection against the known list freshly read from the
    /// credential store. A returned name is the next join target: the caller
    /// reads its passphrase and, if that succeeds, programs the EC and calls
    /// [`ConnMgr::confirm_join`]; if the passphrase is unreadable it simply
    /// calls here again, so the next candidate is tried on the same poll.
    pub fn next_candidate(&mut self, ap_list: &SsidSet) -> (r: Option<String>)
        requires
            old(self).wf(),
            ap_list.wf(),
        ensures
            final(self).wf(),
            next_candidate_rel(
                old(self)@,
                ap_list@,
                match r {
                    Some(s) => Some(s@),
                    None => None,
                },
                final(self)@,
            ),
    {
        let sel = self.is_selecting();
        if sel {
            let r = get_next_ssid(&self.ssid_list, &mut self.ssid_attempted, ap_list);
            proof {
                assert(self@ =~~= (MgrV { ssid_attempted: self@.ssid_attempted, ..old(self)@ }));
            }
            r
        } else {
            None
        }
    }

    /// The selected candidate's credentials were programmed and the join
    /// command was issued: await the EC's verdict. A join may only be issued
    /// while the machine is selecting, and never on firmware too old to
    /// drive — the machine must stay inert there.
    pub fn confirm_join(&mut self)
        requires
            old(self).wf(),
            selecting(old(self)@.state),
            old(self)@.rev_ok,
        ensures
            final(self).wf(),
            final(self)@ == step_confirm_join(old(self)@),
    {
        self.state = WifiState::Connecting;
        proof {
            assert(self@ =~~= step_confirm_join(old(self)@));
        }
    }

    /// A poll while a join attempt is outstanding: give the attempt
    /// [`INTERVALS_BEFORE_RETRY`] intervals, then abandon it.
    pub fn poll_waiting(&mut self)
        requires
            old(self).wf(),
        ensures
            final(self).wf(),
            final(self)@ == step_poll_waiting(old(self)@),
    {
        let aw = self.state == WifiState::Connecting || self.state == WifiState::WaitDhcp;
        if aw {
            if self.wait_count + 1 > INTERVALS_BEFORE_RETRY {
                self.wait_count = 0;
                self.state = WifiState::Retry;
            } else {
                self.wait_count = self.wait_count + 1;
            }
        }
        proof {
            assert(self@ =~~= step_poll_waiting(old(self)@));
        }
    }

    /// A poll in `Retry`: back to `Disconnected`; the caller leaves the old
    /// association, resets the net stack, ensures a scan runs and injects a
    /// fresh poll.
    pub fn poll_retry(&mut self) -> (a: RetryActions)
        requires
            old(self).wf(),
        ensures
            final(self).wf(),
            final(self)@ == step_poll_retry(old(self)@),
            a.leave == (old(self)@.state is Retry),
            a.net_reset == (old(self)@.state is Retry),
            a.start_scan == (old(self)@.state is Retry && old(self)@.scan is Idle),
            a.inject_poll == (old(self)@.state is Retry),
    {
        if self.state == WifiState::Retry {
            let start_scan = self.scan == SsidScanState::Idle;
            self.state = WifiState::Disconnected;
            self.scan = SsidScanState::Scanning;
            proof {
                assert(self@ =~~= step_poll_retry(old(self)@));
            }
            RetryActions { leave: true, net_reset: true, start_scan, inject_poll: true }
        } else {
            RetryActions { leave: false, net_reset: false, start_scan: false, inject_poll: false }
        }
    }

    /// A poll in `Error`: the caller resets the radio and the net stack,
    /// then as for retry.
    pub fn poll_error(&mut self) -> (a: ErrorActions)
        requires
            old(self).wf(),
        ensures
            final(self).wf(),
            final(self)@ == step_poll_error(old(self)@),
            a.wifi_reset == (old(self)@.state is Error),
            a.net_reset == (old(self)@.state is Error),
            a.start_scan == (old(self)@.state is Error && old(self)@.scan is Idle),
            a.inject_poll == (old(self)@.state is Error),
    {
        if self.state == WifiState::Error {
            let start_scan = self.scan == SsidScanState::Idle;
            self.state = WifiState::Disconnected;
            self.scan = SsidScanState::Scanning;
            proof {
                assert(self@ =~~= step_poll_error(old(self)@));
            }
            ErrorActions { wifi_reset: true, net_reset: true, start_scan, inject_poll: true }
        } else {
            ErrorActions {
                wifi_reset: false,
                net_reset: false,
                start_scan: false,
                inject_poll: false,
            }
        }
    }

    /// A poll while connected: cache the snapshot the caller fetched from
    /// the EC; the caller broadcasts it when told so.
    pub fn poll_connected(&mut self, status: WlanStatus) -> (broadcast: bool)
        requires
            old(self).wf(),
        ensures
            final(self).wf(),
            final(self)@ == step_poll_connected(old(self)@, status@),
            broadcast == (old(self)@.state is Connected),
    {
        if self.state == WifiState::Connected {
            self.status = status;
            proof {
                assert(self@ =~~= step_poll_connected(old(self)@, self.status@));
            }
            true
        } else {
            false
        }
    }

    /// Commits the reconciliation pass: the state left behind becomes the
    /// reference for the next disconnect-edge detection.
    pub fn poll_commit(&mut self)
        requires
            old(self).wf(),
        ensures
            final(self).wf(),
            final(self)@ == step_poll_commit(old(self)@),
    {
        self.last_state = self.state;
        proof {
            assert(self@ =~~= step_poll_commit(old(self)@));
        }
    }

    /// The RSSI read at the end of a poll: rebroadcast only on change, so a
    /// steady signal produces no update storm.
    pub fn update_rssi(&mut self, rssi: u8) -> (broadcast: bool)
        requires
            old(self).wf(),
        ensures
            final(self).wf(),
            final(self)@ == step_update_rssi(old(self)@, rssi),
            broadcast == crate::model::rssi_broadcasts(old(self)@, rssi),
    {
        if self.state == WifiState::Connected {
            match &mut self.status.ssid {
                Some(info) => {
                    if info.rssi != rssi {
                        info.rssi = rssi;
                        proof {
                            assert(self@ =~~= step_update_rssi(old(self)@, rssi));
                        }
                        return true;
                    }
                },
                None => {},
            }
        }
        proof {
            assert(self@ =~~= step_update_rssi(old(self)@, rssi));
        }
        false
    }

    /// The adaptive cadence: nominal once the credential store is mounted,
    /// the boot cadence before. Returns the interval the pump sleeps next.
    pub fn refresh_interval(&mut self) -> (ms: u32)
        requires
            old(self).wf(),
        ensures
            final(self).wf(),
            final(self)@ == step_refresh_interval(old(self)@),
            ms == final(self)@.interval_ms,
    {
        self.interval_ms = if self.mounted {
            POLL_INTERVAL_MS
        } else {
            BOOT_POLL_INTERVAL_MS
        };
        proof {
            assert(self@ =~~= step_refresh_interval(old(self)@));
        }
        self.interval_ms
    }

    /// Clears the idle clock; called on traffic by actors outside this
    /// machine, and implied by success results and IP updates.
    pub fn reset_activity(&mut self)
        requires
            old(self).wf(),
        ensures
            final(self).wf(),
            final(self)@ == step_reset_activity(old(self)@),
    {
        self.activity_ms = 0;
        proof {
            assert(self@ =~~= step_reset_activity(old(self)@));
        }
    }

    /// Resume reconciliation: the one moment the machine's model and the
    /// link may have silently diverged. Whenever they disagree, the cycle is
    /// conservatively restarted from `Disconnected`.
    pub fn reconcile_resume(&mut self, link: LinkState) -> (a: ResumeActions)
        requires
            old(self).wf(),
        ensures
            final(self).wf(),
            final(self)@ == step_resume(old(self)@, link),
            a.leave == resume_leaves(old(self)@, link),
            a.broadcast_disconnect == resume_broadcasts(old(self)@, link),
            a.net_reset == (resume_leaves(old(self)@, link) || resume_broadcasts(
                old(self)@,
                link,
            )),
            a.start_scan == ((resume_leaves(old(self)@, link) || resume_broadcasts(
                old(self)@,
                link,
            )) && old(self)@.scan is Idle),
            a.inject_poll == resume_leaves(old(self)@, link),
    {
        let none = ResumeActions {
            leave: false,
            net_reset: false,
            start_scan: false,
            inject_poll: false,
            broadcast_disconnect: false,
        };
        match link {
            LinkState::Connected => {
                if self.state == WifiState::Connected || self.state == WifiState::Error {
                    proof {
                        assert(self@ =~~= step_resume(old(self)@, link));
                    }
                    none
                } else {
                    let start_scan = self.scan == SsidScanState::Idle;
                    self.state = WifiState::Disconnected;
                    self.scan = SsidScanState::Scanning;
                    proof {
                        assert(self@ =~~= step_resume(old(self)@, link));
                    }
                    ResumeActions {
                        leave: true,
                        net_reset: true,
                        start_scan,
                        inject_poll: true,
                        broadcast_disconnect: false,
                    }
                }
            },
            LinkState::WFXError => {
                self.state = WifiState::Error;
                proof {
                    assert(self@ =~~= step_resume(old(self)@, link));
                }
                none
            },
            _ => {
                if self.state == WifiState::Connected {
                    let start_scan = self.scan == SsidScanState::Idle;
                    self.status = WlanStatus::default();
                    self.state = WifiState::Disconnected;
                    // the broadcast below settles the edge: the next poll
                    // owes no second default snapshot for it
                    self.last_state = WifiState::Disconnected;
                    self.scan = SsidScanState::Scanning;
                    proof {
                        assert(self@ =~~= step_resume(old(self)@, link));
                    }
                    ResumeActions {
                        leave: false,
                        net_reset: true,
                        start_scan,
                        inject_poll: false,
                        broadcast_disconnect: true,
                    }
                } else if self.state == WifiState::Error {
                    proof {
                        assert(self@ =~~= step_resume(old(self)@, link));
                    }
                    none
                } else {
                    self.state = WifiState::Disconnected;
                    proof {
                        assert(self@ =~~= step_resume(old(self)@, link));
                    }
                    none
                }
            },
        }
    }

    /// Whether the next poll would run candidate selection.
    pub fn is_selecting(&self) -> (r: bool)
        ensures
            r == selecting(self@.state),
    {
        self.state == WifiState::Unknown || self.state == WifiState::Disconnected || self.state
            == WifiState::InvalidAp || self.state == WifiState::InvalidAuth
    }

    /// Whether a join attempt is outstanding.
    pub fn is_awaiting(&self) -> (r: bool)
        ensures
            r == awaiting(self@.state),
    {
        self.state == WifiState::Connecting || self.state == WifiState::WaitDhcp
    }
}

/// Unsigned 32-bit addition with wrap-around, as the idle clock uses.
pub fn wrapping_add32(a: u32, b: u32) -> (r: u32)
    ensures
        r == wadd32(a, b),
{
    if a <= u32::MAX - b {
        a + b
    } else {
        a - (u32::MAX - b) - 1
    }
}

} // verus!
