//! Mathematical model of the connection manager: its state as a ghost
//! record, and one transition function or relation per event. The executable
//! machine promises, step for step, to land exactly where these transitions
//! say; the laws about whole executions are proved over this model.

use vstd::prelude::*;
use crate::registry::WifiStateSubscription;
use crate::selector::select_ok;
use crate::types::{
    default_status, ConnectResult, LinkState, SsidScanState, StatusV, WifiState,
    BOOT_POLL_INTERVAL_MS, INTERVALS_BEFORE_RETRY, MIN_EC_REV, POLL_INTERVAL_MS,
};

verus! {

/// The whole observable state of the connection manager.
#[verifier::ext_equal]
pub ghost struct MgrV {
    /// The state machine's state variable.
    pub state: WifiState,
    /// The state observed when the previous reconciliation pass committed;
    /// drives the edge detection for the disconnect broadcast.
    pub last_state: WifiState,
    /// Whether an SSID scan is running on the EC.
    pub scan: SsidScanState,
    /// Networks reported by the most recent scan window.
    pub ssid_list: Set<Seq<char>>,
    /// Networks attempted in the current selection pass.
    pub ssid_attempted: Set<Seq<char>>,
    /// Poll cycles spent awaiting a connect result or an IP configuration.
    pub wait_count: u32,
    /// Latched once the credential store has been seen mounted.
    pub mounted: bool,
    /// Whether the EC firmware meets [`MIN_EC_REV`].
    pub rev_ok: bool,
    /// Gate of the poll pump.
    pub run_enabled: bool,
    /// Asserted while a pump cycle is in flight; coalesces `Run` requests.
    pub pumping: bool,
    /// Accumulated idle time, in milliseconds.
    pub activity_ms: u32,
    /// Current poll cadence, in milliseconds.
    pub interval_ms: u32,
    /// The cached status snapshot, as last broadcast.
    pub status: StatusV,
    /// The status listeners.
    pub subscribers: Seq<(u32, WifiStateSubscription)>,
}

/// States from which the next poll runs candidate selection.
pub open spec fn selecting(s: WifiState) -> bool {
    s is Unknown || s is Disconnected || s is InvalidAp || s is InvalidAuth
}

/// States in which a join attempt is outstanding.
pub open spec fn awaiting(s: WifiState) -> bool {
    s is Connecting || s is WaitDhcp
}

/// The state the machine adopts on each terminal connect result.
pub open spec fn connect_result_target(r: ConnectResult) -> WifiState {
    match r {
        ConnectResult::Success => WifiState::WaitDhcp,
        ConnectResult::NoMatchingAp => WifiState::InvalidAp,
        ConnectResult::Timeout => WifiState::Retry,
        ConnectResult::Reject => WifiState::InvalidAuth,
        ConnectResult::AuthFail => WifiState::InvalidAuth,
        ConnectResult::Aborted => WifiState::Retry,
        ConnectResult::Error => WifiState::Error,
        ConnectResult::Pending => WifiState::Error,
    }
}

/// Unsigned 32-bit addition with wrap-around.
pub open spec fn wadd32(a: u32, b: u32) -> u32 {
    if a + b <= u32::MAX {
        (a + b) as u32
    } else {
        (a + b - 0x1_0000_0000) as u32
    }
}

/// The machine as constructed, given the EC firmware revision word: idle in
/// `Unknown` with an initial scan requested, pump enabled only on adequate
/// firmware, and the boot poll cadence.
pub open spec fn init(ec_rev: u32) -> MgrV {
    MgrV {
        state: WifiState::Unknown,
        last_state: WifiState::Unknown,
        scan: SsidScanState::Scanning,
        ssid_list: Set::empty(),
        ssid_attempted: Set::empty(),
        wait_count: 0,
        mounted: false,
        rev_ok: ec_rev >= MIN_EC_REV,
        run_enabled: ec_rev >= MIN_EC_REV,
        pumping: false,
        activity_ms: 0,
        interval_ms: BOOT_POLL_INTERVAL_MS,
        status: default_status(),
        subscribers: Seq::empty(),
    }
}

/// A terminal connect result lands the machine in the result's target state;
/// success also stops the scan and clears the idle clock.
pub open spec fn step_connect_result(v: MgrV, r: ConnectResult) -> MgrV {
    if r is Success {
        MgrV {
            state: WifiState::WaitDhcp,
            scan: SsidScanState::Idle,
            activity_ms: 0,
            ..v
        }
    } else {
        MgrV { state: connect_result_target(r), ..v }
    }
}

/// A disconnect interrupt: the device may have moved, so the visible list is
/// dropped, a scan is requested, and the machine is ready to try again.
pub open spec fn step_disconnect(v: MgrV) -> MgrV {
    MgrV {
        state: WifiState::Disconnected,
        scan: SsidScanState::Scanning,
        ssid_list: Set::empty(),
        ..v
    }
}

/// A scan update folds the fetched names into the visible list.
pub open spec fn step_scan_update(v: MgrV, names: Set<Seq<char>>) -> MgrV {
    MgrV { ssid_list: v.ssid_list.union(names), ..v }
}

/// A finished scan folds the fetched names in and parks the scanner.
pub open spec fn step_scan_finished(v: MgrV, names: Set<Seq<char>>) -> MgrV {
    MgrV { ssid_list: v.ssid_list.union(names), scan: SsidScanState::Idle, ..v }
}

/// An IP configuration update: the link is up; the fresh snapshot is cached
/// (and broadcast by the caller) and the idle clock cleared. The broadcast
/// arms the edge reference: subscribers now believe the link is up, so the
/// next departure from `Connected` owes them one default snapshot, even if
/// no poll commits in between.
pub open spec fn step_ip_config(v: MgrV, st: StatusV) -> MgrV {
    MgrV {
        state: WifiState::Connected,
        last_state: WifiState::Connected,
        activity_ms: 0,
        status: st,
        ..v
    }
}

/// `Run` enables the pump.
pub open spec fn step_run(v: MgrV) -> MgrV {
    MgrV { run_enabled: true, ..v }
}

/// `Run` kicks the pump only if it was stopped and no cycle is in flight.
pub open spec fn run_sends_pump(v: MgrV) -> bool {
    !v.run_enabled && !v.pumping
}

/// `Stop` lets the in-flight cycle finish but starts no further one.
pub open spec fn step_stop(v: MgrV) -> MgrV {
    MgrV { run_enabled: false, ..v }
}

/// A pump cycle starts: while enabled, the cycle is marked in flight and a
/// `Poll` is emitted.
pub open spec fn step_pump_begin(v: MgrV) -> MgrV {
    if v.run_enabled {
        MgrV { pumping: true, ..v }
    } else {
        v
    }
}

/// A pump cycle ends.
pub open spec fn step_pump_end(v: MgrV) -> MgrV {
    MgrV { pumping: false, ..v }
}

/// The idle clock has outrun one poll interval.
pub open spec fn gate_fires(v: MgrV) -> bool {
    v.activity_ms > v.interval_ms
}

/// A reconciliation pass runs: the machine was idle long enough, the
/// credential store is mounted, and the firmware is adequate.
pub open spec fn reconciles(v: MgrV, mounted_now: bool) -> bool {
    gate_fires(v) && mounted_now && v.rev_ok
}

/// The machine left `Connected` since the last committed pass.
pub open spec fn disconnect_edge(v: MgrV) -> bool {
    v.last_state is Connected && !(v.state is Connected)
}

/// The poll prologue: the idle clock advances by one interval; a pass that
/// reconciles latches `mounted` and, on the disconnect edge, resets the
/// snapshot cache (the caller broadcasts it).
pub open spec fn step_poll_begin(v: MgrV, mounted_now: bool) -> MgrV {
    let moved = MgrV { activity_ms: wadd32(v.activity_ms, v.interval_ms), ..v };
    if reconciles(v, mounted_now) {
        if disconnect_edge(v) {
            MgrV { mounted: true, status: default_status(), ..moved }
        } else {
            MgrV { mounted: true, ..moved }
        }
    } else {
        moved
    }
}

/// The poll prologue broadcasts the default snapshot exactly on the
/// disconnect edge of a reconciling pass.
pub open spec fn begin_broadcasts(v: MgrV, mounted_now: bool) -> bool {
    reconciles(v, mounted_now) && disconnect_edge(v)
}

/// Before selection, a running scan is parked.
pub open spec fn step_select_prepare(v: MgrV) -> MgrV {
    if selecting(v.state) && v.scan is Scanning {
        MgrV { scan: SsidScanState::Idle, ..v }
    } else {
        v
    }
}

/// Selection consults the candidate selector against the freshly read known
/// list; only the attempted set moves. Which candidate comes out is the
/// selector's business ([`select_ok`]).
pub open spec fn next_candidate_rel(
    v: MgrV,
    known: Set<Seq<char>>,
    r: Option<Seq<char>>,
    post: MgrV,
) -> bool {
    if selecting(v.state) {
        select_ok(v.ssid_list, v.ssid_attempted, known, r, post.ssid_attempted) && post
            == MgrV { ssid_attempted: post.ssid_attempted, ..v }
    } else {
        r is None && post == v
    }
}

/// The credentials of a selected candidate were read and handed to the EC,
/// and the join command was issued. A join is only ever issued while the
/// machine is selecting and the firmware is adequate to drive.
pub open spec fn step_confirm_join(v: MgrV) -> MgrV {
    MgrV { state: WifiState::Connecting, ..v }
}

/// A poll while a join attempt is outstanding: one more interval has passed;
/// past [`INTERVALS_BEFORE_RETRY`] of them the attempt is abandoned.
pub open spec fn step_poll_waiting(v: MgrV) -> MgrV {
    if awaiting(v.state) {
        if v.wait_count + 1 > INTERVALS_BEFORE_RETRY {
            MgrV { state: WifiState::Retry, wait_count: 0, ..v }
        } else {
            MgrV { wait_count: (v.wait_count + 1) as u32, ..v }
        }
    } else {
        v
    }
}

/// A poll in `Retry`: the old association is left behind (the caller issues
/// the leave and the net-stack reset), a scan is ensured, and a fresh poll is
/// injected so the next selection is not delayed by a full interval.
pub open spec fn step_poll_retry(v: MgrV) -> MgrV {
    if v.state is Retry {
        MgrV { state: WifiState::Disconnected, scan: SsidScanState::Scanning, ..v }
    } else {
        v
    }
}

/// A poll in `Error`: the radio is reset (by the caller), then as for retry.
pub open spec fn step_poll_error(v: MgrV) -> MgrV {
    if v.state is Error {
        MgrV { state: WifiState::Disconnected, scan: SsidScanState::Scanning, ..v }
    } else {
        v
    }
}

/// A poll while connected refreshes the snapshot cache from the EC; the
/// caller broadcasts the fresh snapshot.
pub open spec fn step_poll_connected(v: MgrV, st: StatusV) -> MgrV {
    if v.state is Connected {
        MgrV { status: st, ..v }
    } else {
        v
    }
}

/// The reconciliation pass commits: the state it leaves behind becomes the
/// reference for the next edge detection.
pub open spec fn step_poll_commit(v: MgrV) -> MgrV {
    MgrV { last_state: v.state, ..v }
}

/// The RSSI read at the end of a poll: cached and rebroadcast only when it
/// changed, and only while connected with a named association.
pub open spec fn rssi_broadcasts(v: MgrV, rssi: u8) -> bool {
    v.state is Connected && v.status.ssid is Some && v.status.ssid->0.rssi != rssi
}

pub open spec fn step_update_rssi(v: MgrV, rssi: u8) -> MgrV {
    if rssi_broadcasts(v, rssi) {
        MgrV {
            status: StatusV {
                ssid: Some(
                    crate::types::SsidInfoV { name: v.status.ssid->0.name, rssi },
                ),
                ..v.status
            },
            ..v
        }
    } else {
        v
    }
}

/// The adaptive cadence: nominal once the credential store is mounted.
pub open spec fn step_refresh_interval(v: MgrV) -> MgrV {
    MgrV {
        interval_ms: if v.mounted {
            POLL_INTERVAL_MS
        } else {
            BOOT_POLL_INTERVAL_MS
        },
        ..v
    }
}

/// External actors clear the idle clock when traffic flows.
pub open spec fn step_reset_activity(v: MgrV) -> MgrV {
    MgrV { activity_ms: 0, ..v }
}

/// Resume reconciliation against the link state the EC reports. Whenever the
/// EC's report and the machine's state disagree, the machine conservatively
/// re-initiates the cycle from `Disconnected`.
pub open spec fn step_resume(v: MgrV, link: LinkState) -> MgrV {
    if link is Connected {
        if v.state is Connected || v.state is Error {
            v
        } else {
            MgrV { state: WifiState::Disconnected, scan: SsidScanState::Scanning, ..v }
        }
    } else if link is WFXError {
        MgrV { state: WifiState::Error, ..v }
    } else {
        if v.state is Connected {
            // the default snapshot goes out here, which settles the edge:
            // the following poll owes no second broadcast for it
            MgrV {
                state: WifiState::Disconnected,
                last_state: WifiState::Disconnected,
                scan: SsidScanState::Scanning,
                status: default_status(),
                ..v
            }
        } else if v.state is Error {
            v
        } else {
            MgrV { state: WifiState::Disconnected, ..v }
        }
    }
}

/// Resume issues a leave exactly when the EC claims a link the machine never
/// established.
pub open spec fn resume_leaves(v: MgrV, link: LinkState) -> bool {
    link is Connected && !(v.state is Connected) && !(v.state is Error)
}

/// Resume broadcasts the default snapshot exactly when a held association
/// turns out to be gone.
pub open spec fn resume_broadcasts(v: MgrV, link: LinkState) -> bool {
    !(link is Connected) && !(link is WFXError) && v.state is Connected
}

/// One event of an execution, with the outside answers it carries.
pub ghost enum EventV {
    ConnectResult(ConnectResult),
    Disconnect,
    ScanUpdate(Set<Seq<char>>),
    ScanFinished(Set<Seq<char>>),
    IpConfigUpdate(StatusV),
    Run,
    Stop,
    PumpBegin,
    PumpEnd,
    PollBegin(bool),
    SelectPrepare,
    NextCandidate(Set<Seq<char>>),
    ConfirmJoin,
    PollWaiting,
    PollRetry,
    PollError,
    PollConnected(StatusV),
    PollCommit,
    UpdateRssi(u8),
    RefreshInterval,
    ResetActivity,
    Resume(LinkState),
}

/// The transition relation: `post` is a possible successor of `pre` under
/// `ev`. All transitions are functions except candidate selection, whose
/// pick is left open, and `ConfirmJoin`, which is only enabled while the
/// machine is selecting on adequate firmware.
pub open spec fn step(pre: MgrV, ev: EventV, post: MgrV) -> bool {
    match ev {
        EventV::ConnectResult(r) => post == step_connect_result(pre, r),
        EventV::Disconnect => post == step_disconnect(pre),
        EventV::ScanUpdate(names) => post == step_scan_update(pre, names),
        EventV::ScanFinished(names) => post == step_scan_finished(pre, names),
        EventV::IpConfigUpdate(st) => post == step_ip_config(pre, st),
        EventV::Run => post == step_run(pre),
        EventV::Stop => post == step_stop(pre),
        EventV::PumpBegin => post == step_pump_begin(pre),
        EventV::PumpEnd => post == step_pump_end(pre),
        EventV::PollBegin(mounted_now) => post == step_poll_begin(pre, mounted_now),
        EventV::SelectPrepare => post == step_select_prepare(pre),
        EventV::NextCandidate(known) => exists|r: Option<Seq<char>>|
            next_candidate_rel(pre, known, r, post),
        EventV::ConfirmJoin => selecting(pre.state) && pre.rev_ok && post == step_confirm_join(
            pre,
        ),
        EventV::PollWaiting => post == step_poll_waiting(pre),
        EventV::PollRetry => post == step_poll_retry(pre),
        EventV::PollError => post == step_poll_error(pre),
        EventV::PollConnected(st) => post == step_poll_connected(pre, st),
        EventV::PollCommit => post == step_poll_commit(pre),
        EventV::UpdateRssi(rssi) => post == step_update_rssi(pre, rssi),
        EventV::RefreshInterval => post == step_refresh_interval(pre),
        EventV::ResetActivity => post == step_reset_activity(pre),
        EventV::Resume(link) => post == step_resume(pre, link),
    }
}

/// The step issues a `join` command to the EC.
pub open spec fn emits_join(pre: MgrV, ev: EventV) -> bool {
    ev is ConfirmJoin
}

/// The step issues a `leave` command to the EC.
pub open spec fn emits_leave(pre: MgrV, ev: EventV) -> bool {
    ||| ev is PollRetry && pre.state is Retry
    ||| ev matches EventV::Resume(link) && resume_leaves(pre, link)
}

/// The step broadcasts the default (disconnected) snapshot.
pub open spec fn emits_default_broadcast(pre: MgrV, ev: EventV) -> bool {
    ||| ev matches EventV::PollBegin(m) && begin_broadcasts(pre, m)
    ||| ev matches EventV::Resume(link) && resume_broadcasts(pre, link)
}

/// A valid execution: `states` is one longer than `events`, and each event
/// relates its neighbours.
pub open spec fn valid_trace(states: Seq<MgrV>, events: Seq<EventV>) -> bool {
    &&& states.len() == events.len() + 1
    &&& forall|i: int|
        0 <= i < events.len() ==> #[trigger] step(states[i], events[i], states[i + 1])
}

} // verus!
