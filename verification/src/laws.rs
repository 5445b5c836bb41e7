//! Laws of the connection manager, proved over the model in
//! [`crate::model`]: command discipline (at most one outstanding join), the
//! single disconnect broadcast per edge, RSSI storm suppression, the bound
//! on how long a join attempt may dangle, and resume idempotence. The
//! selector's cyclic-coverage law lives beside the selector in
//! [`crate::selector`].

use vstd::prelude::*;
use crate::model::{
    awaiting, begin_broadcasts, emits_join, emits_leave, next_candidate_rel, rssi_broadcasts,
    selecting, step_confirm_join, step_connect_result, step_poll_commit, step_poll_waiting,
    step_resume, step_update_rssi, valid_trace, EventV, MgrV,
};
use crate::types::{ConnectResult, LinkState, WifiState, INTERVALS_BEFORE_RETRY};

verus! {

/// States in which a join attempt is in progress or its association is still
/// standing: from here the machine never selects a new candidate.
pub open spec fn busy(s: WifiState) -> bool {
    s is Connecting || s is WaitDhcp || s is Retry || s is Connected
}

/// The step settles an outstanding join: a terminal connect result arrived,
/// or a leave command went out.
pub open spec fn join_cleared(pre: MgrV, ev: EventV) -> bool {
    ev is ConnectResult || emits_leave(pre, ev)
}

/// While nothing settles the join issued at step `i`, the machine stays
/// busy: no later step can select, so no second join can be issued.
proof fn lemma_no_clear_stays_busy(states: Seq<MgrV>, events: Seq<EventV>, i: int, m: int)
    requires
        valid_trace(states, events),
        forall|k: int|
            0 <= k < events.len() ==> !((#[trigger] events[k]) is Disconnect) && !(events[k]
                is Resume),
        0 <= i < events.len(),
        emits_join(states[i], events[i]),
        i < m <= events.len(),
        forall|k: int| i < k < m ==> !join_cleared(#[trigger] states[k], events[k]),
    ensures
        busy(states[m].state),
    decreases m - i,
{
    if m == i + 1 {
        assert(crate::model::step(states[i], events[i], states[i + 1]));
        assert(states[i + 1] == step_confirm_join(states[i]));
    } else {
        lemma_no_clear_stays_busy(states, events, i, m - 1);
        let pre = states[m - 1];
        let ev = events[m - 1];
        let post = states[m];
        assert(crate::model::step(states[m - 1], events[m - 1], states[m - 1 + 1]));
        assert(crate::model::step(pre, ev, post));
        assert(!join_cleared(pre, ev));
        match ev {
            EventV::NextCandidate(known) => {
                let r = choose|r: Option<Seq<char>>| next_candidate_rel(pre, known, r, post);
                assert(next_candidate_rel(pre, known, r, post));
                assert(post.state == pre.state);
            },
            _ => {},
        }
        assert(busy(post.state));
    }
}

/// At most one outstanding join: between two join commands there is a
/// terminal connect result or a leave command. (A disconnect interrupt or a
/// resume reconciliation also abandons a join — the link is then already
/// known to be down — so executions are considered between those events.)
pub proof fn lemma_at_most_one_join(states: Seq<MgrV>, events: Seq<EventV>, i: int, j: int)
    requires
        valid_trace(states, events),
        forall|k: int|
            0 <= k < events.len() ==> !((#[trigger] events[k]) is Disconnect) && !(events[k]
                is Resume),
        0 <= i < j < events.len(),
        emits_join(states[i], events[i]),
        emits_join(states[j], events[j]),
    ensures
        exists|k: int| i < k < j && join_cleared(#[trigger] states[k], events[k]),
{
    if !(exists|k: int| i < k < j && join_cleared(#[trigger] states[k], events[k])) {
        assert forall|k: int| i < k < j implies !join_cleared(
            #[trigger] states[k],
            events[k],
        ) by {}
        lemma_no_clear_stays_busy(states, events, i, j);
        assert(crate::model::step(states[j], events[j], states[j + 1]));
        assert(selecting(states[j].state));
        assert(false);
    }
}

/// The default snapshot goes out from the poll prologue only on the edge:
/// the previous pass committed `Connected` and the machine has left it.
pub proof fn lemma_edge_broadcast_edge_only(v: MgrV, mounted_now: bool)
    requires
        begin_broadcasts(v, mounted_now),
    ensures
        v.last_state is Connected,
        !(v.state is Connected),
{
}

/// Exactly once per edge: a pass that commits while the machine is not
/// connected clears the edge, so the following poll broadcasts no second
/// default snapshot, however it reconciles, until the machine reconnects.
pub proof fn lemma_edge_broadcast_once(w: MgrV, mounted_now: bool)
    requires
        !(w.state is Connected),
    ensures
        !begin_broadcasts(step_poll_commit(w), mounted_now),
{
}

/// The resume path broadcasts the default snapshot only while a held
/// association turned out gone, and at most once: the broadcast lands the
/// machine in `Disconnected`, from where no resume broadcasts again.
pub proof fn lemma_resume_broadcast_once(v: MgrV, first: LinkState, second: LinkState)
    requires
        crate::model::resume_broadcasts(v, first),
    ensures
        v.state is Connected,
        step_resume(v, first).state is Disconnected,
        step_resume(v, first).last_state is Disconnected,
        !crate::model::resume_broadcasts(step_resume(v, first), second),
{
}

/// Within one poll, the dispatch steps between the prologue and the commit
/// never take a disconnected machine into `Connected` (only an IP
/// configuration interrupt does), so the hypothesis of
/// [`lemma_edge_broadcast_once`] holds at the commit of the pass that
/// broadcast.
pub proof fn lemma_dispatch_stays_disconnected(pre: MgrV, ev: EventV, post: MgrV)
    requires
        crate::model::step(pre, ev, post),
        !(pre.state is Connected),
        ev is SelectPrepare || ev is NextCandidate || ev is ConfirmJoin || ev is PollWaiting
            || ev is PollRetry || ev is PollError || ev is PollConnected,
    ensures
        !(post.state is Connected),
{
    match ev {
        EventV::NextCandidate(known) => {
            let r = choose|r: Option<Seq<char>>| next_candidate_rel(pre, known, r, post);
            assert(next_candidate_rel(pre, known, r, post));
            assert(post.state == pre.state);
        },
        _ => {},
    }
}

/// Only an IP configuration update takes the machine into `Connected`, and
/// that handler caches the fresh snapshot for the broadcast that goes with
/// it: a connected machine has had a non-default snapshot broadcast.
pub proof fn lemma_connected_only_by_ip_update(pre: MgrV, ev: EventV, post: MgrV)
    requires
        crate::model::step(pre, ev, post),
        !(pre.state is Connected),
        post.state is Connected,
    ensures
        ev is IpConfigUpdate,
{
    match ev {
        EventV::NextCandidate(known) => {
            let r = choose|r: Option<Seq<char>>| next_candidate_rel(pre, known, r, post);
            assert(next_candidate_rel(pre, known, r, post));
            assert(post.state == pre.state);
        },
        _ => {},
    }
}

/// A duplicate IP configuration update is harmless: applying the same
/// update twice is applying it once.
pub proof fn lemma_ip_update_idempotent(v: MgrV, st: crate::types::StatusV)
    ensures
        crate::model::step_ip_config(crate::model::step_ip_config(v, st), st)
            == crate::model::step_ip_config(v, st),
{
}

/// The edge-detection reference reaches `Connected` only through the two
/// steps that show subscribers a connected link: an IP configuration update,
/// or a poll that commits while connected.
proof fn lemma_last_raised_only_by_broadcasts(pre: MgrV, ev: EventV, post: MgrV)
    requires
        crate::model::step(pre, ev, post),
        post.last_state is Connected,
    ensures
        pre.last_state is Connected || ev is IpConfigUpdate || (ev is PollCommit
            && pre.state is Connected),
{
    match ev {
        EventV::NextCandidate(known) => {
            let r = choose|r: Option<Seq<char>>| next_candidate_rel(pre, known, r, post);
            assert(next_candidate_rel(pre, known, r, post));
        },
        _ => {},
    }
}

/// Without an IP configuration update, a machine that is not connected
/// stays so.
proof fn lemma_no_ip_update_stays_disconnected(
    states: Seq<MgrV>,
    events: Seq<EventV>,
    a: int,
    b: int,
)
    requires
        valid_trace(states, events),
        0 <= a <= b <= events.len(),
        !(states[a].state is Connected),
        forall|k: int| a <= k < b ==> !((#[trigger] events[k]) is IpConfigUpdate),
    ensures
        !(states[b].state is Connected),
    decreases b - a,
{
    if b > a {
        lemma_no_ip_update_stays_disconnected(states, events, a, b - 1);
        assert(crate::model::step(states[b - 1], events[b - 1], states[b - 1 + 1]));
        if states[b].state is Connected {
            lemma_connected_only_by_ip_update(states[b - 1], events[b - 1], states[b]);
        }
    }
}

/// While no IP update arrives and every commit happens on a machine that is
/// not connected, the edge-detection reference never becomes `Connected`.
proof fn lemma_last_stays_down(states: Seq<MgrV>, events: Seq<EventV>, a: int, b: int)
    requires
        valid_trace(states, events),
        0 <= a <= b <= events.len(),
        !(states[a].last_state is Connected),
        forall|k: int| a <= k < b ==> !((#[trigger] events[k]) is IpConfigUpdate),
        forall|k: int|
            a <= k < b ==> !((#[trigger] events[k]) is PollCommit && states[k].state
                is Connected),
    ensures
        !(states[b].last_state is Connected),
    decreases b - a,
{
    if b > a {
        lemma_last_stays_down(states, events, a, b - 1);
        assert(crate::model::step(states[b - 1], events[b - 1], states[b - 1 + 1]));
        if states[b].last_state is Connected {
            lemma_last_raised_only_by_broadcasts(states[b - 1], events[b - 1], states[b]);
        }
    }
}

/// The exactly-once edge broadcast, over whole executions and across both
/// mechanisms: once a default snapshot went out — from a poll's edge
/// detection or from resume reconciliation — no second one goes out until an
/// IP configuration update has reconnected the machine. (A poll that
/// broadcasts ends with its commit before the next poll begins; that is the
/// one sequencing fact assumed of the two-poll case.)
pub proof fn lemma_default_broadcast_once_per_edge(
    states: Seq<MgrV>,
    events: Seq<EventV>,
    i: int,
    j: int,
)
    requires
        valid_trace(states, events),
        0 <= i < j < events.len(),
        crate::model::emits_default_broadcast(states[i], events[i]),
        crate::model::emits_default_broadcast(states[j], events[j]),
        events[i] is PollBegin && events[j] is PollBegin ==> exists|c: int|
            i < c < j && (#[trigger] events[c]) is PollCommit,
    ensures
        exists|k: int| i < k < j && (#[trigger] events[k]) is IpConfigUpdate,
{
    if !(exists|k: int| i < k < j && (#[trigger] events[k]) is IpConfigUpdate) {
        assert forall|k: int| i < k < j implies !((#[trigger] events[k])
            is IpConfigUpdate) by {}
        assert(crate::model::step(states[i], events[i], states[i + 1]));
        // either way the first broadcast leaves the machine off `Connected`:
        // a poll edge saw it off already, a resume moved it to Disconnected
        assert(!(states[i + 1].state is Connected));
        // with no IP update it stays off `Connected` up to the second
        // broadcast, which therefore cannot be the resume mechanism
        assert forall|k: int| i + 1 <= k <= j implies !((#[trigger] states[k]).state
            is Connected) by {
            lemma_no_ip_update_stays_disconnected(states, events, i + 1, k);
        }
        // so it is a poll edge, which needs the edge reference at
        // `Connected`; but the reference is down after the first broadcast
        // settles (a resume lowers it itself; a poll commits off
        // `Connected`), and nothing raises it again
        assert(states[j].last_state is Connected);
        match events[i] {
            EventV::Resume(link) => {
                assert(states[i + 1].last_state is Disconnected);
                lemma_last_stays_down(states, events, i + 1, j);
            },
            _ => {
                let c = choose|c: int| i < c < j && (#[trigger] events[c]) is PollCommit;
                assert(crate::model::step(states[c], events[c], states[c + 1]));
                assert(!(states[c + 1].last_state is Connected));
                lemma_last_stays_down(states, events, c + 1, j);
            },
        }
        assert(false);
    }
}

/// Subscribers' view of the link is what the edge reference tracks: while
/// the machine is connected they have seen a connected snapshot, so the edge
/// stays armed and every later departure from `Connected` owes them one
/// default snapshot.
pub open spec fn edge_armed(v: MgrV) -> bool {
    v.state is Connected ==> v.last_state is Connected
}

/// Every step keeps the edge armed (and the initial machine is not
/// connected, so it starts armed vacuously).
pub proof fn lemma_edge_stays_armed(pre: MgrV, ev: EventV, post: MgrV)
    requires
        crate::model::step(pre, ev, post),
        edge_armed(pre),
    ensures
        edge_armed(post),
{
    match ev {
        EventV::NextCandidate(known) => {
            let r = choose|r: Option<Seq<char>>| next_candidate_rel(pre, known, r, post);
            assert(next_candidate_rel(pre, known, r, post));
        },
        _ => {},
    }
}

/// A disconnect interrupt taken while connected leaves the edge armed: the
/// next reconciling poll broadcasts the default snapshot, and a poll that
/// does not reconcile broadcasts nothing.
pub proof fn lemma_disconnect_arms_edge(v: MgrV, mounted_now: bool)
    requires
        v.state is Connected,
        edge_armed(v),
    ensures
        !(crate::model::step_disconnect(v).state is Connected),
        crate::model::step_disconnect(v).last_state is Connected,
        begin_broadcasts(crate::model::step_disconnect(v), mounted_now) == crate::model::reconciles(
            crate::model::step_disconnect(v),
            mounted_now,
        ),
{
}

/// RSSI storm suppression: right after an RSSI update, the same reading
/// triggers no second broadcast — only a changed value is rebroadcast.
pub proof fn lemma_rssi_suppression(v: MgrV, rssi: u8)
    ensures
        !rssi_broadcasts(step_update_rssi(v, rssi), rssi),
{
}

/// `n` consecutive effective polls applied to a waiting machine.
pub open spec fn iter_poll_waiting(v: MgrV, n: nat) -> MgrV
    decreases n,
{
    if n == 0 {
        v
    } else {
        iter_poll_waiting(step_poll_waiting(v), (n - 1) as nat)
    }
}

/// A join attempt cannot dangle: from `Connecting` or `WaitDhcp` with `w`
/// intervals already waited, the machine is in `Retry` after exactly
/// `INTERVALS_BEFORE_RETRY + 1 - w` further effective polls without a
/// connect interrupt, and is still waiting on every earlier one.
pub proof fn lemma_bounded_connecting(v: MgrV)
    requires
        awaiting(v.state),
        v.wait_count <= INTERVALS_BEFORE_RETRY,
    ensures
        iter_poll_waiting(
            v,
            (INTERVALS_BEFORE_RETRY + 1 - v.wait_count) as nat,
        ).state is Retry,
        forall|m: nat|
            m < INTERVALS_BEFORE_RETRY + 1 - v.wait_count ==> awaiting(
                #[trigger] iter_poll_waiting(v, m).state,
            ),
    decreases INTERVALS_BEFORE_RETRY + 1 - v.wait_count,
{
    let n = (INTERVALS_BEFORE_RETRY + 1 - v.wait_count) as nat;
    let v1 = step_poll_waiting(v);
    if v.wait_count + 1 > INTERVALS_BEFORE_RETRY {
        assert(v1.state is Retry);
        assert(iter_poll_waiting(v, 1) == v1);
        assert forall|m: nat| m < n implies awaiting(
            #[trigger] iter_poll_waiting(v, m).state,
        ) by {
            assert(m == 0);
        }
    } else {
        lemma_bounded_connecting(v1);
        assert(iter_poll_waiting(v, n) == iter_poll_waiting(v1, (n - 1) as nat));
        assert forall|m: nat| m < n implies awaiting(
            #[trigger] iter_poll_waiting(v, m).state,
        ) by {
            if m > 0 {
                assert(iter_poll_waiting(v, m) == iter_poll_waiting(v1, (m - 1) as nat));
            }
        }
    }
}

/// A connect interrupt settles a waiting join at once: any result other than
/// `Success` leaves the waiting states for its verdict, and `Success` moves
/// on to the DHCP wait without touching the interval budget.
pub proof fn lemma_connect_result_settles(v: MgrV, r: ConnectResult)
    requires
        awaiting(v.state),
    ensures
        r is Success ==> step_connect_result(v, r).state is WaitDhcp && step_connect_result(
            v,
            r,
        ).wait_count == v.wait_count,
        !(r is Success) ==> !awaiting(step_connect_result(v, r).state) && (
        step_connect_result(v, r).state is Retry || step_connect_result(v, r).state
            is InvalidAp || step_connect_result(v, r).state is InvalidAuth
            || step_connect_result(v, r).state is Error),
{
}

/// No event moves the firmware verdict.
proof fn lemma_step_keeps_rev_ok(pre: MgrV, ev: EventV, post: MgrV)
    requires
        crate::model::step(pre, ev, post),
    ensures
        post.rev_ok == pre.rev_ok,
{
    match ev {
        EventV::NextCandidate(known) => {
            let r = choose|r: Option<Seq<char>>| next_candidate_rel(pre, known, r, post);
            assert(next_candidate_rel(pre, known, r, post));
        },
        _ => {},
    }
}

/// The firmware verdict at any point of an execution is the verdict it
/// started with.
proof fn lemma_rev_ok_constant(states: Seq<MgrV>, events: Seq<EventV>, b: int)
    requires
        valid_trace(states, events),
        0 <= b < states.len(),
    ensures
        states[b].rev_ok == states[0].rev_ok,
    decreases b,
{
    if b > 0 {
        lemma_rev_ok_constant(states, events, b - 1);
        assert(crate::model::step(states[b - 1], events[b - 1], states[b - 1 + 1]));
        lemma_step_keeps_rev_ok(states[b - 1], events[b - 1], states[b]);
    }
}

/// Firmware below the minimum keeps the machine inert over whole
/// executions: the verdict never changes, no poll of the run ever
/// reconciles — so nothing is selected, broadcast or reset on its account —
/// and no join is ever issued. (The one notification, and the pump gate
/// that starts disabled, are the shell's to act on.)
pub proof fn lemma_old_firmware_inert(states: Seq<MgrV>, events: Seq<EventV>)
    requires
        valid_trace(states, events),
        states.len() > 0,
        !states[0].rev_ok,
    ensures
        forall|k: int| 0 <= k < states.len() ==> !(#[trigger] states[k]).rev_ok,
        forall|k: int| 0 <= k < events.len() ==> !emits_join(states[k], #[trigger] events[k]),
        forall|k: int, m: bool|
            0 <= k < events.len() && events[k] == EventV::PollBegin(m) ==> !(
            #[trigger] crate::model::reconciles(states[k], m)),
{
    assert forall|k: int| 0 <= k < states.len() implies !(#[trigger] states[k]).rev_ok by {
        lemma_rev_ok_constant(states, events, k);
    }
    assert forall|k: int| 0 <= k < events.len() implies !emits_join(
        states[k],
        #[trigger] events[k],
    ) by {
        if events[k] is ConfirmJoin {
            assert(crate::model::step(states[k], events[k], states[k + 1]));
        }
    }
}

/// The EC's resume report agrees with the state the machine already holds.
pub open spec fn ec_agrees(s: WifiState, link: LinkState) -> bool {
    match link {
        LinkState::Connected => s is Connected,
        LinkState::WFXError => s is Error,
        _ => s is Disconnected || s is Error,
    }
}

/// Resume idempotence: when the EC reports the state the machine already
/// holds, resume reconciliation changes nothing — no leave, no broadcast,
/// no state movement.
pub proof fn lemma_resume_idempotent(v: MgrV, link: LinkState)
    requires
        ec_agrees(v.state, link),
    ensures
        step_resume(v, link) == v,
        !crate::model::resume_leaves(v, link),
        !crate::model::resume_broadcasts(v, link),
{
}

} // verus!
