//! The subscriber registry: who receives status snapshots, keyed by the
//! connection identifier the transport handed out for the subscriber.

use vstd::prelude::*;
use crate::types::SUBSCRIBER_CAP;

verus! {

/// A subscription request: the server identifier the subscriber listens on
/// and the message identifier it wants status snapshots delivered under.
#[derive(Copy, Clone, Debug)]
pub struct WifiStateSubscription {
    pub sid: [u32; 4],
    pub opcode: u32,
}

/// The registry is full; the subscription was refused and nothing changed.
#[derive(Copy, Clone, Debug, PartialEq, Eq, Structural)]
pub struct CapacityExceeded;

/// Entries with `cid` exist in `s`.
pub open spec fn has_cid(s: Seq<(u32, WifiStateSubscription)>, cid: u32) -> bool {
    exists|i: int| 0 <= i < s.len() && s[i].0 == cid
}

/// The position of the last entry whose subscription carries `sid`.
pub open spec fn last_match(s: Seq<(u32, WifiStateSubscription)>, sid: Seq<u32>) -> Option<
    int,
>
    decreases s.len(),
{
    if s.len() == 0 {
        None
    } else if s.last().1.sid@ == sid {
        Some(s.len() - 1)
    } else {
        last_match(s.drop_last(), sid)
    }
}

/// Status listeners, in subscription order. Each connection identifier is
/// held at most once, and at most [`SUBSCRIBER_CAP`] listeners are carried.
pub struct SubscriberRegistry {
    entries: Vec<(u32, WifiStateSubscription)>,
}

impl View for SubscriberRegistry {
    type V = Seq<(u32, WifiStateSubscription)>;

    closed spec fn view(&self) -> Seq<(u32, WifiStateSubscription)> {
        self.entries@
    }
}

impl SubscriberRegistry {
    /// Connection identifiers are unique and the capacity bound holds.
    pub open spec fn wf(&self) -> bool {
        &&& forall|i: int, j: int|
            0 <= i < j < self@.len() ==> self@[i].0 != self@[j].0
        &&& self@.len() <= SUBSCRIBER_CAP
    }

    pub fn new() -> (r: SubscriberRegistry)
        ensures
            r.wf(),
            r@ == Seq::<(u32, WifiStateSubscription)>::empty(),
    {
        let r = SubscriberRegistry { entries: Vec::new() };
        proof {
            assert(r@ =~= Seq::<(u32, WifiStateSubscription)>::empty());
        }
        r
    }

    pub fn len(&self) -> (n: usize)
        ensures
            n == self@.len(),
    {
        self.entries.len()
    }

    /// Registers a listener. A connection identifier already present has its
    /// subscription replaced; a new one is appended, unless the registry is
    /// full, in which case nothing changes and the error says so.
    pub fn subscribe(&mut self, cid: u32, sub: WifiStateSubscription) -> (r: Result<
        (),
        CapacityExceeded,
    >)
        requires
            old(self).wf(),
        ensures
            final(self).wf(),
            has_cid(old(self)@, cid) ==> r is Ok && (exists|i: int|
                0 <= i < old(self)@.len() && old(self)@[i].0 == cid && final(self)@ == old(
                    self,
                )@.update(i, (cid, sub))),
            !has_cid(old(self)@, cid) && old(self)@.len() < SUBSCRIBER_CAP ==> r is Ok
                && final(self)@ == old(self)@.push((cid, sub)),
            !has_cid(old(self)@, cid) && old(self)@.len() >= SUBSCRIBER_CAP ==> r == Err::<
                (),
                CapacityExceeded,
            >(CapacityExceeded) && final(self)@ == old(self)@,
    {
        let n = self.entries.len();
        let mut i: usize = 0;
        while i < n
            invariant
                old(self).wf(),
                self@ == old(self)@,
                n == self@.len(),
                i <= n,
                forall|k: int| 0 <= k < i ==> self@[k].0 != cid,
            decreases n - i,
        {
            if self.entries[i].0 == cid {
                self.entries.set(i, (cid, sub));
                proof {
                    assert(old(self)@[i as int].0 == cid);
                    assert(self@ == old(self)@.update(i as int, (cid, sub)));
                    lemma_update_keeps_distinct(old(self)@, i as int, (cid, sub));
                }
                return Ok(());
            }
            i += 1;
        }
        proof {
            assert(!has_cid(self@, cid));
        }
        if n < SUBSCRIBER_CAP {
            self.entries.push((cid, sub));
            proof {
                assert forall|a: int, b: int|
                    0 <= a < b < self@.len() implies self@[a].0 != self@[b].0 by {
                    if b < old(self)@.len() {
                        assert(old(self)@[a].0 != old(self)@[b].0);
                    } else {
                        assert(self@[b].0 == cid);
                        assert(old(self)@[a].0 != cid);
                    }
                }
            }
            Ok(())
        } else {
            Err(CapacityExceeded)
        }
    }

    /// Drops the most recently added listener whose subscription carries
    /// `sid` and hands back its connection identifier, so the caller can
    /// tear the connection down after acknowledging the request.
    pub fn unsubscribe(&mut self, sid: &[u32; 4]) -> (r: Option<u32>)
        requires
            old(self).wf(),
        ensures
            final(self).wf(),
            last_match(old(self)@, sid@) is None ==> r is None && final(self)@ == old(
                self,
            )@,
            last_match(old(self)@, sid@) matches Some(i) ==> r == Some(old(self)@[i].0)
                && final(self)@ == old(self)@.remove(i),
    {
        let n = self.entries.len();
        let mut found: Option<usize> = None;
        let mut i: usize = 0;
        while i < n
            invariant
                n == self@.len(),
                i <= n,
                match found {
                    Some(f) => f < i && Some(f as int) == last_match(
                        self@.take(i as int),
                        sid@,
                    ),
                    None => last_match(self@.take(i as int), sid@) is None,
                },
            decreases n - i,
        {
            let ghost pre = last_match(self@.take(i as int), sid@);
            if sid_eq(&self.entries[i].1.sid, sid) {
                found = Some(i);
            }
            proof {
                let t = self@.take(i as int + 1);
                assert(t.drop_last() =~= self@.take(i as int));
                assert(t.last() == self@[i as int]);
            }
            i += 1;
        }
        proof {
            assert(self@.take(n as int) =~= self@);
        }
        match found {
            Some(f) => {
                let (cid, _) = self.entries.remove(f);
                proof {
                    lemma_remove_keeps_distinct(old(self)@, f as int);
                }
                Some(cid)
            },
            None => None,
        }
    }

    /// Every current listener's connection identifier, in subscription
    /// order: a broadcast delivers to each exactly once.
    pub fn cids(&self) -> (r: Vec<u32>)
        requires
            self.wf(),
        ensures
            r@ == self@.map_values(|e: (u32, WifiStateSubscription)| e.0),
            forall|i: int, j: int| 0 <= i < j < r@.len() ==> r@[i] != r@[j],
    {
        let ghost all = self@.map_values(|e: (u32, WifiStateSubscription)| e.0);
        let n = self.entries.len();
        let mut r: Vec<u32> = Vec::new();
        let mut i: usize = 0;
        while i < n
            invariant
                n == self@.len(),
                i <= n,
                all == self@.map_values(|e: (u32, WifiStateSubscription)| e.0),
                r@ =~= all.take(i as int),
            decreases n - i,
        {
            r.push(self.entries[i].0);
            proof {
                assert(r@ =~= all.take(i as int + 1));
            }
            i += 1;
        }
        proof {
            assert(r@ =~= all);
        }
        r
    }
}

/// Element-for-element equality of two server identifiers.
pub fn sid_eq(a: &[u32; 4], b: &[u32; 4]) -> (r: bool)
    ensures
        r == (a@ == b@),
{
    let r = a[0] == b[0] && a[1] == b[1] && a[2] == b[2] && a[3] == b[3];
    proof {
        if r {
            assert(a@ =~= b@);
        }
    }
    r
}

/// Replacing an entry with one of the same connection identifier keeps the
/// identifiers pairwise distinct.
proof fn lemma_update_keeps_distinct(
    s: Seq<(u32, WifiStateSubscription)>,
    at: int,
    e: (u32, WifiStateSubscription),
)
    requires
        0 <= at < s.len(),
        s[at].0 == e.0,
        forall|i: int, j: int| 0 <= i < j < s.len() ==> s[i].0 != s[j].0,
    ensures
        forall|i: int, j: int|
            0 <= i < j < s.update(at, e).len() ==> s.update(at, e)[i].0 != s.update(
                at,
                e,
            )[j].0,
{
    let t = s.update(at, e);
    assert forall|i: int, j: int| 0 <= i < j < t.len() implies t[i].0 != t[j].0 by {
        assert(s[i].0 != s[j].0);
        assert(t[i].0 == s[i].0);
        assert(t[j].0 == s[j].0);
    }
}

/// Removing an entry keeps the connection identifiers pairwise distinct.
proof fn lemma_remove_keeps_distinct(s: Seq<(u32, WifiStateSubscription)>, at: int)
    requires
        0 <= at < s.len(),
        forall|i: int, j: int| 0 <= i < j < s.len() ==> s[i].0 != s[j].0,
    ensures
        forall|i: int, j: int|
            0 <= i < j < s.remove(at).len() ==> s.remove(at)[i].0 != s.remove(at)[j].0,
{
    let t = s.remove(at);
    assert forall|i: int, j: int| 0 <= i < j < t.len() implies t[i].0 != t[j].0 by {
        let oi: int = if i < at {
            i
        } else {
            i + 1
        };
        let oj: int = if j < at {
            j
        } else {
            j + 1
        };
        assert(t[i] == s[oi]);
        assert(t[j] == s[oj]);
    }
}

} // verus!
