use crate::sync::{distinct_strs, has_str};
use crate::text::contains_str;
use vstd::prelude::*;

verus! {

/// Seconds between two sweeps of the pending-redemption poller.
pub const PENDING_POLL_INTERVAL_SECS: u64 = 120;

/// Seconds between two sweeps of the role-expiry worker.
pub const EXPIRY_POLL_INTERVAL_SECS: u64 = 60;

/// The most rows one sweep of either worker takes up.
pub const SWEEP_BATCH_SIZE: i64 = 500;

/// How handing a sync event to the sync worker's queue ended.
#[derive(Clone, Copy, Debug, PartialEq, Eq, Structural)]
pub enum SendResult {
    /// The event was queued.
    Sent,
    /// The queue was full; the event was dropped.
    Full,
    /// The worker is gone; nothing more can be queued.
    Closed,
}

/// The counts of one sweep: events queued and events dropped.
#[derive(Clone, Copy, Debug, PartialEq, Eq, Structural)]
pub struct DispatchTally {
    pub dispatched: usize,
    pub dropped: usize,
}

/// One dispatch of the pending-redemption poller: a queued event counts as dispatched,
/// a full queue as dropped, and a closed queue ends the sweep (`None`) with the counts
/// unchanged.
pub fn pending_dispatch_step(t: DispatchTally, result: SendResult) -> (r: Option<DispatchTally>)
    requires
        t.dispatched < usize::MAX,
        t.dropped < usize::MAX,
    ensures
        match result {
            SendResult::Sent => r == Some(DispatchTally { dispatched: (t.dispatched + 1) as usize, ..t }),
            SendResult::Full => r == Some(DispatchTally { dropped: (t.dropped + 1) as usize, ..t }),
            SendResult::Closed => r is None,
        },
{
    match result {
        SendResult::Sent => Some(DispatchTally { dispatched: t.dispatched + 1, dropped: t.dropped }),
        SendResult::Full => Some(DispatchTally { dispatched: t.dispatched, dropped: t.dropped + 1 }),
        SendResult::Closed => None,
    }
}

/// One dispatch of the role-expiry worker: a queued event counts, a full queue is only
/// logged, and a closed queue ends the sweep (`None`).
pub fn expiry_dispatch_step(dispatched: usize, result: SendResult) -> (r: Option<usize>)
    requires
        dispatched < usize::MAX,
    ensures
        match result {
            SendResult::Sent => r == Some((dispatched + 1) as usize),
            SendResult::Full => r == Some(dispatched),
            SendResult::Closed => r is None,
        },
{
    match result {
        SendResult::Sent => Some(dispatched + 1),
        SendResult::Full => Some(dispatched),
        SendResult::Closed => None,
    }
}

/// The ids of the expired redemptions a sweep marks as revoked, in order.
pub fn expired_redemption_ids(rows: &Vec<(i64, String)>) -> (r: Vec<i64>)
    ensures
        r@.len() == rows@.len(),
        forall|i: int| 0 <= i < rows@.len() ==> #[trigger] r@[i] == rows@[i].0,
{
    let mut out: Vec<i64> = Vec::new();
    let mut i: usize = 0;
    while i < rows.len()
        invariant
            0 <= i <= rows@.len(),
            out@.len() == i,
            forall|j: int| 0 <= j < i ==> #[trigger] out@[j] == rows@[j].0,
        decreases rows@.len() - i,
    {
        out.push(rows[i].0);
        i = i + 1;
    }
    out
}

/// The members whose roles a sweep re-evaluates: each member of the expired
/// redemptions once.
pub fn distinct_members(rows: &Vec<(i64, String)>) -> (r: Vec<String>)
    ensures
        distinct_strs(r@),
        forall|s: Seq<char>|
            has_str(r@, s) <==> exists|k: int| 0 <= k < rows@.len() && (#[trigger] rows@[k]).1@ == s,
{
    let mut out: Vec<String> = Vec::new();
    let mut i: usize = 0;
    while i < rows.len()
        invariant
            0 <= i <= rows@.len(),
            distinct_strs(out@),
            forall|s: Seq<char>|
                has_str(out@, s) <==> exists|k: int| 0 <= k < i && (#[trigger] rows@[k]).1@ == s,
        decreases rows@.len() - i,
    {
        let d = &rows[i].1;
        let ghost before = out@;
        if !contains_str(&out, d.as_str()) {
            out.push(d.clone());
        }
        proof {
            assert forall|s: Seq<char>|
                (exists|k: int| 0 <= k < i + 1 && (#[trigger] rows@[k]).1@ == s) implies has_str(
                out@,
                s,
            ) by {
                let k = choose|k: int| 0 <= k < i + 1 && (#[trigger] rows@[k]).1@ == s;
                if k < i || has_str(before, s) {
                    if k < i {
                        assert(has_str(before, s));
                    }
                    let m = choose|m: int| 0 <= m < before.len() && (#[trigger] before[m])@ == s;
                    assert(out@[m] == before[m]);
                } else {
                    assert(out@[out@.len() - 1]@ == s);
                }
            }
            assert forall|s: Seq<char>| has_str(out@, s) implies exists|k: int|
                0 <= k < i + 1 && (#[trigger] rows@[k]).1@ == s by {
                let m = choose|m: int| 0 <= m < out@.len() && (#[trigger] out@[m])@ == s;
                if m < before.len() {
                    assert(out@[m] == before[m]);
                    assert(has_str(before, s));
                } else {
                    assert(rows@[i as int].1@ == s);
                }
            }
        }
        i = i + 1;
    }
    out
}

} // verus!
