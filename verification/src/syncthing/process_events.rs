//! Bookkeeping over the daemon's event feed: picking out events by kind,
//! collecting their sequence numbers, and reading the folder state out of
//! the latest summary.

use vstd::prelude::*;

use crate::syncthing::api::SyncthingApi;
use crate::syncthing::errors::{EventTypesError, SyncthingError};
use crate::syncthing::event_structs::{
    folder_state_of, EventTypes, FolderState, SyncthingEvent,
};
use crate::text::str_eq;

verus! {

/// Whether the sequence climbs strictly: sorted, nothing twice.
pub open spec fn strictly_increasing(s: Seq<u16>) -> bool {
    forall|i: int, j: int| 0 <= i < j < s.len() ==> s[i] < s[j]
}

/// The sequence numbers of the events, in feed order.
pub open spec fn ids_of(events: Seq<SyncthingEvent>) -> Seq<u16> {
    events.map_values(|e: SyncthingEvent| e.id)
}

/// The events whose kind carries the given name, in feed order.
pub open spec fn filter_matching(events: Seq<SyncthingEvent>, name: Seq<char>) -> Seq<
    SyncthingEvent,
>
    decreases events.len(),
{
    if events.len() == 0 {
        Seq::empty()
    } else {
        let prev = filter_matching(events.drop_last(), name);
        if events.last().event_type@ == name {
            prev.push(events.last())
        } else {
            prev
        }
    }
}

/// Whether the event reports a folder summary.
pub open spec fn is_folder_summary(e: SyncthingEvent) -> bool {
    e.event_type@ == "FolderSummary"@
}

/// Whether index `j` holds the last folder summary of the feed.
pub open spec fn last_summary_at(events: Seq<SyncthingEvent>, j: int) -> bool {
    &&& 0 <= j < events.len()
    &&& is_folder_summary(events[j])
    &&& forall|k: int| j < k < events.len() ==> !is_folder_summary(#[trigger] events[k])
}

/// Keeps the sequence sorted while adding one number; a number already
/// present is not added twice.
fn insert_sorted(v: &Vec<u16>, x: u16) -> (out: Vec<u16>)
    requires
        strictly_increasing(v@),
    ensures
        strictly_increasing(out@),
        forall|y: u16| #[trigger] out@.contains(y) <==> (v@.contains(y) || y == x),
{
    let n: usize = v.len();
    let mut out: Vec<u16> = Vec::new();
    let mut i: usize = 0;
    while i < n && v[i] < x
        invariant
            i <= n,
            n == v@.len(),
            out@ == v@.take(i as int),
            forall|j: int| 0 <= j < i ==> v@[j] < x,
            strictly_increasing(v@),
        decreases n - i,
    {
        out.push(v[i]);
        proof {
            assert(out@ =~= v@.take(i + 1 as int));
        }
        i = i + 1;
    }
    let ghost k = i as int;
    if i < n && v[i] == x {
        while i < n
            invariant
                i <= n,
                n == v@.len(),
                out@ == v@.take(i as int),
            decreases n - i,
        {
            out.push(v[i]);
            proof {
                assert(out@ =~= v@.take(i + 1 as int));
            }
            i = i + 1;
        }
        proof {
            assert(out@ =~= v@);
            assert(v@.contains(x)) by {
                assert(v@[k] == x);
            }
        }
        return out;
    }
    proof {
        assert(k == n || v@[k] > x);
    }
    out.push(x);
    proof {
        assert(out@ =~= v@.take(k).push(x));
    }
    while i < n
        invariant
            0 <= k <= i <= n,
            n == v@.len(),
            out@ == v@.take(k).push(x) + v@.subrange(k, i as int),
        decreases n - i,
    {
        out.push(v[i]);
        proof {
            assert(out@ =~= v@.take(k).push(x) + v@.subrange(k, i + 1 as int));
        }
        i = i + 1;
    }
    proof {
        assert(out@.len() == n + 1);
        assert(forall|idx: int| 0 <= idx < k ==> out@[idx] == v@[idx]);
        assert(out@[k] == x);
        assert(forall|idx: int| k < idx <= n ==> out@[idx] == v@[idx - 1]);
        assert forall|a: int, b: int| 0 <= a < b < out@.len() implies out@[a] < out@[b] by {
            if b < k {
            } else if b == k {
                assert(v@[a] < x);
            } else if a < k {
                if a < b - 1 {
                    assert(v@[a] < v@[b - 1]);
                } else {
                    assert(a == b - 1 && a < k && k <= b - 1);
                }
            } else if a == k {
                assert(v@[k] > x);
                if k < b - 1 {
                    assert(v@[k] < v@[b - 1]);
                }
            } else {
                assert(v@[a - 1] < v@[b - 1]);
            }
        }
        assert forall|y: u16| #[trigger] out@.contains(y) implies (v@.contains(y) || y == x) by {
            let idx = choose|idx: int| 0 <= idx < out@.len() && out@[idx] == y;
            if idx < k {
                assert(v@[idx] == y);
            } else if idx == k {
            } else {
                assert(v@[idx - 1] == y);
            }
        }
        assert forall|y: u16| (v@.contains(y) || y == x) implies #[trigger] out@.contains(y) by {
            if y == x {
                assert(out@[k] == y);
            } else {
                let idx = choose|idx: int| 0 <= idx < v@.len() && v@[idx] == y;
                if idx < k {
                    assert(out@[idx] == y);
                } else {
                    assert(out@[idx + 1] == y);
                }
            }
        }
    }
    out
}

impl SyncthingApi {
    /// The last folder state the feed reports: the state named by the
    /// newest folder-summary event. A feed without one has nothing to
    /// say; a summary whose state is not a known word, or a summary event
    /// carrying the wrong payload, is refused.
    pub fn examine_folder_summary(&self, all_events: &Vec<SyncthingEvent>) -> (r: Result<
        FolderState,
        SyncthingError,
    >)
        ensures
            match r {
                Ok(st) => exists|j: int|
                    #[trigger] last_summary_at(all_events@, j)
                        && (all_events@[j].data matches EventTypes::FolderSummary(f)
                        && folder_state_of(f.summary.state@) == Some(st)),
                Err(e) => {
                    ||| (e is NoNewEvents && forall|j: int|
                        0 <= j < all_events@.len() ==> !is_folder_summary(
                            #[trigger] all_events@[j],
                        ))
                    ||| (e is EventTypeError && exists|j: int|
                        #[trigger] last_summary_at(all_events@, j)
                            && (all_events@[j].data matches EventTypes::FolderSummary(f)
                            && folder_state_of(f.summary.state@) is None))
                    ||| (e is GenericMessage && exists|j: int|
                        #[trigger] last_summary_at(all_events@, j) && !(all_events@[j].data
                            matches EventTypes::FolderSummary(_)))
                },
            },
    {
        let n: usize = all_events.len();
        let mut i: usize = n;
        while i > 0
            invariant
                i <= n,
                n == all_events@.len(),
                forall|k: int| i <= k < n ==> !is_folder_summary(#[trigger] all_events@[k]),
            decreases i,
        {
            i = i - 1;
            if str_eq(all_events[i].event_type.as_str(), "FolderSummary") {
                assert(last_summary_at(all_events@, i as int));
                match &all_events[i].data {
                    EventTypes::FolderSummary(f) => {
                        match FolderState::from_str(f.summary.state.as_str()) {
                            Some(state) => {
                                return Ok(state);
                            },
                            None => {
                                return Err(
                                    SyncthingError::EventTypeError(
                                        EventTypesError::ParseString(
                                            String::from_str(
                                                "error parsing folder state as string",
                                            ),
                                        ),
                                    ),
                                );
                            },
                        }
                    },
                    _ => {
                        return Err(
                            SyncthingError::GenericMessage(
                                String::from_str(
                                    "error validating FolderSummary after filtering",
                                ),
                            ),
                        );
                    },
                }
            }
        }
        Err(SyncthingError::NoNewEvents)
    }

    /// The events of one kind, in feed order. The copies carry the same
    /// numbers, kind name and timestamp.
    pub fn filter_events(&self, all_events: &Vec<SyncthingEvent>, event_type: &EventTypes) -> (r:
        Vec<SyncthingEvent>)
        ensures
            ({
                let m = filter_matching(
                    all_events@,
                    crate::syncthing::event_structs::event_type_name(*event_type),
                );
                &&& r@.len() == m.len()
                &&& forall|i: int|
                    0 <= i < r@.len() ==> {
                        &&& (#[trigger] r@[i]).id == m[i].id
                        &&& r@[i].globalID == m[i].globalID
                        &&& r@[i].event_type@ == m[i].event_type@
                        &&& r@[i].time@ == m[i].time@
                    }
            }),
    {
        let name: &str = event_type.kind_name();
        let ghost nm = crate::syncthing::event_structs::event_type_name(*event_type);
        let n: usize = all_events.len();
        let mut r: Vec<SyncthingEvent> = Vec::new();
        let mut i: usize = 0;
        while i < n
            invariant
                i <= n,
                n == all_events@.len(),
                nm == name@,
                ({
                    let m = filter_matching(all_events@.take(i as int), nm);
                    &&& r@.len() == m.len()
                    &&& forall|j: int|
                        0 <= j < r@.len() ==> {
                            &&& (#[trigger] r@[j]).id == m[j].id
                            &&& r@[j].globalID == m[j].globalID
                            &&& r@[j].event_type@ == m[j].event_type@
                            &&& r@[j].time@ == m[j].time@
                        }
                }),
            decreases n - i,
        {
            proof {
                assert(all_events@.take(i + 1 as int).drop_last() =~= all_events@.take(i as int));
                assert(all_events@.take(i + 1 as int).last() == all_events@[i as int]);
            }
            if str_eq(all_events[i].event_type.as_str(), name) {
                r.push(all_events[i].clone());
            }
            i = i + 1;
        }
        proof {
            assert(all_events@.take(n as int) =~= all_events@);
        }
        r
    }

    /// The sequence numbers of the events, in feed order.
    pub fn map_ids(&self, events: &Vec<SyncthingEvent>) -> (r: Vec<u16>)
        ensures
            r@ == ids_of(events@),
    {
        let n: usize = events.len();
        let mut r: Vec<u16> = Vec::new();
        let mut i: usize = 0;
        while i < n
            invariant
                i <= n,
                n == events@.len(),
                r@.len() == i,
                forall|j: int| 0 <= j < i ==> r@[j] == ids_of(events@)[j],
            decreases n - i,
        {
            r.push(events[i].id);
            i = i + 1;
        }
        proof {
            assert(r@ =~= ids_of(events@));
        }
        r
    }

    /// One climbing sequence out of two batches of sequence numbers:
    /// sorted, each number once, both inputs drained.
    pub fn merge_ids(&self, old_ids: &mut Vec<u16>, new_ids: &mut Vec<u16>) -> (r: Vec<u16>)
        ensures
            strictly_increasing(r@),
            forall|y: u16| #[trigger] r@.contains(y)
                <==> old(old_ids)@.contains(y) || old(new_ids)@.contains(y),
            final(old_ids)@.len() == 0,
            final(new_ids)@.len() == 0,
    {
        let mut r: Vec<u16> = Vec::new();
        let on: usize = old_ids.len();
        let mut i: usize = 0;
        while i < on
            invariant
                i <= on,
                on == old_ids@.len(),
                old_ids@ == old(old_ids)@,
                strictly_increasing(r@),
                forall|y: u16| #[trigger] r@.contains(y) <==> old(old_ids)@.take(i as int).contains(y),
            decreases on - i,
        {
            let next = insert_sorted(&r, old_ids[i]);
            proof {
                let t0 = old(old_ids)@.take(i as int);
                let t1 = old(old_ids)@.take(i + 1 as int);
                assert(t1.drop_last() =~= t0);
                assert forall|y: u16| #[trigger] next@.contains(y) implies t1.contains(y) by {
                    if r@.contains(y) {
                        let idx = choose|idx: int| 0 <= idx < t0.len() && t0[idx] == y;
                        assert(t1[idx] == y);
                    } else {
                        assert(t1[i as int] == y);
                    }
                }
                assert forall|y: u16| t1.contains(y) implies #[trigger] next@.contains(y) by {
                    let idx = choose|idx: int| 0 <= idx < t1.len() && t1[idx] == y;
                    if idx < i {
                        assert(t0[idx] == y);
                    }
                }
            }
            r = next;
            i = i + 1;
        }
        proof {
            assert(old(old_ids)@.take(on as int) =~= old(old_ids)@);
        }
        let nn: usize = new_ids.len();
        let mut j: usize = 0;
        while j < nn
            invariant
                j <= nn,
                nn == new_ids@.len(),
                new_ids@ == old(new_ids)@,
                strictly_increasing(r@),
                forall|y: u16| #[trigger] r@.contains(y)
                    <==> old(old_ids)@.contains(y) || old(new_ids)@.take(j as int).contains(y),
            decreases nn - j,
        {
            let next = insert_sorted(&r, new_ids[j]);
            proof {
                let t0 = old(new_ids)@.take(j as int);
                let t1 = old(new_ids)@.take(j + 1 as int);
                assert(t1.drop_last() =~= t0);
                assert forall|y: u16| #[trigger] next@.contains(y) implies (old(old_ids)@.contains(y)
                    || t1.contains(y)) by {
                    if !r@.contains(y) {
                        assert(t1[j as int] == y);
                    } else {
                        if !old(old_ids)@.contains(y) {
                            let idx = choose|idx: int| 0 <= idx < t0.len() && t0[idx] == y;
                            assert(t1[idx] == y);
                        }
                    }
                }
                assert forall|y: u16| (old(old_ids)@.contains(y) || t1.contains(y)) implies
                    #[trigger] next@.contains(y) by {
                    if !old(old_ids)@.contains(y) {
                        let idx = choose|idx: int| 0 <= idx < t1.len() && t1[idx] == y;
                        if idx < j {
                            assert(t0[idx] == y);
                        }
                    }
                }
            }
            r = next;
            j = j + 1;
        }
        proof {
            assert(old(new_ids)@.take(nn as int) =~= old(new_ids)@);
        }
        old_ids.clear();
        new_ids.clear();
        r
    }
}

} // verus!
