//! The per-home-dir debounce decisions.
//!
//! While a home dir is being debounced, its task receives every raw event
//! and asks one question: does any ancestor of a touched path carry this
//! home dir's fingerprint? If so the deadline starts over; if not the
//! timer keeps running.

use vstd::prelude::*;

use crate::errors::EventError;
use crate::events::FsEvent;
use crate::paths::{path_hash_spec, DirPath, FNV_OFFSET, FNV_PRIME};
use crate::utilities::timer::{reset_spec, Timer};
use crate::watcher::path_subscriber::MAX_CONSECUTIVE_RECV_ERRORS;
use crate::watcher::structs::PathSubscriber;

verus! {

/// Whether some ancestor of the path (the path itself and the root
/// included) carries the given fingerprint.
pub open spec fn path_overlaps_hash(p: Seq<Seq<char>>, h: u64) -> bool {
    exists|j: int| 0 <= j <= p.len() && path_hash_spec(p.take(j)) == h
}

/// Whether some touched path of the event has an ancestor carrying the
/// given fingerprint.
pub open spec fn event_overlaps_hash(paths: Seq<Seq<Seq<char>>>, h: u64) -> bool {
    exists|i: int| 0 <= i < paths.len() && path_overlaps_hash(#[trigger] paths[i], h)
}

/// Whether some ancestor of the path carries the given fingerprint.
fn path_prefix_overlap(p: &DirPath, h: u64) -> (r: bool)
    ensures
        r == path_overlaps_hash(p@, h),
{
    let n: usize = p.components.len();
    let mut cur: u64 = FNV_OFFSET;
    assert(p@.take(0) =~= Seq::<Seq<char>>::empty());
    if cur == h {
        assert(path_hash_spec(p@.take(0)) == h);
        return true;
    }
    let mut k: usize = 0;
    while k < n
        invariant
            k <= n,
            n == p@.len(),
            cur == path_hash_spec(p@.take(k as int)),
            forall|j: int| 0 <= j <= k ==> path_hash_spec(p@.take(j)) != h,
        decreases n - k,
    {
        proof {
            assert(p@.take(k + 1 as int).drop_last() =~= p@.take(k as int));
            assert(p@.take(k + 1 as int).last() == p@[k as int]);
            assert(p@[k as int] == p.components@[k as int]@);
        }
        cur = crate::paths::hash_fold(cur, p.components[k].as_str());
        cur = (cur ^ ('/' as u64)).wrapping_mul(FNV_PRIME);
        k = k + 1;
        if cur == h {
            return true;
        }
    }
    assert(p@.take(n as int) =~= p@);
    false
}

/// What the debounce task does after one message; it only ever goes on or
/// gives up.
#[derive(Debug, Clone, Copy, PartialEq, Eq, Structural)]
pub enum DebounceAction {
    /// Keep waiting for the timer or further events.
    Continue,
    /// Too many consecutive receive failures: abort the debounce.
    Fatal,
}

impl PathSubscriber {
    /// Whether the event touches a path below the home dir with the given
    /// fingerprint: some ancestor of some touched path hashes to it.
    pub fn paths_overlap(event: &FsEvent, sub_path_hash: u64) -> (r: bool)
        ensures
            r == event_overlaps_hash(event@.1, sub_path_hash),
    {
        let n: usize = event.paths.len();
        let mut i: usize = 0;
        while i < n
            invariant
                i <= n,
                n == event.paths@.len(),
                n == event@.1.len(),
                forall|j: int| 0 <= j < i ==> !path_overlaps_hash(#[trigger] event@.1[j], sub_path_hash),
            decreases n - i,
        {
            proof {
                assert(event@.1[i as int] == event.paths@[i as int]@);
            }
            if path_prefix_overlap(&event.paths[i], sub_path_hash) {
                return true;
            }
            i = i + 1;
        }
        false
    }

    /// The decision of the debounce task on one message of the raw event
    /// stream: a receive failure counts against the allowance and past it
    /// the debounce aborts; an event overlapping this home dir starts the
    /// deadline over at the given clock reading; anything else leaves the
    /// timer alone.
    pub fn event_loop_step(
        timer: &mut Timer,
        event: Result<FsEvent, EventError>,
        sub_path_hash: u64,
        num_events_errors: &mut i32,
        now_ms: u64,
    ) -> (r: DebounceAction)
        requires
            *old(num_events_errors) < i32::MAX,
        ensures
            match event {
                Err(_) => {
                    &&& *final(num_events_errors) == *old(num_events_errors) + 1
                    &&& *final(timer) == *old(timer)
                    &&& r == (if *final(num_events_errors) > MAX_CONSECUTIVE_RECV_ERRORS {
                        DebounceAction::Fatal
                    } else {
                        DebounceAction::Continue
                    })
                },
                Ok(e) => {
                    &&& *final(num_events_errors) == 0
                    &&& r == DebounceAction::Continue
                    &&& (event_overlaps_hash(e@.1, sub_path_hash) ==> *final(timer) == reset_spec(
                        *old(timer),
                        now_ms,
                    ))
                    &&& (!event_overlaps_hash(e@.1, sub_path_hash) ==> *final(timer) == *old(
                        timer,
                    ))
                },
            },
    {
        match event {
            Err(_) => {
                *num_events_errors = *num_events_errors + 1;
                if *num_events_errors > MAX_CONSECUTIVE_RECV_ERRORS {
                    DebounceAction::Fatal
                } else {
                    DebounceAction::Continue
                }
            },
            Ok(e) => {
                *num_events_errors = 0;
                if Self::paths_overlap(&e, sub_path_hash) {
                    timer.reset(now_ms);
                }
                DebounceAction::Continue
            },
        }
    }
}

} // verus!
