//! The feed cursor: which events have been seen, and where the next poll
//! should start. The HTTP transport that fetches events lives in the
//! process around the library.

use vstd::prelude::*;

use crate::syncthing::configs::Configs;
use crate::syncthing::event_structs::SyncthingEvent;
use crate::syncthing::process_events::{ids_of, strictly_increasing};

verus! {

/// How many seen sequence numbers are kept.
pub const SEEN_LIMIT: usize = 100;

/// The cursor over the daemon's event feed.
#[derive(Debug)]
pub struct SyncthingApi {
    /// The settings the cursor was built with.
    pub configs: Configs,
    /// The sequence numbers seen so far, climbing, at most the limit.
    pub seen: Vec<u16>,
    /// The newest seen sequence number.
    pub last_seen: Option<u16>,
}

/// Keeps only the newest entries of a climbing sequence, up to the limit.
fn trim_to_limit(ids: Vec<u16>) -> (r: Vec<u16>)
    requires
        strictly_increasing(ids@),
    ensures
        strictly_increasing(r@),
        r@.len() <= SEEN_LIMIT,
        forall|y: u16| #[trigger] r@.contains(y) ==> ids@.contains(y),
        forall|y: u16| #[trigger] ids@.contains(y) ==> r@.contains(y) || (r@.len() == SEEN_LIMIT
            && y < r@[0]),
{
    let ghost merged = ids@;
    let mut ids = ids;
    let ghost mut dropped: int = 0;
    while ids.len() > SEEN_LIMIT
        invariant
            strictly_increasing(merged),
            ids@ == merged.skip(dropped),
            0 <= dropped <= merged.len(),
            forall|y: u16| #[trigger] merged.contains(y) ==> (ids@.contains(y) || (ids@.len()
                >= SEEN_LIMIT && y < ids@[0])),
        decreases ids@.len(),
    {
        let ghost before = ids@;
        ids.remove(0);
        proof {
            assert(ids@ =~= merged.skip(dropped + 1));
            assert forall|y: u16| #[trigger] merged.contains(y) implies (ids@.contains(y) || (
            ids@.len() >= SEEN_LIMIT && y < ids@[0])) by {
                if before.contains(y) {
                    let idx = choose|idx: int| 0 <= idx < before.len() && before[idx] == y;
                    if idx == 0 {
                        assert(y == before[0]);
                        assert(ids@[0] == before[1]);
                        assert(before[0] < before[1]);
                    } else {
                        assert(ids@[idx - 1] == y);
                    }
                } else {
                    assert(before.len() >= SEEN_LIMIT && y < before[0]);
                    assert(ids@[0] == before[1]);
                }
            }
            dropped = dropped + 1;
        }
    }
    proof {
        assert forall|a: int, b: int| 0 <= a < b < ids@.len() implies ids@[a] < ids@[b] by {
            assert(ids@[a] == merged[a + dropped]);
            assert(ids@[b] == merged[b + dropped]);
        }
        assert forall|y: u16| #[trigger] ids@.contains(y) implies merged.contains(y) by {
            let idx = choose|idx: int| 0 <= idx < ids@.len() && ids@[idx] == y;
            assert(merged[idx + dropped] == y);
        }
    }
    ids
}

impl SyncthingApi {
    /// A fresh cursor: nothing seen yet.
    pub fn new(configs: Configs) -> (r: SyncthingApi)
        ensures
            r.seen@.len() == 0,
            r.last_seen is None,
            r.configs == configs,
    {
        SyncthingApi { configs, seen: Vec::new(), last_seen: None }
    }

    /// Folds a batch of events into the cursor: their sequence numbers
    /// join the seen set, sorted with nothing twice, trimmed to the
    /// newest hundred; the newest of all becomes the resume point. A
    /// number falls out only for being among the oldest past the limit.
    pub fn update_seen(&mut self, events: &Vec<SyncthingEvent>)
        requires
            strictly_increasing(old(self).seen@),
        ensures
            strictly_increasing(final(self).seen@),
            final(self).seen@.len() <= SEEN_LIMIT,
            forall|y: u16| #[trigger] final(self).seen@.contains(y)
                ==> old(self).seen@.contains(y) || ids_of(events@).contains(y),
            forall|y: u16| old(self).seen@.contains(y) || ids_of(events@).contains(y)
                ==> final(self).seen@.contains(y)
                || (final(self).seen@.len() == SEEN_LIMIT && y < final(self).seen@[0]),
            final(self).last_seen == (if final(self).seen@.len() > 0 {
                Some(final(self).seen@.last())
            } else {
                Option::<u16>::None
            }),
            final(self).configs == old(self).configs,
    {
        let mut existing_seen_ids: Vec<u16> = Vec::new();
        let sn: usize = self.seen.len();
        let mut si: usize = 0;
        while si < sn
            invariant
                si <= sn,
                sn == self.seen@.len(),
                existing_seen_ids@ == self.seen@.take(si as int),
            decreases sn - si,
        {
            existing_seen_ids.push(self.seen[si]);
            proof {
                assert(existing_seen_ids@ =~= self.seen@.take(si + 1 as int));
            }
            si = si + 1;
        }
        proof {
            assert(self.seen@.take(sn as int) =~= self.seen@);
        }
        let mut new_ids = self.map_ids(events);
        let compiled_ids = self.merge_ids(&mut existing_seen_ids, &mut new_ids);
        let ghost comp = compiled_ids@;
        let trimmed = trim_to_limit(compiled_ids);
        let trimmed_len: usize = trimmed.len();
        if trimmed_len > 0 {
            self.last_seen = Some(trimmed[trimmed_len - 1]);
        } else {
            self.last_seen = None;
        }
        self.seen = trimmed;
        proof {
            assert forall|y: u16|
                #![trigger old(self).seen@.contains(y)]
                #![trigger ids_of(events@).contains(y)]
                old(self).seen@.contains(y) || ids_of(events@).contains(y) implies self.seen@.contains(
                y,
            ) || (self.seen@.len() == SEEN_LIMIT && y < self.seen@[0]) by {
                assert(comp.contains(y));
            }
        }
    }
}

} // verus!
