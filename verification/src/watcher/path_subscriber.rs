//! The subscription registry and its debounce discipline.
//!
//! A home dir enters the registry when its first event arrives and leaves
//! when its scripts have run; while it is present, exactly one debounce
//! task watches it. The registry never overwrites an entry: the scripts
//! bound to a firing are those bound when the home dir first entered.

use vstd::prelude::*;

use crate::errors::{EventError, SubscriptionError, ThreadError};
use crate::events::FsEvent;
use crate::paths::{path_hash_spec, DirPath};
use crate::scripts::structs::Script;
use crate::watcher::structs::{PathHash, PathSubscriber, SpawnMessage};
use std::collections::HashMap;

verus! {

broadcast use vstd::std_specs::hash::group_hash_axioms;

/// What the control loop does with one incoming subscription message.
#[derive(Debug, Clone, Copy, PartialEq, Eq, Structural)]
pub enum RouteAction {
    /// Too many consecutive receive failures: the loop must surface a
    /// fatal subscription error.
    Fatal,
    /// A receive failure within the allowance: log and go on.
    Skip,
    /// The home dir is already being debounced; the message is dropped and
    /// the running task absorbs the event.
    AlreadyTracked,
    /// A new home dir: a debounce task must be started for it.
    SpawnDebounce,
}

/// How many consecutive receive failures the control loops forgive.
pub const MAX_CONSECUTIVE_RECV_ERRORS: i32 = 5;

impl PathSubscriber {
    /// An empty registry: nothing is being debounced.
    pub fn new() -> (s: Self)
        ensures
            s.paths@ == Map::<PathHash, SpawnMessage>::empty(),
    {
        PathSubscriber { paths: HashMap::new() }
    }

    /// Enters a home dir into the registry unless it is already present.
    /// Returns whether it was new; an existing entry is left untouched, so
    /// the scripts of a running debounce never change.
    pub fn lock_and_update_paths(&mut self, new_path: DirPath, scripts: Vec<Script>) -> (added:
        bool)
        ensures
            added == !old(self).paths@.contains_key(path_hash_spec(new_path@)),
            added ==> final(self).paths@ == old(self).paths@.insert(
                path_hash_spec(new_path@),
                (new_path, scripts),
            ),
            !added ==> final(self).paths@ == old(self).paths@,
    {
        let path_hash = new_path.path_hasher();
        if self.paths.contains_key(&path_hash) {
            false
        } else {
            self.paths.insert(path_hash, (new_path, scripts));
            true
        }
    }

    /// Whether the fingerprint is currently being debounced.
    pub fn contains(&self, path_hash: PathHash) -> (r: bool)
        ensures
            r == self.paths@.contains_key(path_hash),
    {
        self.paths.contains_key(&path_hash)
    }

    /// Removes a home dir from the registry once its scripts have run.
    /// Finding nothing under the fingerprint is an error: the unsubscribe
    /// missed.
    pub fn unsubscribe(&mut self, path: &DirPath) -> (r: Result<(), SubscriptionError>)
        ensures
            ({
                let key = path_hash_spec(path@);
                match r {
                    Ok(()) => {
                        &&& old(self).paths@.contains_key(key)
                        &&& final(self).paths@ == old(self).paths@.remove(key)
                    },
                    Err(e) => {
                        &&& !old(self).paths@.contains_key(key)
                        &&& final(self).paths@ == old(self).paths@
                        &&& e is UnsubscribeError
                    },
                }
            }),
    {
        let path_hash = path.path_hasher();
        match self.paths.remove(&path_hash) {
            Some(_) => Ok(()),
            None => Err(
                SubscriptionError::UnsubscribeError(
                    String::from_str("didn't find path in cache, didnt unsubscribe"),
                ),
            ),
        }
    }

    /// Handles one message from the unsubscribe channel. The message may
    /// belong to any watcher, so a path outside this watcher's root is
    /// passed over; one under it is removed from the registry.
    pub fn unsubscribe_step(&mut self, path: &DirPath, watch_path: &DirPath) -> (r: Result<
        bool,
        SubscriptionError,
    >)
        ensures
            ({
                let key = path_hash_spec(path@);
                match r {
                    Ok(removed) => {
                        if !watch_path@.is_prefix_of(path@) {
                            !removed && final(self).paths@ == old(self).paths@
                        } else {
                            &&& removed
                            &&& old(self).paths@.contains_key(key)
                            &&& final(self).paths@ == old(self).paths@.remove(key)
                        }
                    },
                    Err(e) => {
                        &&& watch_path@.is_prefix_of(path@)
                        &&& !old(self).paths@.contains_key(key)
                        &&& final(self).paths@ == old(self).paths@
                        &&& e is UnsubscribeError
                    },
                }
            }),
    {
        if !crate::paths::path_contains_subdir(watch_path, path) {
            return Ok(false);
        }
        match self.unsubscribe(path) {
            Ok(()) => Ok(true),
            Err(e) => Err(e),
        }
    }

    /// Checks one message from the raw event stream, keeping count of
    /// consecutive receive failures.
    pub fn validate_event_subscription(event: Result<FsEvent, EventError>, num_events_errors: i32)
        -> (r: Result<(FsEvent, i32), (SubscriptionError, i32)>)
        requires
            num_events_errors < i32::MAX,
        ensures
            match event {
                Ok(e) => r matches Ok(p) && p.0@ == e@ && p.1 == num_events_errors,
                Err(er) => r matches Err(p) && p.0 == SubscriptionError::EventError(er) && p.1
                    == num_events_errors + 1,
            },
    {
        match event {
            Ok(e) => Ok((e, num_events_errors)),
            Err(er) => Err((SubscriptionError::EventError(er), num_events_errors + 1)),
        }
    }

    /// The decision of the control loop on one subscription message: a
    /// failed receive counts against the allowance and past it the loop is
    /// fatal; a good message resets the count and enters the home dir into
    /// the registry, spawning a debounce task only when it was new.
    pub fn route_step(
        &mut self,
        msg: Result<SpawnMessage, ThreadError>,
        num_events_errors: &mut i32,
    ) -> (r: RouteAction)
        requires
            *old(num_events_errors) < i32::MAX,
        ensures
            match msg {
                Err(_) => {
                    &&& *final(num_events_errors) == *old(num_events_errors) + 1
                    &&& final(self).paths@ == old(self).paths@
                    &&& r == (if *final(num_events_errors) > MAX_CONSECUTIVE_RECV_ERRORS {
                        RouteAction::Fatal
                    } else {
                        RouteAction::Skip
                    })
                },
                Ok(m) => {
                    &&& *final(num_events_errors) == 0
                    &&& ({
                        let key = path_hash_spec(m.0@);
                        if old(self).paths@.contains_key(key) {
                            r == RouteAction::AlreadyTracked && final(self).paths@ == old(
                                self,
                            ).paths@
                        } else {
                            r == RouteAction::SpawnDebounce && final(self).paths@ == old(
                                self,
                            ).paths@.insert(key, m)
                        }
                    })
                },
            },
    {
        match msg {
            Err(_) => {
                *num_events_errors = *num_events_errors + 1;
                if *num_events_errors > MAX_CONSECUTIVE_RECV_ERRORS {
                    RouteAction::Fatal
                } else {
                    RouteAction::Skip
                }
            },
            Ok((path, scripts)) => {
                *num_events_errors = 0;
                if self.lock_and_update_paths(path, scripts) {
                    RouteAction::SpawnDebounce
                } else {
                    RouteAction::AlreadyTracked
                }
            },
        }
    }
}

/// The debounce bookkeeping of one watcher, abstracted: which home dirs
/// stand in the registry, and how many debounce tasks are alive for each.
pub struct DebounceProtocol {
    /// The fingerprints present in the registry.
    pub registry: Set<PathHash>,
    /// How many debounce tasks are alive per fingerprint.
    pub active: Map<PathHash, nat>,
}

/// What can happen to the bookkeeping.
pub enum ProtocolOp {
    /// A subscription message for the home dir arrived at the control
    /// loop.
    Subscribe(PathHash),
    /// The home dir's debounce task fired and exited.
    Fire(PathHash),
    /// The unsubscribe message that follows a firing reached the registry.
    Unsubscribe(PathHash),
}

/// How many debounce tasks are alive for the fingerprint.
pub open spec fn active_count(s: DebounceProtocol, k: PathHash) -> nat {
    if s.active.contains_key(k) {
        s.active[k]
    } else {
        0
    }
}

/// The debounce invariant: never more than one task per home dir, and a
/// task is alive only while its home dir stands in the registry.
pub open spec fn protocol_inv(s: DebounceProtocol) -> bool {
    forall|k: PathHash|
        #![trigger active_count(s, k)]
        active_count(s, k) <= 1 && (active_count(s, k) == 1 ==> s.registry.contains(k))
}

/// When an operation can happen: a subscription message can always
/// arrive; only a live task can fire; the unsubscribe comes only after
/// the firing, when no task is left.
pub open spec fn op_enabled(s: DebounceProtocol, op: ProtocolOp) -> bool {
    match op {
        ProtocolOp::Subscribe(_) => true,
        ProtocolOp::Fire(k) => active_count(s, k) == 1,
        ProtocolOp::Unsubscribe(k) => active_count(s, k) == 0,
    }
}

/// The bookkeeping after an operation: a subscribe message for a tracked
/// home dir is dropped, an untracked one is registered with one fresh
/// task; a firing ends its task; an unsubscribe clears the registry entry.
pub open spec fn protocol_step(s: DebounceProtocol, op: ProtocolOp) -> DebounceProtocol {
    match op {
        ProtocolOp::Subscribe(k) => {
            if s.registry.contains(k) {
                s
            } else {
                DebounceProtocol {
                    registry: s.registry.insert(k),
                    active: s.active.insert(k, 1),
                }
            }
        },
        ProtocolOp::Fire(k) => DebounceProtocol {
            registry: s.registry,
            active: s.active.insert(k, 0),
        },
        ProtocolOp::Unsubscribe(k) => DebounceProtocol {
            registry: s.registry.remove(k),
            active: s.active,
        },
    }
}

/// Before anything happened nothing is tracked and nothing runs.
pub open spec fn protocol_init(s: DebounceProtocol) -> bool {
    s.registry == Set::<PathHash>::empty() && s.active == Map::<PathHash, nat>::empty()
}

/// The initial bookkeeping satisfies the debounce invariant.
pub proof fn lemma_protocol_init(s: DebounceProtocol)
    requires
        protocol_init(s),
    ensures
        protocol_inv(s),
{
}

/// At any instant the number of live debounce tasks for a home dir is at
/// most one: every enabled operation preserves the debounce invariant, so
/// by induction from the initial state it holds always.
pub proof fn lemma_protocol_inv_preserved(s: DebounceProtocol, op: ProtocolOp)
    requires
        protocol_inv(s),
        op_enabled(s, op),
    ensures
        protocol_inv(protocol_step(s, op)),
        forall|k: PathHash| active_count(protocol_step(s, op), k) <= 1,
{
    let s2 = protocol_step(s, op);
    assert forall|k: PathHash|
        #![trigger active_count(s2, k)]
        active_count(s2, k) <= 1 && (active_count(s2, k) == 1 ==> s2.registry.contains(
            k,
        )) by {
        assert(active_count(s, k) <= 1);
    }
}

/// How many debounce tasks a burst of identical subscription messages
/// starts, from a given bookkeeping state.
pub open spec fn subscribes_spawned(s: DebounceProtocol, k: PathHash, n: nat) -> nat
    decreases n,
{
    if n == 0 {
        0
    } else {
        let now: nat = if s.registry.contains(k) {
            0
        } else {
            1
        };
        now + subscribes_spawned(protocol_step(s, ProtocolOp::Subscribe(k)), k, (n - 1) as nat)
    }
}

/// Subscribing is idempotent: however many times the same home dir is
/// subscribed while nothing fires or unsubscribes in between, exactly one
/// debounce task is started when it was untracked, and none when a task
/// already has it.
pub proof fn lemma_subscribe_idempotent(s: DebounceProtocol, k: PathHash, n: nat)
    requires
        n >= 1,
    ensures
        subscribes_spawned(s, k, n) == if s.registry.contains(k) {
            0int
        } else {
            1int
        },
    decreases n,
{
    let s2 = protocol_step(s, ProtocolOp::Subscribe(k));
    assert(s2.registry.contains(k));
    if n > 1 {
        lemma_subscribe_idempotent(s2, k, (n - 1) as nat);
    } else {
        lemma_subscribes_spawned_tracked(s2, k, (n - 1) as nat);
    }
}

/// A tracked home dir absorbs any number of further subscribe messages
/// without starting a task.
pub proof fn lemma_subscribes_spawned_tracked(s: DebounceProtocol, k: PathHash, n: nat)
    requires
        s.registry.contains(k),
    ensures
        subscribes_spawned(s, k, n) == 0,
    decreases n,
{
    if n > 0 {
        assert(protocol_step(s, ProtocolOp::Subscribe(k)) == s);
        lemma_subscribes_spawned_tracked(s, k, (n - 1) as nat);
    }
}

} // verus!
