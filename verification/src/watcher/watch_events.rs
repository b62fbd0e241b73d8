//! The event filter of one watcher.
//!
//! Raw notifications arrive in bulk; only the rename-to completion of an
//! atomic write may fire scripts. For an accepted event, each touched
//! path is resolved to its home dir under the watched root; paths with no
//! home dir are dropped, the rest deduplicated, and one subscription
//! message per home dir goes out with the scripts of the event's kind.

use vstd::prelude::*;

use crate::channels::send_message;
use crate::errors::{EventError, SubscriptionError};
use crate::events::{EventKind, FsEvent, ModifyKind, RenameMode};
use crate::events::kind_key;
use crate::paths::{home_dir_of, walk_up_to_event_home_dir, DirPath};
use crate::scripts::structs::{clone_script_vec, scripts_view, Script, Scripts};
use crate::watcher::structs::{SpawnMessage, Watcher};

verus! {

/// Whether the kind tag is the rename-to completion: the one class of
/// notification that fires scripts, emitted when a finished file loses its
/// temporary name.
pub open spec fn is_rename_to(k: EventKind) -> bool {
    k == EventKind::Modify(ModifyKind::Name(RenameMode::To))
}

/// Whether the script cache files anything under the kind: subscription
/// messages go out only for kinds some script listens to.
pub open spec fn kind_has_scripts(m: Map<u64, Vec<Script>>, kind: EventKind) -> bool {
    m.contains_key(kind_key(kind) as u64) && scripts_view(m[kind_key(kind) as u64]@).len() > 0
}

/// Whether some entry of the vector is the given path.
fn contains_path(v: &Vec<DirPath>, p: &DirPath) -> (r: bool)
    ensures
        r == exists|i: int| 0 <= i < v@.len() && #[trigger] v@[i]@ == p@,
{
    let n: usize = v.len();
    let mut i: usize = 0;
    while i < n
        invariant
            i <= n,
            n == v@.len(),
            forall|j: int| 0 <= j < i ==> #[trigger] v@[j]@ != p@,
        decreases n - i,
    {
        if &v[i] == p {
            return true;
        }
        i = i + 1;
    }
    false
}

/// Whether some of the first `upto` touched paths has the given home dir
/// under the root.
pub open spec fn home_among(
    paths: Seq<Seq<Seq<char>>>,
    root: Seq<Seq<char>>,
    upto: int,
    d: Seq<Seq<char>>,
) -> bool {
    exists|p: int| 0 <= p < upto && home_dir_of(#[trigger] paths[p], root) == Some(d)
}

/// A home dir found among the first paths is still found among more of
/// them.
proof fn lemma_home_among_mono(
    paths: Seq<Seq<Seq<char>>>,
    root: Seq<Seq<char>>,
    u1: int,
    u2: int,
    d: Seq<Seq<char>>,
)
    requires
        u1 <= u2,
        home_among(paths, root, u1, d),
    ensures
        home_among(paths, root, u2, d),
{
    let p0 = choose|p: int| 0 <= p < u1 && home_dir_of(#[trigger] paths[p], root) == Some(d);
    assert(home_dir_of(paths[p0], root) == Some(d));
}

impl Watcher {
    /// Whether the event is passed over: everything but the rename-to
    /// completion of an atomic write is ignored, so half-written files
    /// never fire scripts.
    pub fn ignore(event: &FsEvent) -> (r: bool)
        ensures
            r == !is_rename_to(event.kind),
    {
        match &event.kind {
            EventKind::Modify(m) => match m {
                ModifyKind::Name(rm) => match rm {
                    RenameMode::To => false,
                    _ => true,
                },
                _ => true,
            },
            _ => true,
        }
    }

    /// The home dirs of the event's touched paths under the watched root,
    /// without duplicates. A path outside the root, or the root itself,
    /// contributes nothing.
    pub fn get_unique_event_home_dirs(event: &FsEvent, root_dir: &DirPath) -> (r: Vec<DirPath>)
        ensures
            forall|i: int|
                0 <= i < r@.len() ==> home_among(
                    event@.1,
                    root_dir@,
                    event@.1.len() as int,
                    #[trigger] r@[i]@,
                ),
            forall|p: int|
                0 <= p < event@.1.len() ==> (#[trigger] home_dir_of(event@.1[p], root_dir@))
                    is Some ==> exists|i: int|
                    0 <= i < r@.len() && Some(#[trigger] r@[i]@) == home_dir_of(
                        event@.1[p],
                        root_dir@,
                    ),
            forall|i: int, j: int| 0 <= i < j < r@.len() ==> r@[i]@ != r@[j]@,
    {
        let n: usize = event.paths.len();
        let mut r: Vec<DirPath> = Vec::new();
        let mut pi: usize = 0;
        while pi < n
            invariant
                pi <= n,
                n == event.paths@.len(),
                n == event@.1.len(),
                forall|i: int|
                    0 <= i < r@.len() ==> home_among(event@.1, root_dir@, pi as int, #[trigger] r@[i]@),
                forall|p: int|
                    0 <= p < pi ==> (#[trigger] home_dir_of(event@.1[p], root_dir@))
                        is Some ==> exists|i: int|
                        0 <= i < r@.len() && Some(#[trigger] r@[i]@) == home_dir_of(
                            event@.1[p],
                            root_dir@,
                        ),
                forall|i: int, j: int| 0 <= i < j < r@.len() ==> r@[i]@ != r@[j]@,
            decreases n - pi,
        {
            proof {
                assert(event@.1[pi as int] == event.paths@[pi as int]@);
            }
            match walk_up_to_event_home_dir(&event.paths[pi], root_dir) {
                Ok(home) => {
                    proof {
                        assert(Some(home@) == home_dir_of(event@.1[pi as int], root_dir@));
                    }
                    if !contains_path(&r, &home) {
                        let ghost prev = r@;
                        let ghost hv = home@;
                        r.push(home);
                        proof {
                            assert(r@[prev.len() as int]@ == hv);
                            assert(home_among(event@.1, root_dir@, pi + 1, hv));
                            assert forall|i: int| 0 <= i < r@.len() implies home_among(
                                event@.1,
                                root_dir@,
                                pi + 1,
                                #[trigger] r@[i]@,
                            ) by {
                                if i < prev.len() {
                                    assert(r@[i]@ == prev[i]@);
                                    lemma_home_among_mono(
                                        event@.1,
                                        root_dir@,
                                        pi as int,
                                        pi + 1,
                                        prev[i]@,
                                    );
                                }
                            }
                            assert forall|p: int|
                                0 <= p < pi + 1 && (#[trigger] home_dir_of(
                                    event@.1[p],
                                    root_dir@,
                                )) is Some implies exists|i: int|
                                0 <= i < r@.len() && Some(#[trigger] r@[i]@) == home_dir_of(
                                    event@.1[p],
                                    root_dir@,
                                ) by {
                                if p < pi {
                                    let i0 = choose|i: int|
                                        0 <= i < prev.len() && Some(#[trigger] prev[i]@)
                                            == home_dir_of(event@.1[p], root_dir@);
                                    assert(r@[i0]@ == prev[i0]@);
                                    assert(Some(r@[i0]@) == home_dir_of(event@.1[p], root_dir@));
                                } else {
                                    assert(Some(r@[prev.len() as int]@) == home_dir_of(
                                        event@.1[p],
                                        root_dir@,
                                    ));
                                }
                            }
                        }
                    } else {
                        proof {
                            let i0 = choose|i: int| 0 <= i < r@.len() && #[trigger] r@[i]@ == home@;
                            assert(Some(r@[i0]@) == home_dir_of(event@.1[pi as int], root_dir@));
                            assert forall|i: int| 0 <= i < r@.len() implies home_among(
                                event@.1,
                                root_dir@,
                                pi + 1,
                                #[trigger] r@[i]@,
                            ) by {
                                lemma_home_among_mono(event@.1, root_dir@, pi as int, pi + 1, r@[i]@);
                            }
                        }
                    }
                },
                Err(_) => {
                    proof {
                        assert(home_dir_of(event@.1[pi as int], root_dir@) is None);
                        assert forall|i: int| 0 <= i < r@.len() implies home_among(
                            event@.1,
                            root_dir@,
                            pi + 1,
                            #[trigger] r@[i]@,
                        ) by {
                            lemma_home_among_mono(event@.1, root_dir@, pi as int, pi + 1, r@[i]@);
                        }
                    }
                },
            }
            pi = pi + 1;
        }
        r
    }

    /// The subscription messages one event hands out: nothing for an
    /// ignored event, nothing when the kind's script set is empty, and
    /// otherwise one message per unique home dir of the touched paths,
    /// each carrying the scripts filed under the event's kind.
    pub fn subscription_plan(event: &FsEvent, root_dir: &DirPath, scripts: &Scripts) -> (plan: Vec<
        SpawnMessage,
    >)
        ensures
            !is_rename_to(event.kind) ==> plan@.len() == 0,
            !kind_has_scripts(scripts.scripts_by_event_triggers@, event.kind) ==> plan@.len()
                == 0,
            forall|i: int|
                0 <= i < plan@.len() ==> scripts_view((#[trigger] plan@[i]).1@) == scripts_view(
                    scripts.scripts_by_event_triggers@[kind_key(event.kind) as u64]@,
                ),
            (is_rename_to(event.kind) && kind_has_scripts(
                scripts.scripts_by_event_triggers@,
                event.kind,
            )) ==> {
                &&& forall|i: int|
                    0 <= i < plan@.len() ==> home_among(
                        event@.1,
                        root_dir@,
                        event@.1.len() as int,
                        (#[trigger] plan@[i]).0@,
                    )
                &&& forall|p: int|
                    0 <= p < event@.1.len() ==> (#[trigger] home_dir_of(
                        event@.1[p],
                        root_dir@,
                    )) is Some ==> exists|i: int|
                        0 <= i < plan@.len() && Some((#[trigger] plan@[i]).0@) == home_dir_of(
                            event@.1[p],
                            root_dir@,
                        )
                &&& forall|i: int, j: int| 0 <= i < j < plan@.len() ==> plan@[i].0@ != plan@[j].0@
            },
    {
        if Self::ignore(event) {
            return Vec::new();
        }
        let bound = scripts.get_by_event(&event.kind);
        if bound.len() == 0 {
            proof {
                assert(scripts_view(bound@).len() == 0);
            }
            return Vec::new();
        }
        proof {
            assert(scripts_view(bound@).len() == bound@.len());
        }
        let homes = Watcher::get_unique_event_home_dirs(event, root_dir);
        let mut plan: Vec<SpawnMessage> = Vec::new();
        let n: usize = homes.len();
        let mut i: usize = 0;
        while i < n
            invariant
                i <= n,
                n == homes@.len(),
                plan@.len() == i,
                forall|j: int| 0 <= j < i ==> (#[trigger] plan@[j]).0@ == homes@[j]@,
                forall|j: int|
                    0 <= j < i ==> scripts_view((#[trigger] plan@[j]).1@) == scripts_view(bound@),
            decreases n - i,
        {
            plan.push((homes[i].clone(), clone_script_vec(&bound)));
            i = i + 1;
        }
        proof {
            assert forall|p: int|
                0 <= p < event@.1.len() && (#[trigger] home_dir_of(event@.1[p], root_dir@))
                    is Some implies exists|i: int|
                0 <= i < plan@.len() && Some((#[trigger] plan@[i]).0@) == home_dir_of(
                    event@.1[p],
                    root_dir@,
                ) by {
                let i0 = choose|i: int|
                    0 <= i < homes@.len() && Some(#[trigger] homes@[i]@) == home_dir_of(
                        event@.1[p],
                        root_dir@,
                    );
                assert(plan@[i0].0@ == homes@[i0]@);
            }
        }
        plan
    }

    /// Decides what one accepted event subscribes — the messages of
    /// `subscription_plan` — and hands each to the channel. Returns the
    /// failures of the sends.
    pub fn decide_to_subscribe(
        event: &FsEvent,
        root_dir: &DirPath,
        subscribe_channel: &tokio::sync::broadcast::Sender<SpawnMessage>,
        scripts: &Scripts,
    ) -> (errs: Vec<SubscriptionError>)
        ensures
            !is_rename_to(event.kind) ==> errs@.len() == 0,
            !kind_has_scripts(scripts.scripts_by_event_triggers@, event.kind) ==> errs@.len()
                == 0,
            forall|i: int| 0 <= i < errs@.len() ==> #[trigger] errs@[i] is SpawnSendError,
    {
        let plan = Self::subscription_plan(event, root_dir, scripts);
        let mut errs: Vec<SubscriptionError> = Vec::new();
        let n: usize = plan.len();
        let mut i: usize = 0;
        while i < n
            invariant
                i <= n,
                n == plan@.len(),
                errs@.len() <= i,
                forall|j: int| 0 <= j < errs@.len() ==> #[trigger] errs@[j] is SpawnSendError,
            decreases n - i,
        {
            let message = (plan[i].0.clone(), clone_script_vec(&plan[i].1));
            match send_message(subscribe_channel, message) {
                Ok(_) => {},
                Err(_) => {
                    errs.push(
                        SubscriptionError::SpawnSendError(
                            String::from_str("the subscription channel refused the message"),
                        ),
                    );
                },
            }
            i = i + 1;
        }
        errs
    }

    /// Takes one message of the raw event stream: a backend error
    /// subscribes nothing; a good event goes through the filter and the
    /// home-dir fan-out. Returns the failures of the sends for the caller
    /// to log.
    pub fn evaluate_event(
        res: Result<FsEvent, EventError>,
        root_dir: &DirPath,
        subscribe_channel: &tokio::sync::broadcast::Sender<SpawnMessage>,
        scripts: &Scripts,
    ) -> (errs: Vec<SubscriptionError>)
        ensures
            res is Err ==> errs@.len() == 0,
            (res matches Ok(e) && !is_rename_to(e.kind)) ==> errs@.len() == 0,
            (res matches Ok(e) && !kind_has_scripts(
                scripts.scripts_by_event_triggers@,
                e.kind,
            )) ==> errs@.len() == 0,
            forall|i: int| 0 <= i < errs@.len() ==> #[trigger] errs@[i] is SpawnSendError,
    {
        match res {
            Ok(event) => Self::decide_to_subscribe(&event, root_dir, subscribe_channel, scripts),
            Err(_) => Vec::new(),
        }
    }
}

} // verus!
