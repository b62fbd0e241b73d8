//! Decisions of the script runner.
//!
//! A firing hands over a home dir and its scripts. The runner starts every
//! script of the firing exactly once, each after its own delay and with
//! the home dir as the single argument; reports each outcome without
//! retrying failures; and then unsubscribes the home dir, retrying the
//! send a bounded number of times.

use vstd::prelude::*;

use crate::channels::send_message;
use crate::errors::SubscriptionError;
use crate::paths::DirPath;
use crate::scripts::structs::Script;
use crate::text::{nonempty_lines, strings_view};
use crate::utilities::cli_args::LogLevel;

verus! {

/// Runs scripts on behalf of every watcher. The runtime and channels that
/// drive it live in the process around the library.
#[derive(Debug)]
pub struct Runner {}

/// One script start of a firing: which executable, on which home dir,
/// after how many seconds.
#[derive(Debug)]
pub struct ScriptRun {
    /// The path of the executable.
    pub script_path: String,
    /// The home dir handed to the executable as its single argument.
    pub target_path: DirPath,
    /// Seconds to wait before the start.
    pub run_delay: u8,
}

/// What one finished script reported.
#[derive(Debug)]
pub struct ScriptOutput {
    /// Whether the process exited successfully.
    pub success: bool,
    /// The captured standard output.
    pub stdout: String,
    /// The captured standard error.
    pub stderr: String,
}

/// One line for the log, with its level.
#[derive(Debug)]
pub struct LogEntry {
    /// How loud the line is.
    pub level: LogLevel,
    /// The text of the line.
    pub message: String,
}

/// How many times the unsubscribe send is retried per firing.
pub const UNSUBSCRIBE_RETRIES: i8 = 5;

/// The level and text of each entry.
pub open spec fn entries_view(r: Seq<LogEntry>) -> Seq<(LogLevel, Seq<char>)> {
    r.map_values(|e: LogEntry| (e.level, e.message@))
}

/// The log lines one outcome earns: a successful run's non-empty standard
/// output lines at debug, closed with the fixed success line at info; a
/// failed run's fixed error line and then its standard error, at error.
pub open spec fn output_entries(success: bool, stdout: Seq<char>, stderr: Seq<char>) -> Seq<
    (LogLevel, Seq<char>),
> {
    if success {
        nonempty_lines(stdout).map_values(|l: Seq<char>| (LogLevel::Debug, l)).push(
            (LogLevel::Info, "script execution successful"@),
        )
    } else {
        seq![(LogLevel::Error, "error with a script"@), (LogLevel::Error, stderr)]
    }
}

/// The whole report, outcome by outcome in order.
pub open spec fn outputs_log(outs: Seq<ScriptOutput>) -> Seq<(LogLevel, Seq<char>)>
    decreases outs.len(),
{
    if outs.len() == 0 {
        Seq::empty()
    } else {
        outputs_log(outs.drop_last()) + output_entries(
            outs.last().success,
            outs.last().stdout@,
            outs.last().stderr@,
        )
    }
}

impl Runner {
    /// The launch plan of one firing: every script of the firing exactly
    /// once, in declaration order, each with its own delay and the home
    /// dir as target. A delay of zero starts the script immediately.
    pub fn launch_plan(path: &DirPath, scripts: &Vec<Script>) -> (plan: Vec<ScriptRun>)
        ensures
            plan@.len() == scripts@.len(),
            forall|i: int|
                0 <= i < plan@.len() ==> {
                    &&& (#[trigger] plan@[i]).script_path@ == scripts@[i]@.file_path
                    &&& plan@[i].target_path@ == path@
                    &&& plan@[i].run_delay == scripts@[i]@.run_delay
                },
    {
        let n: usize = scripts.len();
        let mut plan: Vec<ScriptRun> = Vec::new();
        let mut i: usize = 0;
        while i < n
            invariant
                i <= n,
                n == scripts@.len(),
                plan@.len() == i,
                forall|j: int|
                    0 <= j < i ==> {
                        &&& (#[trigger] plan@[j]).script_path@ == scripts@[j]@.file_path
                        &&& plan@[j].target_path@ == path@
                        &&& plan@[j].run_delay == scripts@[j]@.run_delay
                    },
            decreases n - i,
        {
            plan.push(
                ScriptRun {
                    script_path: scripts[i].file_path.clone(),
                    target_path: path.clone(),
                    run_delay: scripts[i].run_delay,
                },
            );
            i = i + 1;
        }
        plan
    }

    /// The log report of the outcomes: for each script in turn, a
    /// successful run's non-empty standard output lines at debug closed
    /// with the fixed success line at info; a failed run's fixed error
    /// line and then its standard error, both at error. A failure is
    /// reported, never retried.
    pub fn log_script_output(awaited_scripts: &Vec<ScriptOutput>) -> (r: Vec<LogEntry>)
        ensures
            entries_view(r@) == outputs_log(awaited_scripts@),
    {
        let ghost outs = awaited_scripts@;
        let mut r: Vec<LogEntry> = Vec::new();
        let n: usize = awaited_scripts.len();
        let mut i: usize = 0;
        proof {
            assert(entries_view(r@) =~= outputs_log(outs.take(0)));
        }
        while i < n
            invariant
                i <= n,
                n == awaited_scripts@.len(),
                outs == awaited_scripts@,
                entries_view(r@) == outputs_log(outs.take(i as int)),
            decreases n - i,
        {
            proof {
                assert(outs.take(i + 1 as int).drop_last() =~= outs.take(i as int));
                assert(outs.take(i + 1 as int).last() == outs[i as int]);
            }
            let ghost base = entries_view(r@);
            if awaited_scripts[i].success {
                let lines = crate::text::split_nonempty_lines(awaited_scripts[i].stdout.as_str());
                let ghost dl = nonempty_lines(outs[i as int].stdout@).map_values(
                    |l: Seq<char>| (LogLevel::Debug, l),
                );
                let m: usize = lines.len();
                let mut k: usize = 0;
                proof {
                    assert(strings_view(lines@).len() == dl.len());
                    assert(entries_view(r@) =~= base + dl.take(0));
                }
                while k < m
                    invariant
                        k <= m,
                        m == lines@.len(),
                        m == dl.len(),
                        forall|j: int| 0 <= j < m ==> dl[j] == (LogLevel::Debug, lines@[j]@),
                        entries_view(r@) == base + dl.take(k as int),
                    decreases m - k,
                {
                    proof {
                        assert(dl.take(k + 1 as int).drop_last() =~= dl.take(k as int));
                        assert(dl.take(k + 1 as int).last() == dl[k as int]);
                    }
                    let ghost prev = entries_view(r@);
                    r.push(LogEntry { level: LogLevel::Debug, message: lines[k].clone() });
                    proof {
                        assert(entries_view(r@) =~= prev.push((LogLevel::Debug, lines@[k as int]@)));
                        assert(entries_view(r@) =~= base + dl.take(k + 1 as int));
                    }
                    k = k + 1;
                }
                let ghost prev = entries_view(r@);
                r.push(
                    LogEntry {
                        level: LogLevel::Info,
                        message: String::from_str("script execution successful"),
                    },
                );
                proof {
                    assert(dl.take(m as int) =~= dl);
                    assert(entries_view(r@) =~= prev.push(
                        (LogLevel::Info, "script execution successful"@),
                    ));
                    assert(entries_view(r@) =~= outputs_log(outs.take(i + 1 as int)));
                }
            } else {
                r.push(
                    LogEntry {
                        level: LogLevel::Error,
                        message: String::from_str("error with a script"),
                    },
                );
                r.push(
                    LogEntry { level: LogLevel::Error, message: awaited_scripts[i].stderr.clone() },
                );
                proof {
                    assert(entries_view(r@) =~= outputs_log(outs.take(i + 1 as int)));
                }
            }
            i = i + 1;
        }
        proof {
            assert(outs.take(n as int) =~= outs);
        }
        r
    }

    /// Hands the home dir to the unsubscribe channel, trying again on a
    /// refused send until the budget runs out: a refused message comes
    /// back untouched, so every attempt hands the very same path. Whether
    /// a send is accepted depends on the channel's receivers; an exhausted
    /// budget surfaces the unsubscribe failure.
    pub fn rec_unsubscribe(
        unsub_channel: &tokio::sync::broadcast::Sender<DirPath>,
        path: DirPath,
        num_retries: i8,
    ) -> (r: Result<Option<usize>, SubscriptionError>)
        ensures
            num_retries <= 0 ==> r is Err,
            r matches Ok(v) ==> v is None,
            r matches Err(e) ==> e is UnsubscribeSendError,
        decreases num_retries,
    {
        if num_retries <= 0 {
            return Err(
                SubscriptionError::UnsubscribeSendError(
                    String::from_str("unable to unsubscribe from path"),
                ),
            );
        }
        match send_message(unsub_channel, path) {
            Ok(_) => Ok(None),
            Err(returned) => {
                proof {
                    assert(returned == path);
                }
                Self::rec_unsubscribe(unsub_channel, returned, num_retries - 1)
            },
        }
    }
}

/// How many messages the bounded retry actually hands to the channel,
/// given the outcome each attempt would meet.
pub open spec fn sends_attempted(outcomes: Seq<bool>, retries: int) -> int
    decreases retries,
{
    if retries <= 0 || outcomes.len() == 0 {
        0
    } else if outcomes[0] {
        1
    } else {
        1 + sends_attempted(outcomes.drop_first(), retries - 1)
    }
}

/// How many messages the bounded retry delivers, given the outcome each
/// attempt would meet.
pub open spec fn successful_sends(outcomes: Seq<bool>, retries: int) -> int
    decreases retries,
{
    if retries <= 0 || outcomes.len() == 0 {
        0
    } else if outcomes[0] {
        1
    } else {
        successful_sends(outcomes.drop_first(), retries - 1)
    }
}

/// Per firing, at most one unsubscribe message is delivered, whatever the
/// channel does to each attempt; and exactly one is delivered precisely
/// when some attempt within the budget is accepted. The retry stops at
/// the first accepted send, so a firing never unsubscribes twice.
pub proof fn lemma_unsubscribe_sends_once(outcomes: Seq<bool>, retries: int)
    ensures
        0 <= successful_sends(outcomes, retries) <= 1,
        successful_sends(outcomes, retries) == 1 <==> exists|i: int|
            0 <= i < retries && i < outcomes.len() && outcomes[i],
    decreases retries,
{
    if retries <= 0 || outcomes.len() == 0 {
    } else if outcomes[0] {
        assert(0 < retries && 0 < outcomes.len() && outcomes[0]);
    } else {
        let rest = outcomes.drop_first();
        lemma_unsubscribe_sends_once(rest, retries - 1);
        if successful_sends(outcomes, retries) == 1 {
            let i0 = choose|i: int| 0 <= i < retries - 1 && i < rest.len() && rest[i];
            assert(outcomes[i0 + 1]);
        }
        if exists|i: int| 0 <= i < retries && i < outcomes.len() && outcomes[i] {
            let i0 = choose|i: int| 0 <= i < retries && i < outcomes.len() && outcomes[i];
            assert(i0 >= 1);
            assert(rest[i0 - 1]);
        }
    }
}

} // verus!
