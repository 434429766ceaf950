//! The rounds of continuous monitoring: when the chains are checked, when a summary
//! is sent, and how long to pause.
use crate::block_tracker::{elapsed, elapsed_time};
use vstd::prelude::*;

verus! {

/// What a watch is doing.
#[derive(Debug, Clone, Copy, PartialEq, Eq, Structural)]
pub enum WatchPhase {
    /// It has not begun
    New,
    /// It sends the first summary
    Opening,
    /// It checks the chains
    Checking,
    /// It sends a summary
    Summarising,
    /// It pauses
    Pausing,
}

/// What a watch does next.
#[derive(Debug, Clone, Copy, PartialEq, Eq, Structural)]
pub enum WatchAction {
    /// Send the summary of all chains
    SendSummary,
    /// Check all chains
    CheckAll,
    /// Pause
    Pause { seconds: u64 },
}

/// A watch over the chains.
#[derive(Debug, Clone, Copy, PartialEq, Eq, Structural)]
pub struct Watch {
    pub phase: WatchPhase,
    /// When the last summary was sent
    pub last_summary: u64,
    /// The seconds between two checks
    pub interval_secs: u64,
    /// The seconds between two summaries
    pub summary_interval_secs: u64,
}

/// Whether another summary is due: whole seconds since the last one are counted.
pub open spec fn is_summary_due(last_summary: u64, now: u64, interval_secs: u64) -> bool {
    elapsed(last_summary, now) / 1_000_000_000 >= interval_secs
}

/// Whether another summary is due.
pub fn summary_is_due(last_summary: u64, now: u64, interval_secs: u64) -> (r: bool)
    ensures
        r == is_summary_due(last_summary, now, interval_secs),
{
    elapsed_time(last_summary, now) / 1_000_000_000 >= interval_secs
}

/// What a watch becomes and does next, where it has done what it did last. A watch
/// begins with a summary, which counts from its beginning; then it checks and
/// pauses by turns, with a summary after a check where one is due, which counts
/// from when it was sent.
pub open spec fn watch_step(watch: Watch, now: u64) -> (Watch, WatchAction) {
    let pause = WatchAction::Pause { seconds: watch.interval_secs };
    match watch.phase {
        WatchPhase::New => (
            Watch { phase: WatchPhase::Opening, last_summary: now, ..watch },
            WatchAction::SendSummary,
        ),
        WatchPhase::Opening => (
            Watch { phase: WatchPhase::Checking, ..watch },
            WatchAction::CheckAll,
        ),
        WatchPhase::Checking => if is_summary_due(
            watch.last_summary,
            now,
            watch.summary_interval_secs,
        ) {
            (Watch { phase: WatchPhase::Summarising, ..watch }, WatchAction::SendSummary)
        } else {
            (Watch { phase: WatchPhase::Pausing, ..watch }, pause)
        },
        WatchPhase::Summarising => (
            Watch { phase: WatchPhase::Pausing, last_summary: now, ..watch },
            pause,
        ),
        WatchPhase::Pausing => (
            Watch { phase: WatchPhase::Checking, ..watch },
            WatchAction::CheckAll,
        ),
    }
}

impl Watch {
    /// A watch that has not begun.
    pub fn new(interval_secs: u64, summary_interval_secs: u64) -> (r: Watch)
        ensures
            r == (Watch {
                phase: WatchPhase::New,
                last_summary: 0,
                interval_secs,
                summary_interval_secs,
            }),
    {
        Watch { phase: WatchPhase::New, last_summary: 0, interval_secs, summary_interval_secs }
    }

    /// Go on, where what was to be done last is done.
    pub fn advance(&mut self, now: u64) -> (r: WatchAction)
        ensures
            (*final(self), r) == watch_step(*old(self), now),
    {
        match self.phase {
            WatchPhase::New => {
                self.last_summary = now;
                self.phase = WatchPhase::Opening;
                WatchAction::SendSummary
            },
            WatchPhase::Opening => {
                self.phase = WatchPhase::Checking;
                WatchAction::CheckAll
            },
            WatchPhase::Checking => {
                if summary_is_due(self.last_summary, now, self.summary_interval_secs) {
                    self.phase = WatchPhase::Summarising;
                    WatchAction::SendSummary
                } else {
                    self.phase = WatchPhase::Pausing;
                    WatchAction::Pause { seconds: self.interval_secs }
                }
            },
            WatchPhase::Summarising => {
                self.last_summary = now;
                self.phase = WatchPhase::Pausing;
                WatchAction::Pause { seconds: self.interval_secs }
            },
            WatchPhase::Pausing => {
                self.phase = WatchPhase::Checking;
                WatchAction::CheckAll
            },
        }
    }
}

/// A check is followed by one pause and then by the next check, with one summary
/// before the pause exactly where one was due after the check; the intervals stay.
pub proof fn law_checks_are_a_pause_apart(
    watch: Watch,
    checked: u64,
    summarised: u64,
    paused: u64,
)
    requires
        watch.phase is Checking,
    ensures
        ({
            let (after_check, first) = watch_step(watch, checked);
            let due = is_summary_due(watch.last_summary, checked, watch.summary_interval_secs);
            let (before_pause, second) = if due {
                watch_step(after_check, summarised)
            } else {
                (after_check, first)
            };
            let (next, third) = watch_step(before_pause, paused);
            &&& due ==> first is SendSummary
            &&& second == WatchAction::Pause { seconds: watch.interval_secs }
            &&& third is CheckAll
            &&& next == Watch {
                last_summary: if due {
                    summarised
                } else {
                    watch.last_summary
                },
                ..watch
            }
        }),
{
}

/// Another summary is due once as many whole seconds have passed since the last one
/// as lie between two; where none lie between them, at any time.
pub proof fn law_summaries_are_an_interval_apart(last_summary: u64, now: u64, interval_secs: u64)
    ensures
        is_summary_due(last_summary, now, interval_secs) <==> interval_secs == 0 || now
            - last_summary >= interval_secs * 1_000_000_000,
{
}

/// A watch begins with a summary and then checks, before any pause; the first
/// summary counts from the beginning, and the intervals stay.
pub proof fn law_watch_begins_with_a_summary(watch: Watch, begun: u64, sent: u64)
    requires
        watch.phase is New,
    ensures
        ({
            let (opening, first) = watch_step(watch, begun);
            let (checking, second) = watch_step(opening, sent);
            &&& first is SendSummary
            &&& second is CheckAll
            &&& checking == Watch { phase: WatchPhase::Checking, last_summary: begun, ..watch }
        }),
{
}

/// After a check, a summary is sent exactly where the seconds between two summaries
/// have passed since the last one; else the watch pauses for the seconds between two
/// checks.
pub proof fn law_summary_after_a_check(watch: Watch, now: u64)
    requires
        watch.phase is Checking,
    ensures
        ({
            let due = watch.summary_interval_secs == 0 || now - watch.last_summary
                >= watch.summary_interval_secs * 1_000_000_000;
            watch_step(watch, now).1 == if due {
                WatchAction::SendSummary
            } else {
                WatchAction::Pause { seconds: watch.interval_secs }
            }
        }),
{
    law_summaries_are_an_interval_apart(watch.last_summary, now, watch.summary_interval_secs);
}

} // verus!
