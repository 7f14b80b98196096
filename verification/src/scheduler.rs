//! The cycle scheduler's decisions, as an event-driven state machine.
//!
//! The scheduler owns every decision of the poll-join-emit loop; the
//! unverified shell only performs the actions it asks for (fetch, submit,
//! sleep, terminate) and hands back the outcome as the next event. One
//! tick runs: fetch devices, fetch temperatures, fetch light levels, join
//! and convert, submit each record in order, then sleep whatever is left
//! of the configured interval.
//!
//! Fault policy: a failure of any of the three required fetches is fatal
//! — the scheduler moves to a terminal state that accepts no further
//! event and asks the shell to terminate. A refused submission is not:
//! the record is skipped, counted, and the cycle continues with the next
//! record.

use vstd::prelude::*;

use crate::cycle::{after_submission, build_records, cycle_records, initial_cycle_stats, CycleStats};
use crate::devices::Device;
use crate::error::Fault;
use crate::light_level::LightLevel;
use crate::metrics::MetricRecord;
use crate::response::GenericResponse;
use crate::temperature::Temperature;

verus! {

/// The polling interval used when the configuration names none: five
/// seconds, in milliseconds.
pub const DEFAULT_INTERVAL_MS: u64 = 5000;

/// Where the scheduler stands within one tick.
#[derive(Debug, PartialEq)]
pub enum CycleState {
    /// Between ticks; the next event starts a tick.
    Idle,
    /// The device snapshot has been requested.
    AwaitingDevices,
    /// The temperature collection has been requested.
    AwaitingTemperatures { devices: GenericResponse<Device> },
    /// The light-level collection has been requested.
    AwaitingLightLevels {
        devices: GenericResponse<Device>,
        temperatures: GenericResponse<Temperature>,
    },
    /// Records are being submitted one at a time; `next` indexes the
    /// record whose submission is in flight or due.
    Emitting { pending: Vec<MetricRecord>, next: usize, stats: CycleStats },
    /// A required fetch failed; the scheduler is terminal.
    Failed { fault: Fault },
}

/// What the shell reports back to the scheduler.
#[derive(Debug, PartialEq)]
pub enum Event {
    /// A new tick begins now.
    TickStarted,
    /// The device fetch finished.
    DevicesFetched(Result<GenericResponse<Device>, Fault>),
    /// The temperature fetch finished.
    TemperaturesFetched(Result<GenericResponse<Temperature>, Fault>),
    /// The light-level fetch finished.
    LightLevelsFetched(Result<GenericResponse<LightLevel>, Fault>),
    /// The submission of the record last asked for finished.
    SubmissionFinished(Result<(), Fault>),
    /// Every record of the tick has been handled; the cycle body took
    /// `elapsed_ms` milliseconds.
    CycleFinished { elapsed_ms: u64 },
}

/// What the scheduler asks the shell to do next.
#[derive(Debug, PartialEq)]
pub enum Action {
    /// Fetch the device collection.
    FetchDevices,
    /// Fetch the temperature collection.
    FetchTemperatures,
    /// Fetch the light-level collection.
    FetchLightLevels,
    /// Submit this record to the metric sink.
    Submit(MetricRecord),
    /// Measure the cycle body's elapsed time and report it.
    FinishCycle,
    /// Suspend for this many milliseconds, then start the next tick.
    Sleep(u64),
    /// Exit the process: a required fetch failed.
    Terminate(Fault),
}

/// The milliseconds left of the interval after the cycle body: the
/// difference while the body was faster, and zero from there on — the
/// next tick then starts immediately.
pub open spec fn spec_remaining_sleep(interval_ms: u64, elapsed_ms: u64) -> u64 {
    if elapsed_ms < interval_ms {
        (interval_ms - elapsed_ms) as u64
    } else {
        0u64
    }
}

/// The fixed-interval driver of the poll-join-emit cycle.
#[derive(Debug, PartialEq)]
pub struct Scheduler {
    /// The configured polling interval, in milliseconds.
    pub interval_ms: u64,
    /// Where the scheduler stands within the current tick.
    pub state: CycleState,
}

/// The exact transition relation of the scheduler: for an accepted
/// (state, event) pair it pins down the successor state and the action
/// handed to the shell.
pub open spec fn spec_transition(
    pre: Scheduler,
    event: Event,
    post: Scheduler,
    action: Action,
) -> bool {
    &&& post.interval_ms == pre.interval_ms
    &&& match (pre.state, event) {
        (CycleState::Idle, Event::TickStarted) => {
            post.state is AwaitingDevices && action is FetchDevices
        },
        (CycleState::AwaitingDevices, Event::DevicesFetched(outcome)) => match outcome {
            Ok(devices) => post.state == (CycleState::AwaitingTemperatures { devices })
                && action is FetchTemperatures,
            Err(fault) => post.state == (CycleState::Failed { fault }) && action
                == Action::Terminate(fault),
        },
        (CycleState::AwaitingTemperatures { devices }, Event::TemperaturesFetched(outcome)) => match outcome {
            Ok(temperatures) => post.state == (CycleState::AwaitingLightLevels {
                devices,
                temperatures,
            }) && action is FetchLightLevels,
            Err(fault) => post.state == (CycleState::Failed { fault }) && action
                == Action::Terminate(fault),
        },
        (
            CycleState::AwaitingLightLevels { devices, temperatures },
            Event::LightLevelsFetched(outcome),
        ) => match outcome {
            Ok(light_levels) => {
                &&& post.state matches CycleState::Emitting { pending, next, stats }
                &&& pending@ == cycle_records(
                    devices.data@,
                    temperatures.data@,
                    light_levels.data@,
                )
                &&& next == 0
                &&& stats == initial_cycle_stats(
                    devices.data@,
                    temperatures.data@,
                    light_levels.data@,
                )
                &&& (if pending@.len() > 0 {
                    action == Action::Submit(pending@[0])
                } else {
                    action is FinishCycle
                })
            },
            Err(fault) => post.state == (CycleState::Failed { fault }) && action
                == Action::Terminate(fault),
        },
        (CycleState::Emitting { pending, next, stats }, Event::SubmissionFinished(outcome)) => {
            &&& post.state matches CycleState::Emitting {
                pending: post_pending,
                next: post_next,
                stats: post_stats,
            }
            &&& post_pending == pending
            &&& post_next == next + 1
            &&& post_stats == after_submission(stats, outcome is Ok)
            &&& (if next + 1 < pending@.len() {
                action == Action::Submit(pending@[next + 1])
            } else {
                action is FinishCycle
            })
        },
        (CycleState::Emitting { .. }, Event::CycleFinished { elapsed_ms }) => {
            post.state is Idle && action == Action::Sleep(
                spec_remaining_sleep(pre.interval_ms, elapsed_ms),
            )
        },
        _ => false,
    }
}

impl Scheduler {
    /// Internal consistency: while emitting, the cursor stays within the
    /// queue and the submission counts add up to the records handled.
    pub open spec fn wf(self) -> bool {
        match self.state {
            CycleState::Emitting { pending, next, stats } => {
                &&& next <= pending@.len()
                &&& stats.submitted + stats.submission_failures == next
            },
            _ => true,
        }
    }

    /// Which events the scheduler accepts in its present state. A
    /// terminal (failed) scheduler accepts none.
    pub open spec fn accepts(self, event: Event) -> bool {
        match (self.state, event) {
            (CycleState::Idle, Event::TickStarted) => true,
            (CycleState::AwaitingDevices, Event::DevicesFetched(_)) => true,
            (CycleState::AwaitingTemperatures { .. }, Event::TemperaturesFetched(_)) => true,
            (CycleState::AwaitingLightLevels { .. }, Event::LightLevelsFetched(_)) => true,
            (CycleState::Emitting { pending, next, .. }, Event::SubmissionFinished(_)) => {
                next < pending@.len()
            },
            (CycleState::Emitting { pending, next, .. }, Event::CycleFinished { .. }) => {
                next == pending@.len()
            },
            _ => false,
        }
    }

    /// A scheduler between ticks, with the given polling interval.
    pub fn new(interval_ms: u64) -> (s: Scheduler)
        ensures
            s.interval_ms == interval_ms,
            s.state is Idle,
            s.wf(),
    {
        Scheduler { interval_ms, state: CycleState::Idle }
    }

    /// Whether `step` may be called with this event now. The shell tests
    /// this before every call.
    pub fn can_accept(&self, event: &Event) -> (r: bool)
        ensures
            r == self.accepts(*event),
    {
        match (&self.state, event) {
            (CycleState::Idle, Event::TickStarted) => true,
            (CycleState::AwaitingDevices, Event::DevicesFetched(_)) => true,
            (CycleState::AwaitingTemperatures { .. }, Event::TemperaturesFetched(_)) => true,
            (CycleState::AwaitingLightLevels { .. }, Event::LightLevelsFetched(_)) => true,
            (CycleState::Emitting { pending, next, .. }, Event::SubmissionFinished(_)) => {
                *next < pending.len()
            },
            (CycleState::Emitting { pending, next, .. }, Event::CycleFinished { .. }) => {
                *next == pending.len()
            },
            _ => false,
        }
    }

    /// The milliseconds to suspend after a cycle body that took
    /// `elapsed_ms`: the next tick starts no earlier than one interval
    /// after the previous tick's start, and immediately once the body
    /// has used the interval up.
    pub fn remaining_sleep(&self, elapsed_ms: u64) -> (r: u64)
        ensures
            r == spec_remaining_sleep(self.interval_ms, elapsed_ms),
            elapsed_ms < self.interval_ms ==> r + elapsed_ms == self.interval_ms,
            elapsed_ms >= self.interval_ms ==> r == 0,
    {
        if elapsed_ms < self.interval_ms {
            self.interval_ms - elapsed_ms
        } else {
            0
        }
    }

    /// Feeds one event to the scheduler and yields the next action.
    ///
    /// The transition taken is exactly `spec_transition`; in particular a
    /// failed required fetch moves to the terminal state with a
    /// `Terminate` action, and a refused submission only advances the
    /// cursor past the one skipped record.
    pub fn step(&mut self, event: Event) -> (action: Action)
        requires
            old(self).wf(),
            old(self).accepts(event),
        ensures
            final(self).wf(),
            spec_transition(*old(self), event, *final(self), action),
    {
        let mut prev = CycleState::Idle;
        core::mem::swap(&mut prev, &mut self.state);
        match (prev, event) {
            (CycleState::Idle, Event::TickStarted) => {
                self.state = CycleState::AwaitingDevices;
                Action::FetchDevices
            },
            (CycleState::AwaitingDevices, Event::DevicesFetched(Ok(devices))) => {
                self.state = CycleState::AwaitingTemperatures { devices };
                Action::FetchTemperatures
            },
            (CycleState::AwaitingDevices, Event::DevicesFetched(Err(fault))) => {
                let report = fault.clone();
                self.state = CycleState::Failed { fault };
                Action::Terminate(report)
            },
            (
                CycleState::AwaitingTemperatures { devices },
                Event::TemperaturesFetched(Ok(temperatures)),
            ) => {
                self.state = CycleState::AwaitingLightLevels { devices, temperatures };
                Action::FetchLightLevels
            },
            (CycleState::AwaitingTemperatures { .. }, Event::TemperaturesFetched(Err(fault))) => {
                let report = fault.clone();
                self.state = CycleState::Failed { fault };
                Action::Terminate(report)
            },
            (
                CycleState::AwaitingLightLevels { devices, temperatures },
                Event::LightLevelsFetched(Ok(light_levels)),
            ) => {
                let (pending, stats) = build_records(&devices, &temperatures, &light_levels);
                let action = if pending.len() > 0 {
                    Action::Submit(pending[0].clone())
                } else {
                    Action::FinishCycle
                };
                self.state = CycleState::Emitting { pending, next: 0, stats };
                action
            },
            (CycleState::AwaitingLightLevels { .. }, Event::LightLevelsFetched(Err(fault))) => {
                let report = fault.clone();
                self.state = CycleState::Failed { fault };
                Action::Terminate(report)
            },
            (
                CycleState::Emitting { pending, next, stats },
                Event::SubmissionFinished(outcome),
            ) => {
                let total = pending.len();
                proof {
                    assert(stats.submitted + stats.submission_failures == next < total);
                }
                let accepted = outcome.is_ok();
                let stats = if accepted {
                    CycleStats { submitted: stats.submitted + 1, ..stats }
                } else {
                    CycleStats { submission_failures: stats.submission_failures + 1, ..stats }
                };
                let next = next + 1;
                let action = if next < pending.len() {
                    Action::Submit(pending[next].clone())
                } else {
                    Action::FinishCycle
                };
                self.state = CycleState::Emitting { pending, next, stats };
                action
            },
            (CycleState::Emitting { pending, next, stats }, Event::CycleFinished { elapsed_ms }) => {
                let sleep_ms = self.remaining_sleep(elapsed_ms);
                self.state = CycleState::Idle;
                Action::Sleep(sleep_ms)
            },
            _ => vstd::pervasive::unreached(),
        }
    }
}

/// Fail-fast fidelity: once a required fetch has failed, the scheduler
/// accepts no further event — no later fetch of the tick is attempted.
pub proof fn lemma_failed_is_terminal(s: Scheduler, event: Event)
    requires
        s.state is Failed,
    ensures
        !s.accepts(event),
{
}

} // verus!
