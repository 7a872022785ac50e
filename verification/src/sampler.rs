//! The sampling loop as a state machine: the decisions of the loop, with the
//! waiting and the queries left to the caller.
//!
//! The caller resolves the identity of its process once, then performs each
//! command that [`Sampler::step`] returns and reports what came of it.
use crate::monitor::{snapshot_of, take_snapshot, Lookup, MetricsSnapshot, MonitorState};
use vstd::prelude::*;

verus! {

/// The time between two sampling cycles, in seconds.
pub const REFRESH_INTERVAL_SECS: u64 = 2;

/// Where the sampling loop stands.
#[derive(Clone, Copy, Debug, PartialEq, Eq, Structural)]
pub enum SamplerState {
    /// The identity of the process is being resolved.
    Starting,
    /// The metrics source is being queried.
    Sampling,
    /// A snapshot is being handed to the publish target.
    Publishing,
    /// The loop waits for the next cycle.
    Sleeping,
    /// The loop has ended and produces nothing more.
    Stopped,
}

/// What the caller reports back to the loop.
#[derive(Clone, Copy, Debug)]
pub enum SamplerEvent {
    /// The identity of the process is known.
    ProcessResolved,
    /// The identity of the process cannot be determined.
    ProcessUnresolved,
    /// The metrics source was queried, with this outcome.
    Sampled(Lookup),
    /// The publish target took the snapshot.
    Published,
    /// The publish target is no longer reachable.
    TargetGone,
    /// The wait between two cycles is over.
    TimerElapsed,
}

/// What the caller does next.
#[derive(Clone, Copy, Debug)]
pub enum Command {
    /// Refresh the memory counters and the process table, look the process up
    /// and report the outcome.
    Sample,
    /// Hand the snapshot to the publish target and report whether it took it.
    Publish(MetricsSnapshot),
    /// Wait this many seconds without blocking other work, then report that
    /// the timer has elapsed.
    Sleep(u64),
    /// End the loop.
    Stop,
    /// The event does not belong to the state the loop is in: do nothing.
    Ignore,
}

/// What the caller writes to the log.
#[derive(Clone, Copy, Debug, PartialEq, Eq, Structural)]
pub enum Warning {
    /// The identity of the process cannot be determined.
    ProcessUnresolved,
    /// The process was not found in this cycle.
    ProcessMissing,
}

/// The outcome of one step: a warning to log, if any, and the next command.
#[derive(Clone, Copy, Debug)]
pub struct Decision {
    pub warning: Option<Warning>,
    pub command: Command,
}

/// The state that follows `state` on `event`.
pub open spec fn next_state(state: SamplerState, event: SamplerEvent) -> SamplerState {
    match (state, event) {
        (SamplerState::Starting, SamplerEvent::ProcessResolved) => SamplerState::Sampling,
        (SamplerState::Starting, SamplerEvent::ProcessUnresolved) => SamplerState::Stopped,
        (SamplerState::Sampling, SamplerEvent::Sampled(Lookup::Found(_))) => {
            SamplerState::Publishing
        },
        (SamplerState::Sampling, SamplerEvent::Sampled(Lookup::Missing)) => SamplerState::Sleeping,
        (SamplerState::Publishing, SamplerEvent::Published) => SamplerState::Sleeping,
        (SamplerState::Publishing, SamplerEvent::TargetGone) => SamplerState::Stopped,
        (SamplerState::Sleeping, SamplerEvent::TimerElapsed) => SamplerState::Sampling,
        _ => state,
    }
}

/// What the loop decides in `state` on `event`, on a machine with `cpu_count`
/// cores.
pub open spec fn decision(state: SamplerState, event: SamplerEvent, cpu_count: u32) -> Decision {
    match (state, event) {
        (SamplerState::Starting, SamplerEvent::ProcessResolved) => Decision {
            warning: None,
            command: Command::Sample,
        },
        (SamplerState::Starting, SamplerEvent::ProcessUnresolved) => Decision {
            warning: Some(Warning::ProcessUnresolved),
            command: Command::Stop,
        },
        (SamplerState::Sampling, SamplerEvent::Sampled(Lookup::Found(reading))) => Decision {
            warning: None,
            command: Command::Publish(snapshot_of(reading, cpu_count)),
        },
        (SamplerState::Sampling, SamplerEvent::Sampled(Lookup::Missing)) => Decision {
            warning: Some(Warning::ProcessMissing),
            command: Command::Sleep(REFRESH_INTERVAL_SECS),
        },
        (SamplerState::Publishing, SamplerEvent::Published) => Decision {
            warning: None,
            command: Command::Sleep(REFRESH_INTERVAL_SECS),
        },
        (SamplerState::Publishing, SamplerEvent::TargetGone) => Decision {
            warning: None,
            command: Command::Stop,
        },
        (SamplerState::Sleeping, SamplerEvent::TimerElapsed) => Decision {
            warning: None,
            command: Command::Sample,
        },
        (SamplerState::Stopped, _) => Decision { warning: None, command: Command::Stop },
        _ => Decision { warning: None, command: Command::Ignore },
    }
}

/// The state after a sequence of events.
pub open spec fn state_after(state: SamplerState, events: Seq<SamplerEvent>) -> SamplerState
    decreases events.len(),
{
    if events.len() == 0 {
        state
    } else {
        next_state(state_after(state, events.drop_last()), events.last())
    }
}

/// What a sampling loop holds: where it stands, and the number of cores that
/// CPU readings are divided by.
pub struct SamplerModel {
    pub state: SamplerState,
    pub cpu_count: u32,
}

/// The sampling loop of one monitor.
#[derive(Clone, Copy, Debug)]
pub struct Sampler {
    state: SamplerState,
    cpu_count: u32,
}

impl View for Sampler {
    type V = SamplerModel;

    closed spec fn view(&self) -> SamplerModel {
        SamplerModel { state: self.state, cpu_count: self.cpu_count }
    }
}

impl Sampler {
    /// A loop that has not started: the caller resolves the identity of its
    /// process and reports the result. The number of cores is fixed here, once.
    pub fn new(cpu_count: u32) -> (sampler: Sampler)
        ensures
            sampler@.state == SamplerState::Starting,
            sampler@.cpu_count == cpu_count,
    {
        Sampler { state: SamplerState::Starting, cpu_count }
    }

    /// Where the loop stands.
    pub fn state(&self) -> (state: SamplerState)
        ensures
            state == self@.state,
    {
        self.state
    }

    /// The number of cores that CPU readings are divided by.
    pub fn cpu_count(&self) -> (cpu_count: u32)
        ensures
            cpu_count == self@.cpu_count,
    {
        self.cpu_count
    }

    /// Whether the loop has ended.
    pub fn is_stopped(&self) -> (stopped: bool)
        ensures
            stopped == (self@.state == SamplerState::Stopped),
    {
        match self.state {
            SamplerState::Stopped => true,
            _ => false,
        }
    }

    /// Takes one event and decides what follows.
    ///
    /// An unresolved process identity ends the loop for good, with a warning.
    /// A process that is not found costs the cycle its snapshot, with a
    /// warning, and the loop goes on. A publish target that is gone ends the
    /// loop silently.
    pub fn step(&mut self, event: SamplerEvent) -> (decided: Decision)
        ensures
            final(self)@.state == next_state(old(self)@.state, event),
            final(self)@.cpu_count == old(self)@.cpu_count,
            decided == decision(old(self)@.state, event, old(self)@.cpu_count),
    {
        match (self.state, event) {
            (SamplerState::Starting, SamplerEvent::ProcessResolved) => {
                self.state = SamplerState::Sampling;
                Decision { warning: None, command: Command::Sample }
            },
            (SamplerState::Starting, SamplerEvent::ProcessUnresolved) => {
                self.state = SamplerState::Stopped;
                Decision { warning: Some(Warning::ProcessUnresolved), command: Command::Stop }
            },
            (SamplerState::Sampling, SamplerEvent::Sampled(Lookup::Found(reading))) => {
                self.state = SamplerState::Publishing;
                let snapshot = take_snapshot(&reading, self.cpu_count);
                Decision { warning: None, command: Command::Publish(snapshot) }
            },
            (SamplerState::Sampling, SamplerEvent::Sampled(Lookup::Missing)) => {
                self.state = SamplerState::Sleeping;
                Decision {
                    warning: Some(Warning::ProcessMissing),
                    command: Command::Sleep(REFRESH_INTERVAL_SECS),
                }
            },
            (SamplerState::Publishing, SamplerEvent::Published) => {
                self.state = SamplerState::Sleeping;
                Decision { warning: None, command: Command::Sleep(REFRESH_INTERVAL_SECS) }
            },
            (SamplerState::Publishing, SamplerEvent::TargetGone) => {
                self.state = SamplerState::Stopped;
                Decision { warning: None, command: Command::Stop }
            },
            (SamplerState::Sleeping, SamplerEvent::TimerElapsed) => {
                self.state = SamplerState::Sampling;
                Decision { warning: None, command: Command::Sample }
            },
            (SamplerState::Stopped, _) => Decision { warning: None, command: Command::Stop },
            _ => Decision { warning: None, command: Command::Ignore },
        }
    }
}

/// The loop ends in two ways only: the identity of the process cannot be
/// resolved at the start, or the publish target is gone.
pub proof fn lemma_only_two_ways_to_stop(state: SamplerState, event: SamplerEvent)
    requires
        state != SamplerState::Stopped,
        next_state(state, event) == SamplerState::Stopped,
    ensures
        (state == SamplerState::Starting && event is ProcessUnresolved) || (state
            == SamplerState::Publishing && event is TargetGone),
{
}

/// A loop that has ended stays ended, whatever is reported to it, and asks
/// for nothing but to stop.
pub proof fn lemma_stopped_is_final(events: Seq<SamplerEvent>, event: SamplerEvent, cpu_count: u32)
    ensures
        state_after(SamplerState::Stopped, events) == SamplerState::Stopped,
        decision(SamplerState::Stopped, event, cpu_count).command is Stop,
        decision(SamplerState::Stopped, event, cpu_count).warning is None,
    decreases events.len(),
{
    if events.len() > 0 {
        lemma_stopped_is_final(events.drop_last(), event, cpu_count);
    }
}

/// A cycle in which the process is not found publishes nothing and does not
/// end the loop: the loop warns, waits and samples again.
pub proof fn lemma_miss_skips_the_cycle(cpu_count: u32)
    ensures
        next_state(SamplerState::Sampling, SamplerEvent::Sampled(Lookup::Missing))
            == SamplerState::Sleeping,
        decision(
            SamplerState::Sampling,
            SamplerEvent::Sampled(Lookup::Missing),
            cpu_count,
        ).warning == Some(Warning::ProcessMissing),
        decision(
            SamplerState::Sampling,
            SamplerEvent::Sampled(Lookup::Missing),
            cpu_count,
        ).command == Command::Sleep(REFRESH_INTERVAL_SECS),
        next_state(SamplerState::Sleeping, SamplerEvent::TimerElapsed) == SamplerState::Sampling,
{
}

/// The metrics source is queried once per period at most: a query is asked
/// for only at the start and when the timer has elapsed, and every query is
/// followed by a wait before the next one.
pub proof fn lemma_one_query_per_period(state: SamplerState, event: SamplerEvent, cpu_count: u32)
    ensures
        decision(state, event, cpu_count).command is Sample ==> (state == SamplerState::Starting
            && event is ProcessResolved) || (state == SamplerState::Sleeping
            && event is TimerElapsed),
        decision(state, event, cpu_count).command is Sample ==> next_state(state, event)
            == SamplerState::Sampling,
        state == SamplerState::Sampling ==> !(decision(state, event, cpu_count).command is Sample),
        state == SamplerState::Publishing ==> !(decision(state, event, cpu_count).command
            is Sample),
{
}

/// A snapshot is published only for a process that was found, and it is the
/// snapshot of that very reading.
pub proof fn lemma_publish_only_what_was_found(
    state: SamplerState,
    event: SamplerEvent,
    cpu_count: u32,
)
    ensures
        decision(state, event, cpu_count).command matches Command::Publish(snapshot) ==> {
            &&& state == SamplerState::Sampling
            &&& event matches SamplerEvent::Sampled(Lookup::Found(reading))
            &&& snapshot == snapshot_of(reading, cpu_count)
        },
{
}

/// What a cycle of the loop does to a monitor is what the outcome of its
/// lookup does: the snapshot that the loop asks to publish for a process that
/// was found takes the monitor where that reading takes it, and for a process
/// that was not found the loop asks for no snapshot and the monitor stays as
/// it is.
pub proof fn lemma_cycle_changes_the_monitor_as_its_lookup_does(
    monitor: MonitorState,
    lookup: Lookup,
    cpu_count: u32,
)
    ensures
        match decision(SamplerState::Sampling, SamplerEvent::Sampled(lookup), cpu_count).command {
            Command::Publish(snapshot) => lookup is Found && monitor.publish(snapshot)
                == monitor.observe(lookup, cpu_count),
            _ => lookup is Missing && monitor.observe(lookup, cpu_count) == monitor,
        },
{
}

} // verus!
