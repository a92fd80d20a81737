//! The outer loop: a pass over all servers, a pause, and so on until the
//! daemon is told to stop.
//!
//! The loop is either running or shutting down. Running, it is in a pass or
//! in the pause after one. Told to stop during the pause it stops at once;
//! told to stop during a pass it lets that pass come to its end and stops
//! then. Once it shuts down it starts no pass again.

use vstd::prelude::*;

verus! {

/// Where the loop stands.
#[derive(Debug, Clone, Copy, PartialEq, Eq, Structural)]
pub enum SchedulerState {
    /// Running: a pass over all servers is under way.
    Cycling,
    /// Running: the pause between two passes.
    Waiting,
    /// Shutting down: the pass that was under way is left to end.
    Draining,
    /// Shut down: the loop has ended.
    Stopped,
}

/// What happened to the loop.
#[derive(Debug, Clone, Copy, PartialEq, Eq, Structural)]
pub enum SchedulerEvent {
    /// The pass that was under way has ended.
    CycleFinished,
    /// The pause is over.
    DelayElapsed,
    /// The daemon was told to stop.
    Shutdown,
}

/// What the loop is to do.
#[derive(Debug, Clone, Copy, PartialEq, Eq, Structural)]
pub enum SchedulerStep {
    /// Make a pass over all servers.
    RunCycle,
    /// Pause, and listen for the order to stop meanwhile.
    Wait { seconds: u64 },
    /// Let the pass that is under way end; start nothing.
    FinishCycle,
}

impl SchedulerState {
    /// Running, as opposed to shutting down.
    pub open spec fn is_running(self) -> bool {
        self == SchedulerState::Cycling || self == SchedulerState::Waiting
    }

    /// The state after `event`. An event that means nothing in the state
    /// the loop is in changes nothing.
    pub open spec fn next(self, event: SchedulerEvent) -> SchedulerState {
        match (self, event) {
            (SchedulerState::Cycling, SchedulerEvent::CycleFinished) => SchedulerState::Waiting,
            (SchedulerState::Cycling, SchedulerEvent::Shutdown) => SchedulerState::Draining,
            (SchedulerState::Waiting, SchedulerEvent::DelayElapsed) => SchedulerState::Cycling,
            (SchedulerState::Waiting, SchedulerEvent::Shutdown) => SchedulerState::Stopped,
            (SchedulerState::Draining, SchedulerEvent::CycleFinished) => SchedulerState::Stopped,
            _ => self,
        }
    }

    /// Whether `event` starts a pass in this state.
    pub open spec fn starts_cycle(self, event: SchedulerEvent) -> bool {
        self != SchedulerState::Cycling && self.next(event) == SchedulerState::Cycling
    }

    /// The state after all of `events`, taken in their order.
    pub open spec fn run(self, events: Seq<SchedulerEvent>) -> SchedulerState
        decreases events.len(),
    {
        if events.len() == 0 {
            self
        } else {
            self.next(events[0]).run(events.skip(1))
        }
    }

    /// Number of passes that are started while `events` happen.
    pub open spec fn cycles_started(self, events: Seq<SchedulerEvent>) -> nat
        decreases events.len(),
    {
        if events.len() == 0 {
            0
        } else {
            let started: nat = if self.starts_cycle(events[0]) {
                1
            } else {
                0
            };
            started + self.next(events[0]).cycles_started(events.skip(1))
        }
    }

    /// What the loop is to do in this state, pausing for `delay` seconds
    /// between two passes; nothing once it has stopped.
    pub open spec fn awaited(self, delay: u64) -> Option<SchedulerStep> {
        match self {
            SchedulerState::Cycling => Some(SchedulerStep::RunCycle),
            SchedulerState::Waiting => Some(SchedulerStep::Wait { seconds: delay }),
            SchedulerState::Draining => Some(SchedulerStep::FinishCycle),
            SchedulerState::Stopped => None,
        }
    }
}

/// The loop of the daemon.
#[derive(Debug, Clone, Copy, PartialEq, Eq)]
pub struct Scheduler {
    state: SchedulerState,
    delay: u64,
}

impl Scheduler {
    pub closed spec fn state(&self) -> SchedulerState {
        self.state
    }

    /// Seconds of the pause between two passes.
    pub closed spec fn delay(&self) -> u64 {
        self.delay
    }

    /// A loop that begins with a pass and pauses for `delay` seconds after
    /// each.
    pub fn new(delay: u64) -> (scheduler: Self)
        ensures
            scheduler.state() == SchedulerState::Cycling,
            scheduler.delay() == delay,
    {
        Scheduler { state: SchedulerState::Cycling, delay }
    }

    pub fn current(&self) -> (state: SchedulerState)
        ensures
            state == self.state(),
    {
        self.state
    }

    /// Whether the loop is running; if not, it is shutting down or has
    /// stopped.
    pub fn is_running(&self) -> (running: bool)
        ensures
            running == self.state().is_running(),
    {
        match self.state {
            SchedulerState::Cycling => true,
            SchedulerState::Waiting => true,
            _ => false,
        }
    }

    /// What is to be done now; nothing once the loop has stopped.
    pub fn pending(&self) -> (step: Option<SchedulerStep>)
        ensures
            step == self.state().awaited(self.delay()),
    {
        match self.state {
            SchedulerState::Cycling => Some(SchedulerStep::RunCycle),
            SchedulerState::Waiting => Some(SchedulerStep::Wait { seconds: self.delay }),
            SchedulerState::Draining => Some(SchedulerStep::FinishCycle),
            SchedulerState::Stopped => None,
        }
    }

    /// Takes in what happened.
    pub fn step(&mut self, event: SchedulerEvent)
        ensures
            final(self).state() == old(self).state().next(event),
            final(self).delay() == old(self).delay(),
    {
        let after = match self.state {
            SchedulerState::Cycling => match event {
                SchedulerEvent::CycleFinished => SchedulerState::Waiting,
                SchedulerEvent::Shutdown => SchedulerState::Draining,
                SchedulerEvent::DelayElapsed => SchedulerState::Cycling,
            },
            SchedulerState::Waiting => match event {
                SchedulerEvent::DelayElapsed => SchedulerState::Cycling,
                SchedulerEvent::Shutdown => SchedulerState::Stopped,
                SchedulerEvent::CycleFinished => SchedulerState::Waiting,
            },
            SchedulerState::Draining => match event {
                SchedulerEvent::CycleFinished => SchedulerState::Stopped,
                _ => SchedulerState::Draining,
            },
            SchedulerState::Stopped => SchedulerState::Stopped,
        };
        self.state = after;
    }
}

/// Shutting down is for good: a loop that shuts down never runs again and
/// starts no pass, whatever happens.
pub proof fn lemma_shutdown_is_final(state: SchedulerState, events: Seq<SchedulerEvent>)
    requires
        !state.is_running(),
    ensures
        !state.run(events).is_running(),
        state.cycles_started(events) == 0,
    decreases events.len(),
{
    if events.len() > 0 {
        lemma_shutdown_is_final(state.next(events[0]), events.skip(1));
    }
}

/// Whenever the order to stop comes, no pass is started after it.
pub proof fn lemma_no_cycle_after_shutdown(state: SchedulerState, events: Seq<SchedulerEvent>)
    ensures
        !state.next(SchedulerEvent::Shutdown).is_running(),
        state.next(SchedulerEvent::Shutdown).cycles_started(events) == 0,
{
    lemma_shutdown_is_final(state.next(SchedulerEvent::Shutdown), events);
}

/// The order to stop that comes during the pause ends the loop there and
/// then: nothing is left to do and no pass is started after it.
pub proof fn lemma_shutdown_while_waiting(delay: u64, events: Seq<SchedulerEvent>)
    ensures
        SchedulerState::Waiting.next(SchedulerEvent::Shutdown) == SchedulerState::Stopped,
        SchedulerState::Stopped.run(events) == SchedulerState::Stopped,
        SchedulerState::Stopped.run(events).awaited(delay) is None,
        SchedulerState::Stopped.cycles_started(events) == 0,
    decreases events.len(),
{
    lemma_shutdown_is_final(SchedulerState::Stopped, events);
    if events.len() > 0 {
        lemma_shutdown_while_waiting(delay, events.skip(1));
    }
}

/// The order to stop that comes during a pass lets the pass end: the loop
/// waits for its end, stops when it comes, and starts no pass after the
/// order.
pub proof fn lemma_shutdown_in_cycle(delay: u64, events: Seq<SchedulerEvent>)
    ensures
        SchedulerState::Cycling.next(SchedulerEvent::Shutdown) == SchedulerState::Draining,
        SchedulerState::Draining.awaited(delay) == Some(SchedulerStep::FinishCycle),
        SchedulerState::Draining.next(SchedulerEvent::CycleFinished) == SchedulerState::Stopped,
        SchedulerState::Draining.cycles_started(events) == 0,
{
    lemma_shutdown_is_final(SchedulerState::Draining, events);
}

/// A pass is started by the end of a pause and by nothing else.
pub proof fn lemma_cycle_follows_pause(state: SchedulerState, event: SchedulerEvent)
    requires
        state.starts_cycle(event),
    ensures
        state == SchedulerState::Waiting,
        event == SchedulerEvent::DelayElapsed,
{
}

} // verus!
