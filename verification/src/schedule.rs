//! The outer loop: when the next cycle starts.
//!
//! [`WatchdogLoop`] has two working states. It is idle between cycles and
//! running inside one. A cycle that succeeded is followed by a sleep of the
//! policy's period; a cycle that exhausted its attempts is followed by the
//! next cycle at once. A shutdown stops the loop from any state.

use crate::cycle::CycleOutcome;
use crate::metrics::Metric;
use crate::policy::{PolicyModel, RetryPolicy};
use vstd::prelude::*;

verus! {

/// Where the loop stands.
#[derive(Clone, Copy, Debug, PartialEq, Eq)]
pub enum LoopState {
    /// Waiting to start a cycle.
    Idle,
    /// Inside a cycle.
    Running,
    /// Shut down; nothing more will be started.
    Stopped,
}

/// What happened.
#[derive(Clone, Copy, Debug, PartialEq, Eq)]
pub enum LoopEvent {
    /// The loop was entered, or a sleep has ended.
    Wake,
    /// The cycle that was running has ended.
    Outcome(CycleOutcome),
    /// The process is shutting down.
    Shutdown,
}

/// What the caller is to do next.
#[derive(Clone, Copy, Debug, PartialEq, Eq)]
pub enum LoopAction {
    /// Run a cycle now, then report its outcome.
    StartCycle,
    /// Sleep for `ms` milliseconds, then report `Wake`.
    Sleep { ms: u64 },
    /// Leave the loop.
    Stop,
}

/// The loop's answer to an event.
#[derive(Clone, Debug, PartialEq, Eq)]
pub struct LoopStep {
    /// To be emitted, in this order, before anything else is done.
    pub metrics: Vec<Metric>,
    pub action: LoopAction,
}

/// An event came that the loop's state does not expect.
#[derive(Clone, Copy, Debug, PartialEq, Eq)]
pub struct UnexpectedLoopEvent {
    pub state: LoopState,
}

/// The state of the loop.
pub struct LoopModel {
    pub policy: PolicyModel,
    pub state: LoopState,
}

/// What a step does, as the loop's transition function computes it.
pub struct LoopTransition {
    pub state: LoopState,
    pub metrics: Seq<Metric>,
    pub action: LoopAction,
}

/// How long the caller sleeps before the cycle that follows `action`.
pub open spec fn sleep_before_next_cycle(action: LoopAction) -> nat {
    match action {
        LoopAction::Sleep { ms } => ms as nat,
        _ => 0,
    }
}

/// The transition function, or `None` where the event does not fit the state:
/// an outcome while no cycle runs, a wake-up inside a cycle.
pub open spec fn loop_transition(policy: PolicyModel, state: LoopState, event: LoopEvent) -> Option<
    LoopTransition,
> {
    match (state, event) {
        (LoopState::Stopped, _) | (_, LoopEvent::Shutdown) => Some(
            LoopTransition { state: LoopState::Stopped, metrics: seq![], action: LoopAction::Stop },
        ),
        (LoopState::Idle, LoopEvent::Wake) => Some(
            LoopTransition {
                state: LoopState::Running,
                metrics: seq![],
                action: LoopAction::StartCycle,
            },
        ),
        (LoopState::Running, LoopEvent::Outcome(CycleOutcome::Succeeded { .. })) => Some(
            LoopTransition {
                state: LoopState::Idle,
                metrics: seq![Metric::Liveness],
                action: LoopAction::Sleep { ms: policy.cycle_period_ms as u64 },
            },
        ),
        (LoopState::Running, LoopEvent::Outcome(CycleOutcome::Exhausted { .. })) => Some(
            LoopTransition {
                state: LoopState::Running,
                metrics: seq![],
                action: LoopAction::StartCycle,
            },
        ),
        _ => None,
    }
}

/// Schedules the cycles of one watchdog.
#[derive(Clone, Copy, Debug, PartialEq, Eq)]
pub struct WatchdogLoop {
    policy: RetryPolicy,
    state: LoopState,
}

impl View for WatchdogLoop {
    type V = LoopModel;

    closed spec fn view(&self) -> LoopModel {
        LoopModel { policy: self.policy@, state: self.state }
    }
}

impl WatchdogLoop {
    /// A loop that has not been entered yet.
    pub fn new(policy: RetryPolicy) -> (made: WatchdogLoop)
        ensures
            made@ == (LoopModel { policy: policy@, state: LoopState::Idle }),
    {
        WatchdogLoop { policy, state: LoopState::Idle }
    }

    /// Where the loop stands.
    pub fn state(&self) -> (state: LoopState)
        ensures
            state == self@.state,
    {
        self.state
    }

    /// The policy that the loop was made with.
    pub fn policy(&self) -> (policy: RetryPolicy)
        ensures
            policy@ == self@.policy,
    {
        self.policy
    }

    /// Takes an event. One that does not fit the state is refused and
    /// changes nothing.
    pub fn step(&mut self, event: LoopEvent) -> (answer: Result<LoopStep, UnexpectedLoopEvent>)
        ensures
            final(self)@.policy == old(self)@.policy,
            match loop_transition(old(self)@.policy, old(self)@.state, event) {
                Some(transition) => {
                    &&& answer is Ok
                    &&& answer->Ok_0.metrics@ == transition.metrics
                    &&& answer->Ok_0.action == transition.action
                    &&& final(self)@.state == transition.state
                },
                None => {
                    &&& answer == Err::<LoopStep, UnexpectedLoopEvent>(
                        UnexpectedLoopEvent { state: old(self)@.state },
                    )
                    &&& final(self)@ == old(self)@
                },
            },
    {
        match (self.state, event) {
            (LoopState::Stopped, _) | (_, LoopEvent::Shutdown) => {
                self.state = LoopState::Stopped;
                Ok(LoopStep { metrics: vec![], action: LoopAction::Stop })
            },
            (LoopState::Idle, LoopEvent::Wake) => {
                self.state = LoopState::Running;
                Ok(LoopStep { metrics: vec![], action: LoopAction::StartCycle })
            },
            (LoopState::Running, LoopEvent::Outcome(CycleOutcome::Succeeded { .. })) => {
                self.state = LoopState::Idle;
                Ok(
                    LoopStep {
                        metrics: vec![Metric::Liveness],
                        action: LoopAction::Sleep { ms: self.policy.cycle_period_ms() },
                    },
                )
            },
            (LoopState::Running, LoopEvent::Outcome(CycleOutcome::Exhausted { .. })) => {
                Ok(LoopStep { metrics: vec![], action: LoopAction::StartCycle })
            },
            (state, _) => Err(UnexpectedLoopEvent { state }),
        }
    }
}

/// After a cycle that exhausted its attempts the next cycle starts without
/// any sleep, and the liveness counter stays as it is. After a cycle that
/// succeeded the loop sleeps for exactly the policy's period, having counted
/// one more sign of life, and starts the next cycle when it is woken.
pub proof fn lemma_sleep_follows_outcome(policy: PolicyModel, outcome: CycleOutcome)
    requires
        policy.cycle_period_ms <= u64::MAX,
    ensures
        ({
            let ended = loop_transition(policy, LoopState::Running, LoopEvent::Outcome(outcome));
            &&& ended is Some
            &&& outcome is Exhausted ==> {
                &&& ended->Some_0.action == LoopAction::StartCycle
                &&& ended->Some_0.state == LoopState::Running
                &&& sleep_before_next_cycle(ended->Some_0.action) == 0
                &&& ended->Some_0.metrics == Seq::<Metric>::empty()
            }
            &&& outcome is Succeeded ==> {
                &&& sleep_before_next_cycle(ended->Some_0.action) == policy.cycle_period_ms
                &&& ended->Some_0.action is Sleep
                &&& ended->Some_0.metrics == seq![Metric::Liveness]
                &&& loop_transition(policy, ended->Some_0.state, LoopEvent::Wake) == Some(
                    LoopTransition {
                        state: LoopState::Running,
                        metrics: seq![],
                        action: LoopAction::StartCycle,
                    },
                )
            }
        }),
{
}

/// A loop that was shut down stays stopped and asks for nothing more.
pub proof fn lemma_stopped_loop_stays(policy: PolicyModel, state: LoopState, event: LoopEvent)
    requires
        state is Stopped || event is Shutdown,
    ensures
        loop_transition(policy, state, event) == Some(
            LoopTransition { state: LoopState::Stopped, metrics: seq![], action: LoopAction::Stop },
        ),
{
}

} // verus!
