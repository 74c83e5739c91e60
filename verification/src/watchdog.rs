//! The whole watchdog as one machine.
//!
//! [`Watchdog`] joins the outer loop, the retry controller and the attempt in
//! flight. The caller performs each [`Command`], on the transaction flow, the
//! chain endpoint or the clock, and hands back what came of it as an
//! [`Event`]; the metrics of each [`Reaction`] go to the metrics sink. The
//! machine never waits and never calls out, so a shutdown can be delivered
//! while any command is outstanding.

use crate::attempt::{
    attempt_transition, lemma_attempt_advances, saturating_sum, AttemptEvent, AttemptModel,
    AttemptNext, AttemptPhase, AttemptStep, AttemptTransition, FlowCall, ProbeAttempt,
    ProbeRequest, Receipt, PROBE_VALUE,
};
use crate::cycle::{
    cycle_start, cycle_transition, lemma_transition_keeps_valid, CycleModel, CycleNext,
    RetryController,
};
use crate::gas::{lemma_schedule_start, lemma_schedule_step};
use crate::metrics::{Metric, Stage};
use crate::policy::{PolicyModel, RetryPolicy};
use crate::schedule::{loop_transition, LoopAction, LoopEvent, LoopState, WatchdogLoop};
use vstd::prelude::*;

verus! {

/// What the caller is to do next.
#[derive(Clone, Copy, Debug, PartialEq, Eq)]
pub enum Command {
    /// Read the account's nonce and the current gas price from the chain
    /// endpoint, for the cycle that starts.
    FetchChainState,
    /// Make this call on the transaction flow.
    Flow(FlowCall),
    /// Sleep for `ms` milliseconds, then report `Wake`.
    Sleep { ms: u64 },
    /// Leave the loop.
    Stop,
}

/// What came of the last command.
#[derive(Clone, Debug, PartialEq, Eq)]
pub enum Event {
    /// The loop was entered, or a sleep has ended.
    Wake,
    /// The endpoint's answer to `FetchChainState`.
    ChainState { nonce: u64, gas_price: u128 },
    /// The endpoint gave no nonce or no gas price.
    ChainStateUnavailable,
    /// The flow's reply to the outstanding call.
    Flow(AttemptEvent),
    /// The process is shutting down.
    Shutdown,
}

/// The machine's answer to an event.
#[derive(Clone, Debug, PartialEq, Eq)]
pub struct Reaction {
    /// To be emitted, in this order, before the command is performed.
    pub metrics: Vec<Metric>,
    pub command: Command,
}

/// An event came that is no answer to the outstanding command.
#[derive(Clone, Copy, Debug, PartialEq, Eq)]
pub struct OutOfTurn {
    pub state: LoopState,
}

/// The cycle that is running and its attempt in flight.
pub struct ProbeModel {
    pub cycle: CycleModel,
    pub attempt: AttemptModel,
}

/// The state of the watchdog.
pub struct WatchdogModel {
    pub policy: PolicyModel,
    pub state: LoopState,
    /// The running cycle, once its nonce and gas price have been fetched.
    pub probe: Option<ProbeModel>,
}

/// What a step does, as the machine's transition function computes it.
pub struct WatchdogTransition {
    pub state: WatchdogModel,
    pub metrics: Seq<Metric>,
    pub command: Command,
}

/// The attempt that starts at `gas_price` with `nonce`.
pub open spec fn fresh_attempt(policy: PolicyModel, gas_price: u128, nonce: u64) -> AttemptModel {
    AttemptModel {
        request: ProbeRequest { value: PROBE_VALUE, gas_price },
        nonce,
        timeout_ms: policy.per_attempt_timeout_ms as u64,
        phase: AttemptPhase::Estimating,
    }
}

/// The command that carries out an action of the outer loop. Starting a
/// cycle begins with fetching the nonce and the gas price.
pub open spec fn command_for(action: LoopAction) -> Command {
    match action {
        LoopAction::StartCycle => Command::FetchChainState,
        LoopAction::Sleep { ms } => Command::Sleep { ms },
        LoopAction::Stop => Command::Stop,
    }
}

/// The command that carries out an action of the outer loop.
pub fn command_of(action: LoopAction) -> (command: Command)
    ensures
        command == command_for(action),
{
    match action {
        LoopAction::StartCycle => Command::FetchChainState,
        LoopAction::Sleep { ms } => Command::Sleep { ms },
        LoopAction::Stop => Command::Stop,
    }
}

impl WatchdogModel {
    /// A cycle is held only while the loop is running; it has not ended, and
    /// its attempt in flight has not ended either and carries the cycle's
    /// nonce, its current gas price and the policy's timeout.
    pub open spec fn valid(self) -> bool {
        &&& self.policy.valid()
        &&& self.policy.representable()
        &&& self.probe matches Some(probe) ==> {
            &&& self.state is Running
            &&& probe.cycle.valid()
            &&& probe.cycle.policy == self.policy
            &&& probe.cycle.outcome is None
            &&& !(probe.attempt.phase is Done)
            &&& probe.attempt == (AttemptModel {
                phase: probe.attempt.phase,
                ..fresh_attempt(self.policy, probe.cycle.gas_price as u128, probe.cycle.nonce)
            })
        }
    }

    /// The state of a watchdog that has not been entered yet.
    pub open spec fn initial(policy: PolicyModel) -> WatchdogModel {
        WatchdogModel { policy, state: LoopState::Idle, probe: None }
    }
}

/// What follows an accepted reply of the flow. While the attempt goes on, its
/// next call. When the attempt has ended, the controller judges the result:
/// it starts the next attempt, or ends the cycle, and the outer loop then
/// decides between a sleep and the next cycle.
pub open spec fn after_flow_reply(
    state: WatchdogModel,
    probe: ProbeModel,
    stepped: AttemptTransition,
) -> WatchdogTransition {
    match stepped.next {
        AttemptNext::Call(call) => WatchdogTransition {
            state: WatchdogModel {
                probe: Some(
                    ProbeModel {
                        attempt: AttemptModel { phase: stepped.phase, ..probe.attempt },
                        ..probe
                    },
                ),
                ..state
            },
            metrics: stepped.metrics,
            command: Command::Flow(call),
        },
        AttemptNext::Done(result) => {
            let judged = cycle_transition(probe.cycle, result);
            match judged.next {
                CycleNext::Attempt { gas_price, nonce } => WatchdogTransition {
                    state: WatchdogModel {
                        probe: Some(
                            ProbeModel {
                                cycle: judged.state,
                                attempt: fresh_attempt(state.policy, gas_price, nonce),
                            },
                        ),
                        ..state
                    },
                    metrics: stepped.metrics + judged.metrics,
                    command: Command::Flow(
                        FlowCall::EstimateGas {
                            request: ProbeRequest { value: PROBE_VALUE, gas_price },
                            nonce,
                        },
                    ),
                },
                CycleNext::Done(outcome) => {
                    let scheduled = loop_transition(
                        state.policy,
                        LoopState::Running,
                        LoopEvent::Outcome(outcome),
                    )->Some_0;
                    WatchdogTransition {
                        state: WatchdogModel { state: scheduled.state, probe: None, ..state },
                        metrics: stepped.metrics + judged.metrics + scheduled.metrics,
                        command: command_for(scheduled.action),
                    }
                },
            }
        },
    }
}

/// The transition function, or `None` where the event is no answer to the
/// outstanding command. A shutdown stops the machine from any state, and a
/// stopped machine answers everything with `Stop`. An endpoint that gives no
/// nonce or gas price is asked again at once, as after an exhausted cycle.
pub open spec fn watchdog_transition(state: WatchdogModel, event: Event) -> Option<
    WatchdogTransition,
> {
    if state.state is Stopped || event is Shutdown {
        Some(
            WatchdogTransition {
                state: WatchdogModel { state: LoopState::Stopped, probe: None, ..state },
                metrics: seq![],
                command: Command::Stop,
            },
        )
    } else {
        match (event, state.state, state.probe) {
            (Event::Wake, LoopState::Idle, None) => Some(
                WatchdogTransition {
                    state: WatchdogModel { state: LoopState::Running, ..state },
                    metrics: seq![],
                    command: Command::FetchChainState,
                },
            ),
            (Event::ChainState { nonce, gas_price }, LoopState::Running, None) => {
                let cycle = cycle_start(state.policy, nonce, gas_price as nat);
                let first = cycle.gas_price as u128;
                Some(
                    WatchdogTransition {
                        state: WatchdogModel {
                            probe: Some(
                                ProbeModel {
                                    cycle,
                                    attempt: fresh_attempt(state.policy, first, nonce),
                                },
                            ),
                            ..state
                        },
                        metrics: seq![Metric::Nonce(nonce), Metric::GasPrice(first)],
                        command: Command::Flow(
                            FlowCall::EstimateGas {
                                request: ProbeRequest { value: PROBE_VALUE, gas_price: first },
                                nonce,
                            },
                        ),
                    },
                )
            },
            (Event::ChainStateUnavailable, LoopState::Running, None) => Some(
                WatchdogTransition {
                    state,
                    metrics: seq![Metric::SendStatus(false)],
                    command: Command::FetchChainState,
                },
            ),
            (Event::Flow(reply), LoopState::Running, Some(probe)) => match attempt_transition(
                probe.attempt,
                reply,
            ) {
                Some(stepped) => Some(after_flow_reply(state, probe, stepped)),
                None => None,
            },
            _ => None,
        }
    }
}

/// The watchdog: outer loop, retry controller and attempt in one machine.
#[derive(Clone, Copy, Debug, PartialEq, Eq)]
pub struct Watchdog {
    scheduler: WatchdogLoop,
    probe: Option<(RetryController, ProbeAttempt)>,
}

impl View for Watchdog {
    type V = WatchdogModel;

    closed spec fn view(&self) -> WatchdogModel {
        WatchdogModel {
            policy: self.scheduler@.policy,
            state: self.scheduler@.state,
            probe: match self.probe {
                Some((controller, attempt)) => Some(
                    ProbeModel { cycle: controller@, attempt: attempt@ },
                ),
                None => None,
            },
        }
    }
}

impl Watchdog {
    /// What holds of every watchdog.
    #[verifier::type_invariant]
    pub open spec fn well_formed(&self) -> bool {
        self@.valid()
    }

    /// A watchdog that has not been entered yet. Its first event is `Wake`.
    pub fn new(policy: RetryPolicy) -> (made: Watchdog)
        ensures
            made.well_formed(),
            made@ == WatchdogModel::initial(policy@),
    {
        proof {
            use_type_invariant(&policy);
        }
        Watchdog { scheduler: WatchdogLoop::new(policy), probe: None }
    }

    /// Where the outer loop stands.
    pub fn state(&self) -> (state: LoopState)
        ensures
            state == self@.state,
    {
        self.scheduler.state()
    }

    /// How many attempts the running cycle has started, if a cycle is running
    /// and has fetched its nonce and gas price.
    pub fn attempts(&self) -> (count: Option<u32>)
        ensures
            match self@.probe {
                Some(probe) => count == Some(probe.cycle.attempts as u32),
                None => count is None,
            },
    {
        match &self.probe {
            Some((controller, _)) => Some(controller.attempts()),
            None => None,
        }
    }

    /// Takes what came of the last command and answers with the next one. An
    /// event that is no answer to the outstanding command is refused and
    /// changes nothing.
    pub fn step(&mut self, event: Event) -> (answer: Result<Reaction, OutOfTurn>)
        ensures
            match watchdog_transition(old(self)@, event) {
                Some(transition) => {
                    &&& answer is Ok
                    &&& answer->Ok_0.metrics@ == transition.metrics
                    &&& answer->Ok_0.command == transition.command
                    &&& final(self)@ == transition.state
                },
                None => {
                    &&& answer == Err::<Reaction, OutOfTurn>(OutOfTurn { state: old(self)@.state })
                    &&& final(self)@ == old(self)@
                },
            },
    {
        proof {
            use_type_invariant(&*self);
        }
        let mut scheduler = self.scheduler;
        let state = scheduler.state();
        let policy = scheduler.policy();
        proof {
            use_type_invariant(&policy);
        }
        match (event, state, self.probe) {
            (Event::Shutdown, _, _) | (_, LoopState::Stopped, _) => {
                let _ = scheduler.step(LoopEvent::Shutdown);
                *self = Watchdog { scheduler, probe: None };
                Ok(Reaction { metrics: vec![], command: Command::Stop })
            },
            (Event::Wake, LoopState::Idle, None) => {
                let _ = scheduler.step(LoopEvent::Wake);
                *self = Watchdog { scheduler, probe: None };
                Ok(Reaction { metrics: vec![], command: Command::FetchChainState })
            },
            (Event::ChainState { nonce, gas_price }, LoopState::Running, None) => {
                let (controller, begun) = RetryController::start(policy, nonce, gas_price);
                let (attempt, call) = ProbeAttempt::start(&policy, controller.gas_price(), nonce);
                *self = Watchdog { scheduler, probe: Some((controller, attempt)) };
                Ok(Reaction { metrics: begun.metrics, command: Command::Flow(call) })
            },
            (Event::ChainStateUnavailable, LoopState::Running, None) => {
                Ok(
                    Reaction {
                        metrics: vec![Metric::SendStatus(false)],
                        command: Command::FetchChainState,
                    },
                )
            },
            (Event::Flow(reply), LoopState::Running, Some((controller, attempt))) => {
                let mut attempt = attempt;
                match attempt.step(reply) {
                    Ok(stepped) => Ok(self.follow_up(controller, attempt, stepped)),
                    Err(_) => Err(OutOfTurn { state }),
                }
            },
            _ => Err(OutOfTurn { state }),
        }
    }

    /// Carries on after the attempt in flight accepted a reply: `attempt` is
    /// the attempt after its step, `stepped` what the step answered.
    fn follow_up(
        &mut self,
        controller: RetryController,
        attempt: ProbeAttempt,
        stepped: AttemptStep,
    ) -> (reaction: Reaction)
        requires
            old(self)@.state is Running,
            old(self)@.probe is Some,
            old(self)@.probe->Some_0.cycle == controller@,
            attempt@ == (AttemptModel {
                phase: attempt@.phase,
                ..old(self)@.probe->Some_0.attempt
            }),
            stepped.next is Call ==> !(attempt@.phase is Done),
        ensures
            ({
                let transition = after_flow_reply(
                    old(self)@,
                    old(self)@.probe->Some_0,
                    AttemptTransition {
                        phase: attempt@.phase,
                        metrics: stepped.metrics@,
                        next: stepped.next,
                    },
                );
                &&& reaction.metrics@ == transition.metrics
                &&& reaction.command == transition.command
                &&& final(self)@ == transition.state
            }),
    {
        proof {
            use_type_invariant(&*self);
            use_type_invariant(&controller);
        }
        let mut scheduler = self.scheduler;
        let policy = scheduler.policy();
        proof {
            use_type_invariant(&policy);
        }
        let mut metrics = stepped.metrics;
        match stepped.next {
            AttemptNext::Call(call) => {
                *self = Watchdog { scheduler, probe: Some((controller, attempt)) };
                Reaction { metrics, command: Command::Flow(call) }
            },
            AttemptNext::Done(result) => {
                let mut controller = controller;
                let mut judged = controller.on_result(&result);
                proof {
                    use_type_invariant(&controller);
                }
                metrics.append(&mut judged.metrics);
                match judged.next {
                    CycleNext::Attempt { gas_price, nonce } => {
                        let (next_attempt, call) = ProbeAttempt::start(&policy, gas_price, nonce);
                        *self = Watchdog { scheduler, probe: Some((controller, next_attempt)) };
                        Reaction { metrics, command: Command::Flow(call) }
                    },
                    CycleNext::Done(outcome) => {
                        let scheduled = scheduler.step(LoopEvent::Outcome(outcome));
                        *self = Watchdog { scheduler, probe: None };
                        let command = match scheduled {
                            Ok(mut turn) => {
                                metrics.append(&mut turn.metrics);
                                command_of(turn.action)
                            },
                            // A running loop takes every outcome.
                            Err(_) => Command::Stop,
                        };
                        Reaction { metrics, command }
                    },
                }
            },
        }
    }
}

/// Every step of the watchdog keeps its state valid.
pub proof fn lemma_watchdog_stays_valid(state: WatchdogModel, event: Event)
    requires
        state.valid(),
        watchdog_transition(state, event) is Some,
    ensures
        watchdog_transition(state, event)->Some_0.state.valid(),
{
    if !(state.state is Stopped || event is Shutdown) {
        match (event, state.state, state.probe) {
            (Event::ChainState { nonce, gas_price }, LoopState::Running, None) => {
                lemma_schedule_start(
                    gas_price as nat,
                    state.policy.gas_scale_factor,
                    state.policy.gas_price_cap,
                );
            },
            (Event::Flow(reply), LoopState::Running, Some(probe)) => {
                let stepped = attempt_transition(probe.attempt, reply)->Some_0;
                lemma_attempt_advances(probe.attempt, reply);
                if let AttemptNext::Done(result) = stepped.next {
                    lemma_transition_keeps_valid(probe.cycle, result);
                }
            },
            _ => {},
        }
    }
}

/// When the wait for a receipt times out, the watchdog does not go back to
/// waiting. While attempts are left it starts the next one at once, with the
/// same nonce and the next price of the schedule; after the last attempt it
/// starts the next cycle at once.
pub proof fn lemma_timeout_moves_on(state: WatchdogModel)
    requires
        state.valid(),
        state.probe is Some,
        state.probe->Some_0.attempt.phase is Awaiting,
    ensures
        ({
            let cycle = state.probe->Some_0.cycle;
            let moved = watchdog_transition(state, Event::Flow(AttemptEvent::WaitTimedOut));
            &&& moved is Some
            &&& if cycle.attempts < state.policy.max_attempts {
                &&& moved->Some_0.command == Command::Flow(
                    FlowCall::EstimateGas {
                        request: ProbeRequest {
                            value: PROBE_VALUE,
                            gas_price: cycle.price_at(cycle.attempts) as u128,
                        },
                        nonce: cycle.nonce,
                    },
                )
                &&& moved->Some_0.state.probe is Some
                &&& moved->Some_0.state.probe->Some_0.cycle.attempts == cycle.attempts + 1
            } else {
                &&& moved->Some_0.command == Command::FetchChainState
                &&& moved->Some_0.state.probe is None
                &&& moved->Some_0.state.state is Running
            }
        }),
{
    let cycle = state.probe->Some_0.cycle;
    if cycle.attempts < state.policy.max_attempts {
        lemma_schedule_step(
            cycle.initial_gas_price,
            cycle.policy.gas_scale_factor,
            cycle.policy.gas_price_cap,
            (cycle.attempts - 1) as nat,
        );
    }
}

/// A receipt ends the cycle whatever its status on chain: no further call on
/// the flow follows, the receipt's figures and the total latency are
/// reported, the liveness counter is stepped exactly once, and the watchdog
/// sleeps for the policy's period.
pub proof fn lemma_receipt_ends_the_cycle(state: WatchdogModel, receipt: Receipt, elapsed_ms: u64)
    requires
        state.valid(),
        state.probe is Some,
        state.probe->Some_0.attempt.phase is Awaiting,
    ensures
        ({
            let ended = watchdog_transition(
                state,
                Event::Flow(AttemptEvent::ReceiptArrived { receipt, elapsed_ms }),
            );
            let sent_in = state.probe->Some_0.attempt.phase->send_elapsed_ms;
            &&& ended is Some
            &&& ended->Some_0.command == Command::Sleep { ms: state.policy.cycle_period_ms as u64 }
            &&& ended->Some_0.state.state is Idle
            &&& ended->Some_0.state.probe is None
            &&& ended->Some_0.metrics =~= seq![
                Metric::Latency { stage: Stage::Mempool, ms: elapsed_ms },
                Metric::GasUsed(receipt.gas_used),
                Metric::TxStatus(receipt.success),
                Metric::TotalLatency(saturating_sum(sent_in, elapsed_ms)),
                Metric::Liveness,
            ]
        }),
{
}

/// The watchdog sleeps only after an included attempt, and then for exactly
/// the policy's period; the liveness counter is stepped on those steps and on
/// no others. In particular nothing is slept, and nothing counted, between a
/// cycle that exhausted its attempts and the cycle after it.
pub proof fn lemma_sleep_only_after_inclusion(state: WatchdogModel, event: Event)
    requires
        state.valid(),
        watchdog_transition(state, event) is Some,
    ensures
        ({
            let step = watchdog_transition(state, event)->Some_0;
            let included = event matches Event::Flow(AttemptEvent::ReceiptArrived { .. })
                && !(state.state is Stopped);
            &&& included <==> step.command is Sleep
            &&& included <==> step.metrics.contains(Metric::Liveness)
            &&& step.command is Sleep ==> step.command == Command::Sleep {
                ms: state.policy.cycle_period_ms as u64,
            }
        }),
{
    let step = watchdog_transition(state, event)->Some_0;
    if !(state.state is Stopped || event is Shutdown) {
        match (event, state.state, state.probe) {
            (Event::Flow(reply), LoopState::Running, Some(probe)) => {
                let stepped = attempt_transition(probe.attempt, reply)->Some_0;
                match stepped.next {
                    AttemptNext::Call(_) => {
                        assert(!stepped.metrics.contains(Metric::Liveness));
                    },
                    AttemptNext::Done(result) => {
                        let judged = cycle_transition(probe.cycle, result);
                        assert(!stepped.metrics.contains(Metric::Liveness));
                        assert(!judged.metrics.contains(Metric::Liveness));
                        match judged.next {
                            CycleNext::Attempt { .. } => {
                                assert(!(stepped.metrics + judged.metrics).contains(
                                    Metric::Liveness,
                                ));
                            },
                            CycleNext::Done(outcome) => {
                                let scheduled = loop_transition(
                                    state.policy,
                                    LoopState::Running,
                                    LoopEvent::Outcome(outcome),
                                )->Some_0;
                                if outcome is Succeeded {
                                    assert(step.metrics[step.metrics.len() - 1]
                                        == Metric::Liveness);
                                } else {
                                    assert(!step.metrics.contains(Metric::Liveness));
                                }
                            },
                        }
                    },
                }
            },
            _ => {
                assert(!step.metrics.contains(Metric::Liveness));
            },
        }
    } else {
        assert(!step.metrics.contains(Metric::Liveness));
    }
}

/// A shutdown is taken in every state, whatever command is outstanding: it
/// stops the watchdog, which from then on answers every event with `Stop`.
pub proof fn lemma_shutdown_always_stops(state: WatchdogModel, event: Event)
    requires
        event is Shutdown || state.state is Stopped,
    ensures
        watchdog_transition(state, event) == Some(
            WatchdogTransition {
                state: WatchdogModel { state: LoopState::Stopped, probe: None, ..state },
                metrics: seq![],
                command: Command::Stop,
            },
        ),
{
}

/// The state of a watchdog after the given events, taken in order from
/// `state`; `None` where one of them is refused.
pub open spec fn watchdog_after(state: WatchdogModel, events: Seq<Event>) -> Option<WatchdogModel>
    decreases events.len(),
{
    if events.len() == 0 {
        Some(state)
    } else {
        match watchdog_after(state, events.drop_last()) {
            Some(before) => match watchdog_transition(before, events.last()) {
                Some(transition) => Some(transition.state),
                None => None,
            },
            None => None,
        }
    }
}

/// Whatever the flow, the endpoint and the clock reply, the watchdog stays
/// within its policy: in every state that it reaches from its start, a
/// running cycle has started at least one attempt and no more than
/// `max_attempts`, and the attempt in flight carries the cycle's nonce, the
/// scheduled gas price of its turn and the policy's timeout.
pub proof fn lemma_reachable_states_are_valid(policy: PolicyModel, events: Seq<Event>)
    requires
        policy.valid(),
        policy.representable(),
        watchdog_after(WatchdogModel::initial(policy), events) is Some,
    ensures
        watchdog_after(WatchdogModel::initial(policy), events)->Some_0.valid(),
        watchdog_after(WatchdogModel::initial(policy), events)->Some_0.policy == policy,
    decreases events.len(),
{
    if events.len() > 0 {
        let start = WatchdogModel::initial(policy);
        lemma_reachable_states_are_valid(policy, events.drop_last());
        let before = watchdog_after(start, events.drop_last())->Some_0;
        lemma_watchdog_stays_valid(before, events.last());
    }
}

} // verus!
