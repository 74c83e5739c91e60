//! One watchdog cycle: attempts with an escalating gas price, up to a bound.
//!
//! [`RetryController`] starts the first attempt with the nonce and gas price
//! that were fetched for the cycle, takes each attempt's result, and either
//! starts the next attempt at a higher price or ends the cycle.

use crate::attempt::AttemptResult;
use crate::gas::{
    capped, escalate, escalated, lemma_schedule_start, lemma_schedule_step, scheduled_gas_price,
};
use crate::metrics::Metric;
use crate::policy::{PolicyModel, RetryPolicy};
use vstd::prelude::*;

verus! {

/// How a cycle ended.
#[derive(Clone, Copy, Debug, PartialEq, Eq)]
pub enum CycleOutcome {
    /// An attempt was included. `chain_status` is the receipt's status on
    /// chain, which is reported and does not make the cycle fail.
    Succeeded { total_elapsed_ms: u64, gas_used: u64, chain_status: bool },
    /// Every one of the `attempts` attempts failed.
    Exhausted { attempts: u32 },
}

/// What follows a result: the next attempt, or the end of the cycle.
#[derive(Clone, Copy, Debug, PartialEq, Eq)]
pub enum CycleNext {
    /// Start an attempt at this gas price, with the cycle's nonce.
    Attempt { gas_price: u128, nonce: u64 },
    Done(CycleOutcome),
}

/// The controller's answer.
#[derive(Clone, Debug, PartialEq, Eq)]
pub struct CycleStep {
    /// To be emitted, in this order, before anything else is done.
    pub metrics: Vec<Metric>,
    pub next: CycleNext,
}

/// The state of a cycle.
pub struct CycleModel {
    pub policy: PolicyModel,
    /// The nonce fetched at the start; every attempt of the cycle uses it.
    pub nonce: u64,
    /// The gas price fetched at the start.
    pub initial_gas_price: nat,
    /// How many attempts were started.
    pub attempts: nat,
    /// The gas price of the attempt started last.
    pub gas_price: nat,
    /// The outcome, once the cycle has ended.
    pub outcome: Option<CycleOutcome>,
}

/// What a step does, as the controller's transition function computes it.
pub struct CycleTransition {
    pub state: CycleModel,
    pub metrics: Seq<Metric>,
    pub next: CycleNext,
}

impl CycleModel {
    /// The gas price that the schedule gives for attempt `attempt`, counted
    /// from zero.
    pub open spec fn price_at(self, attempt: nat) -> nat {
        scheduled_gas_price(
            self.initial_gas_price,
            self.policy.gas_scale_factor,
            self.policy.gas_price_cap,
            attempt,
        )
    }

    /// Between one and `max_attempts` attempts were started, the last of them
    /// at the scheduled price, and a cycle ends exhausted only after all of them.
    pub open spec fn valid(self) -> bool {
        &&& self.policy.valid()
        &&& self.policy.representable()
        &&& 1 <= self.attempts <= self.policy.max_attempts
        &&& self.gas_price == self.price_at((self.attempts - 1) as nat)
        &&& self.outcome matches Some(CycleOutcome::Exhausted { attempts }) ==> attempts
            == self.attempts == self.policy.max_attempts
    }
}

/// The state in which a cycle starts its first attempt.
pub open spec fn cycle_start(
    policy: PolicyModel,
    nonce: u64,
    initial_gas_price: nat,
) -> CycleModel {
    CycleModel {
        policy,
        nonce,
        initial_gas_price,
        attempts: 1,
        gas_price: capped(initial_gas_price, policy.gas_price_cap),
        outcome: None,
    }
}

/// The transition function: what the result of the attempt in flight does.
/// An included attempt ends the cycle in success, whatever its status on
/// chain. Any other result starts the next attempt at the escalated price, or
/// ends the cycle as exhausted where no attempt is left. A cycle that has
/// ended stays as it is.
pub open spec fn cycle_transition(state: CycleModel, result: AttemptResult) -> CycleTransition {
    match state.outcome {
        Some(outcome) => CycleTransition { state, metrics: seq![], next: CycleNext::Done(outcome) },
        None => match result {
            AttemptResult::Included { gas_used, success, elapsed_ms } => {
                let outcome = CycleOutcome::Succeeded {
                    total_elapsed_ms: elapsed_ms,
                    gas_used,
                    chain_status: success,
                };
                CycleTransition {
                    state: CycleModel { outcome: Some(outcome), ..state },
                    metrics: seq![Metric::TotalLatency(elapsed_ms)],
                    next: CycleNext::Done(outcome),
                }
            },
            _ => if state.attempts >= state.policy.max_attempts {
                let outcome = CycleOutcome::Exhausted { attempts: state.attempts as u32 };
                CycleTransition {
                    state: CycleModel { outcome: Some(outcome), ..state },
                    metrics: seq![],
                    next: CycleNext::Done(outcome),
                }
            } else {
                let gas_price = escalated(
                    state.gas_price,
                    state.policy.gas_scale_factor,
                    state.policy.gas_price_cap,
                );
                CycleTransition {
                    state: CycleModel { attempts: state.attempts + 1, gas_price, ..state },
                    metrics: seq![Metric::GasPrice(gas_price as u128)],
                    next: CycleNext::Attempt { gas_price: gas_price as u128, nonce: state.nonce },
                }
            },
        },
    }
}

/// The state of a cycle after the given results, taken in order from `state`.
pub open spec fn cycle_after(state: CycleModel, results: Seq<AttemptResult>) -> CycleModel
    decreases results.len(),
{
    if results.len() == 0 {
        state
    } else {
        cycle_transition(cycle_after(state, results.drop_last()), results.last()).state
    }
}

/// Drives the attempts of one cycle.
#[derive(Clone, Copy, Debug, PartialEq, Eq)]
pub struct RetryController {
    policy: RetryPolicy,
    nonce: u64,
    initial_gas_price: u128,
    attempts: u32,
    gas_price: u128,
    outcome: Option<CycleOutcome>,
}

impl View for RetryController {
    type V = CycleModel;

    closed spec fn view(&self) -> CycleModel {
        CycleModel {
            policy: self.policy@,
            nonce: self.nonce,
            initial_gas_price: self.initial_gas_price as nat,
            attempts: self.attempts as nat,
            gas_price: self.gas_price as nat,
            outcome: self.outcome,
        }
    }
}

impl RetryController {
    /// What holds of every controller.
    #[verifier::type_invariant]
    pub open spec fn well_formed(&self) -> bool {
        self@.valid()
    }

    /// Starts a cycle with the nonce and gas price just fetched from the
    /// chain. The answer asks for the first attempt, at the fetched price or
    /// at the cap where the price exceeds it.
    pub fn start(policy: RetryPolicy, nonce: u64, gas_price: u128) -> (begun: (
        RetryController,
        CycleStep,
    ))
        ensures
            begun.0.well_formed(),
            begun.0@ == cycle_start(policy@, nonce, gas_price as nat),
            begun.1.metrics@ == seq![
                Metric::Nonce(nonce),
                Metric::GasPrice(begun.0@.gas_price as u128),
            ],
            begun.1.next == (CycleNext::Attempt { gas_price: begun.0@.gas_price as u128, nonce }),
    {
        let cap = policy.gas_price_cap();
        let first = if gas_price <= cap {
            gas_price
        } else {
            cap
        };
        proof {
            use_type_invariant(&policy);
            lemma_schedule_start(
                gas_price as nat,
                policy@.gas_scale_factor,
                policy@.gas_price_cap,
            );
        }
        let controller = RetryController {
            policy,
            nonce,
            initial_gas_price: gas_price,
            attempts: 1,
            gas_price: first,
            outcome: None,
        };
        let step = CycleStep {
            metrics: vec![Metric::Nonce(nonce), Metric::GasPrice(first)],
            next: CycleNext::Attempt { gas_price: first, nonce },
        };
        (controller, step)
    }

    /// Takes the result of the attempt in flight.
    pub fn on_result(&mut self, result: &AttemptResult) -> (answer: CycleStep)
        ensures
            final(self)@ == cycle_transition(old(self)@, *result).state,
            answer.metrics@ == cycle_transition(old(self)@, *result).metrics,
            answer.next == cycle_transition(old(self)@, *result).next,
    {
        proof {
            use_type_invariant(&*self);
        }
        if let Some(outcome) = self.outcome {
            return CycleStep { metrics: vec![], next: CycleNext::Done(outcome) };
        }
        match result {
            AttemptResult::Included { gas_used, success, elapsed_ms } => {
                let outcome = CycleOutcome::Succeeded {
                    total_elapsed_ms: *elapsed_ms,
                    gas_used: *gas_used,
                    chain_status: *success,
                };
                self.outcome = Some(outcome);
                CycleStep {
                    metrics: vec![Metric::TotalLatency(*elapsed_ms)],
                    next: CycleNext::Done(outcome),
                }
            },
            _ => {
                if self.attempts >= self.policy.max_attempts() {
                    let outcome = CycleOutcome::Exhausted { attempts: self.attempts };
                    self.outcome = Some(outcome);
                    CycleStep { metrics: vec![], next: CycleNext::Done(outcome) }
                } else {
                    let gas_price = escalate(
                        self.gas_price,
                        self.policy.gas_scale_factor(),
                        self.policy.gas_price_cap(),
                    );
                    proof {
                        lemma_schedule_step(
                            self@.initial_gas_price,
                            self@.policy.gas_scale_factor,
                            self@.policy.gas_price_cap,
                            (self@.attempts - 1) as nat,
                        );
                    }
                    *self = RetryController {
                        policy: self.policy,
                        nonce: self.nonce,
                        initial_gas_price: self.initial_gas_price,
                        attempts: self.attempts + 1,
                        gas_price,
                        outcome: None,
                    };
                    CycleStep {
                        metrics: vec![Metric::GasPrice(gas_price)],
                        next: CycleNext::Attempt { gas_price, nonce: self.nonce },
                    }
                }
            },
        }
    }

    /// How many attempts the cycle has started.
    pub fn attempts(&self) -> (count: u32)
        ensures
            count == self@.attempts,
            1 <= count <= self@.policy.max_attempts,
    {
        proof {
            use_type_invariant(self);
        }
        self.attempts
    }

    /// The gas price of the attempt started last: the scheduled price of
    /// that attempt.
    pub fn gas_price(&self) -> (price: u128)
        ensures
            price == self@.gas_price,
            price == self@.price_at((self@.attempts - 1) as nat),
    {
        proof {
            use_type_invariant(self);
        }
        self.gas_price
    }

    /// The nonce that every attempt of the cycle uses.
    pub fn nonce(&self) -> (nonce: u64)
        ensures
            nonce == self@.nonce,
    {
        self.nonce
    }

    /// The outcome, once the cycle has ended.
    pub fn outcome(&self) -> (outcome: Option<CycleOutcome>)
        ensures
            outcome == self@.outcome,
    {
        self.outcome
    }
}

/// Feeding one more result is one transition from the state after the
/// results before it.
proof fn lemma_after_one_more(state: CycleModel, results: Seq<AttemptResult>, n: int)
    requires
        0 <= n < results.len(),
    ensures
        cycle_after(state, results.take(n + 1)) == cycle_transition(
            cycle_after(state, results.take(n)),
            results[n],
        ).state,
{
    assert(results.take(n + 1).drop_last() =~= results.take(n));
}

/// A cycle that has ended ignores every further result.
proof fn lemma_ended_cycle_stays(state: CycleModel, results: Seq<AttemptResult>, n: int, m: int)
    requires
        0 <= n <= m <= results.len(),
        cycle_after(state, results.take(n)).outcome is Some,
    ensures
        cycle_after(state, results.take(m)) == cycle_after(state, results.take(n)),
    decreases m - n,
{
    if n < m {
        lemma_ended_cycle_stays(state, results, n, m - 1);
        lemma_after_one_more(state, results, m - 1);
    }
}

/// While attempts fail and attempts are left, the cycle goes on along the
/// gas price schedule: after `n` failed attempts, with `n` below the policy's
/// bound, attempt `n` (counted from zero) is in flight, at
/// `min(initial * factor^n, cap)`, with the nonce of the start.
pub proof fn lemma_failed_attempts_follow_schedule(
    policy: PolicyModel,
    nonce: u64,
    initial_gas_price: nat,
    results: Seq<AttemptResult>,
)
    requires
        policy.valid(),
        results.len() < policy.max_attempts,
        forall|j: int| 0 <= j < results.len() ==> !(#[trigger] results[j] is Included),
    ensures
        ({
            let reached = cycle_after(cycle_start(policy, nonce, initial_gas_price), results);
            &&& reached.attempts == results.len() + 1
            &&& reached.outcome is None
            &&& reached.gas_price == scheduled_gas_price(
                initial_gas_price,
                policy.gas_scale_factor,
                policy.gas_price_cap,
                results.len(),
            )
            &&& reached.policy == policy
            &&& reached.nonce == nonce
            &&& reached.initial_gas_price == initial_gas_price
        }),
    decreases results.len(),
{
    if results.len() == 0 {
        lemma_schedule_start(initial_gas_price, policy.gas_scale_factor, policy.gas_price_cap);
    } else {
        let before = results.drop_last();
        lemma_failed_attempts_follow_schedule(policy, nonce, initial_gas_price, before);
        assert(!(results[results.len() - 1] is Included));
        lemma_schedule_step(
            initial_gas_price,
            policy.gas_scale_factor,
            policy.gas_price_cap,
            before.len(),
        );
    }
}

/// A cycle stops at the first included attempt. Where the result at index
/// `first`, below the policy's bound, is the first that is included, the
/// cycle ends in success with that result's figures after `first + 1`
/// attempts, and no result that follows starts another attempt.
pub proof fn lemma_cycle_stops_at_first_inclusion(
    policy: PolicyModel,
    nonce: u64,
    initial_gas_price: nat,
    results: Seq<AttemptResult>,
    first: int,
)
    requires
        policy.valid(),
        0 <= first < results.len(),
        first < policy.max_attempts,
        results[first] is Included,
        forall|j: int| 0 <= j < first ==> !(#[trigger] results[j] is Included),
    ensures
        ({
            let ended = cycle_after(cycle_start(policy, nonce, initial_gas_price), results);
            &&& ended.attempts == first + 1
            &&& ended.outcome == Some(
                CycleOutcome::Succeeded {
                    total_elapsed_ms: results[first]->elapsed_ms,
                    gas_used: results[first]->gas_used,
                    chain_status: results[first]->success,
                },
            )
        }),
{
    let start = cycle_start(policy, nonce, initial_gas_price);
    lemma_failed_attempts_follow_schedule(policy, nonce, initial_gas_price, results.take(first));
    lemma_after_one_more(start, results, first);
    lemma_ended_cycle_stays(start, results, first + 1, results.len() as int);
    assert(results.take(results.len() as int) =~= results);
}

/// A cycle in which no attempt is included makes exactly `max_attempts`
/// attempts and ends exhausted, however many results are offered to it.
pub proof fn lemma_cycle_without_inclusion_exhausts(
    policy: PolicyModel,
    nonce: u64,
    initial_gas_price: nat,
    results: Seq<AttemptResult>,
)
    requires
        policy.valid(),
        policy.representable(),
        results.len() >= policy.max_attempts,
        forall|j: int| 0 <= j < results.len() ==> !(#[trigger] results[j] is Included),
    ensures
        ({
            let ended = cycle_after(cycle_start(policy, nonce, initial_gas_price), results);
            &&& ended.attempts == policy.max_attempts
            &&& ended.outcome == Some(
                CycleOutcome::Exhausted { attempts: policy.max_attempts as u32 },
            )
        }),
{
    let start = cycle_start(policy, nonce, initial_gas_price);
    let last = policy.max_attempts - 1;
    lemma_failed_attempts_follow_schedule(policy, nonce, initial_gas_price, results.take(last));
    assert(!(results[last] is Included));
    lemma_after_one_more(start, results, last);
    lemma_ended_cycle_stays(start, results, last + 1, results.len() as int);
    assert(results.take(results.len() as int) =~= results);
}

/// Every result leaves a valid cycle valid, so the attempts never exceed the
/// policy's bound and each is at its scheduled price. A result starts one more
/// attempt or none; it starts none and ends the cycle where it is an
/// inclusion, and it changes nothing where the cycle had ended before.
pub proof fn lemma_transition_keeps_valid(state: CycleModel, result: AttemptResult)
    requires
        state.valid(),
    ensures
        ({
            let transition = cycle_transition(state, result);
            &&& transition.state.valid()
            &&& transition.state.attempts <= state.attempts + 1
            &&& (transition.next is Attempt <==> transition.state.attempts == state.attempts + 1)
            &&& (transition.next is Done <==> transition.state.outcome is Some)
            &&& (result is Included || state.outcome is Some ==> transition.next is Done)
            &&& (state.outcome is Some ==> transition.state == state)
        }),
{
    let goes_on = state.outcome is None && !(result is Included);
    if goes_on && state.attempts < state.policy.max_attempts {
        lemma_schedule_step(
            state.initial_gas_price,
            state.policy.gas_scale_factor,
            state.policy.gas_price_cap,
            (state.attempts - 1) as nat,
        );
    }
}

} // verus!
