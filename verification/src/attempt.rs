//! One probe attempt: estimate the gas, submit, wait for inclusion.
//!
//! [`ProbeAttempt`] is a state machine. It names the call that the caller is to
//! make on the transaction flow, takes the reply as an event, and answers with
//! the metrics to emit and either the next call or the attempt's result.

use crate::metrics::{Metric, Stage};
use crate::policy::RetryPolicy;
use vstd::prelude::*;

verus! {

/// The value that a probe transfers, in the chain's smallest unit.
pub const PROBE_VALUE: u64 = 1;

/// The probe: pay [`PROBE_VALUE`] to oneself, at the given gas price.
#[derive(Clone, Copy, Debug, PartialEq, Eq)]
pub struct ProbeRequest {
    pub value: u64,
    pub gas_price: u128,
}

/// What the flow returns for a submitted transaction: its hash.
#[derive(Clone, Copy, Debug, PartialEq, Eq)]
pub struct TxHandle {
    pub hash: [u8; 32],
}

/// The confirmation that a transaction was included in a block.
#[derive(Clone, Copy, Debug, PartialEq, Eq)]
pub struct Receipt {
    pub gas_used: u64,
    pub success: bool,
    pub tx_hash: [u8; 32],
}

/// The ways in which an attempt fails. None of them ends the process.
#[derive(Clone, Copy, Debug, PartialEq, Eq)]
pub enum FailureKind {
    /// The endpoint gave no gas estimate.
    EstimationFailure,
    /// The endpoint refused the transaction, a nonce already used included.
    SubmissionFailure,
    /// No receipt came within the timeout.
    InclusionTimeout,
    /// Asking for the receipt failed.
    ReceiptFetchFailure,
}

/// A failure reported by the flow, with the flow's own words.
#[derive(Clone, Debug, PartialEq, Eq)]
pub struct FlowError {
    pub kind: FailureKind,
    pub message: String,
}

/// How one attempt ended.
#[derive(Clone, Debug, PartialEq, Eq)]
pub enum AttemptResult {
    /// A receipt arrived. `success` is the status on chain; `elapsed_ms` runs
    /// from submission to receipt.
    Included { gas_used: u64, success: bool, elapsed_ms: u64 },
    /// Nothing was submitted: estimation or submission failed.
    SubmitFailed { error: FlowError },
    /// The wait for the receipt was abandoned; the transaction stays outstanding.
    TimedOut,
    /// Asking for the receipt failed.
    ReceiptError { error: FlowError },
}

/// The kind of failure that a result stands for; none for an inclusion,
/// whatever its status on chain.
pub open spec fn failure_of(result: AttemptResult) -> Option<FailureKind> {
    match result {
        AttemptResult::Included { .. } => None,
        AttemptResult::SubmitFailed { error } => Some(error.kind),
        AttemptResult::TimedOut => Some(FailureKind::InclusionTimeout),
        AttemptResult::ReceiptError { error } => Some(error.kind),
    }
}

impl AttemptResult {
    /// The kind of failure that this result stands for, if it is one.
    pub fn failure(&self) -> (kind: Option<FailureKind>)
        ensures
            kind == failure_of(*self),
            kind is None <==> *self is Included,
    {
        match self {
            AttemptResult::Included { .. } => None,
            AttemptResult::SubmitFailed { error } => Some(error.kind),
            AttemptResult::TimedOut => Some(FailureKind::InclusionTimeout),
            AttemptResult::ReceiptError { error } => Some(error.kind),
        }
    }
}

/// A call on the transaction flow that the caller is to make.
#[derive(Clone, Copy, Debug, PartialEq, Eq)]
pub enum FlowCall {
    EstimateGas { request: ProbeRequest, nonce: u64 },
    Submit { request: ProbeRequest, nonce: u64 },
    /// Wait for the receipt, for at most `timeout_ms`.
    AwaitReceipt { handle: TxHandle, timeout_ms: u64 },
}

/// The flow's reply to a call. Each `elapsed_ms` is the time the call took.
#[derive(Clone, Debug, PartialEq, Eq)]
pub enum AttemptEvent {
    Estimated { gas: u64, elapsed_ms: u64 },
    EstimateFailed { message: String, elapsed_ms: u64 },
    Submitted { handle: TxHandle, elapsed_ms: u64 },
    SubmitRejected { message: String, elapsed_ms: u64 },
    ReceiptArrived { receipt: Receipt, elapsed_ms: u64 },
    ReceiptFailed { message: String, elapsed_ms: u64 },
    /// The timeout of the wait ran out.
    WaitTimedOut,
}

/// Where an attempt stands.
#[derive(Clone, Copy, Debug, PartialEq, Eq)]
pub enum AttemptPhase {
    Estimating,
    Submitting,
    /// Submitted as `handle`, which took `send_elapsed_ms`.
    Awaiting { handle: TxHandle, send_elapsed_ms: u64 },
    Done,
}

/// What follows a step: another call, or the end of the attempt.
#[derive(Clone, Debug, PartialEq, Eq)]
pub enum AttemptNext {
    Call(FlowCall),
    Done(AttemptResult),
}

/// The answer to an event.
#[derive(Clone, Debug, PartialEq, Eq)]
pub struct AttemptStep {
    /// To be emitted, in this order, before anything else is done.
    pub metrics: Vec<Metric>,
    pub next: AttemptNext,
}

/// An event came that the attempt's phase does not expect.
#[derive(Clone, Copy, Debug, PartialEq, Eq)]
pub struct UnexpectedEvent {
    pub phase: AttemptPhase,
}

/// The state of an attempt.
pub struct AttemptModel {
    pub request: ProbeRequest,
    pub nonce: u64,
    pub timeout_ms: u64,
    pub phase: AttemptPhase,
}

/// What a step does, as the machine's transition function computes it.
pub struct AttemptTransition {
    pub phase: AttemptPhase,
    pub metrics: Seq<Metric>,
    pub next: AttemptNext,
}

/// `a + b`, or the largest `u64` where the sum exceeds it.
pub open spec fn saturating_sum(a: u64, b: u64) -> u64 {
    if a + b > u64::MAX {
        u64::MAX
    } else {
        (a + b) as u64
    }
}

/// The position of a phase in the order in which an attempt passes through them.
pub open spec fn phase_rank(phase: AttemptPhase) -> nat {
    match phase {
        AttemptPhase::Estimating => 0,
        AttemptPhase::Submitting => 1,
        AttemptPhase::Awaiting { .. } => 2,
        AttemptPhase::Done => 3,
    }
}

/// The call that is outstanding in a state, if the attempt has not ended.
pub open spec fn pending_call(state: AttemptModel) -> Option<FlowCall> {
    match state.phase {
        AttemptPhase::Estimating => Some(
            FlowCall::EstimateGas { request: state.request, nonce: state.nonce },
        ),
        AttemptPhase::Submitting => Some(
            FlowCall::Submit { request: state.request, nonce: state.nonce },
        ),
        AttemptPhase::Awaiting { handle, .. } => Some(
            FlowCall::AwaitReceipt { handle, timeout_ms: state.timeout_ms },
        ),
        AttemptPhase::Done => None,
    }
}

/// The transition function: what `event` does in `state`, or `None` where the
/// event is no reply to the call that is outstanding.
pub open spec fn attempt_transition(state: AttemptModel, event: AttemptEvent) -> Option<
    AttemptTransition,
> {
    match (state.phase, event) {
        (AttemptPhase::Estimating, AttemptEvent::Estimated { gas, elapsed_ms }) => Some(
            AttemptTransition {
                phase: AttemptPhase::Submitting,
                metrics: seq![
                    Metric::GasEstimate(gas),
                    Metric::Latency { stage: Stage::EstimateGas, ms: elapsed_ms },
                ],
                next: AttemptNext::Call(
                    FlowCall::Submit { request: state.request, nonce: state.nonce },
                ),
            },
        ),
        (AttemptPhase::Estimating, AttemptEvent::EstimateFailed { message, elapsed_ms }) => Some(
            AttemptTransition {
                phase: AttemptPhase::Done,
                metrics: seq![
                    Metric::Latency { stage: Stage::EstimateGas, ms: elapsed_ms },
                    Metric::SendStatus(false),
                ],
                next: AttemptNext::Done(
                    AttemptResult::SubmitFailed {
                        error: FlowError { kind: FailureKind::EstimationFailure, message },
                    },
                ),
            },
        ),
        (AttemptPhase::Submitting, AttemptEvent::Submitted { handle, elapsed_ms }) => Some(
            AttemptTransition {
                phase: AttemptPhase::Awaiting { handle, send_elapsed_ms: elapsed_ms },
                metrics: seq![
                    Metric::SendStatus(true),
                    Metric::Latency { stage: Stage::SendTransaction, ms: elapsed_ms },
                ],
                next: AttemptNext::Call(
                    FlowCall::AwaitReceipt { handle, timeout_ms: state.timeout_ms },
                ),
            },
        ),
        (AttemptPhase::Submitting, AttemptEvent::SubmitRejected { message, elapsed_ms }) => Some(
            AttemptTransition {
                phase: AttemptPhase::Done,
                metrics: seq![
                    Metric::SendStatus(false),
                    Metric::Latency { stage: Stage::SendTransaction, ms: elapsed_ms },
                ],
                next: AttemptNext::Done(
                    AttemptResult::SubmitFailed {
                        error: FlowError { kind: FailureKind::SubmissionFailure, message },
                    },
                ),
            },
        ),
        (
            AttemptPhase::Awaiting { send_elapsed_ms, .. },
            AttemptEvent::ReceiptArrived { receipt, elapsed_ms },
        ) => Some(
            AttemptTransition {
                phase: AttemptPhase::Done,
                metrics: seq![
                    Metric::Latency { stage: Stage::Mempool, ms: elapsed_ms },
                    Metric::GasUsed(receipt.gas_used),
                    Metric::TxStatus(receipt.success),
                ],
                next: AttemptNext::Done(
                    AttemptResult::Included {
                        gas_used: receipt.gas_used,
                        success: receipt.success,
                        elapsed_ms: saturating_sum(send_elapsed_ms, elapsed_ms),
                    },
                ),
            },
        ),
        (
            AttemptPhase::Awaiting { .. },
            AttemptEvent::ReceiptFailed { message, elapsed_ms },
        ) => Some(
            AttemptTransition {
                phase: AttemptPhase::Done,
                metrics: seq![
                    Metric::Latency { stage: Stage::Mempool, ms: elapsed_ms },
                    Metric::TxStatus(false),
                ],
                next: AttemptNext::Done(
                    AttemptResult::ReceiptError {
                        error: FlowError { kind: FailureKind::ReceiptFetchFailure, message },
                    },
                ),
            },
        ),
        (AttemptPhase::Awaiting { .. }, AttemptEvent::WaitTimedOut) => Some(
            AttemptTransition {
                phase: AttemptPhase::Done,
                metrics: seq![
                    Metric::Latency { stage: Stage::Mempool, ms: state.timeout_ms },
                    Metric::TxStatus(false),
                ],
                next: AttemptNext::Done(AttemptResult::TimedOut),
            },
        ),
        _ => None,
    }
}

/// One estimate, submit and wait against the transaction flow.
#[derive(Clone, Copy, Debug, PartialEq, Eq)]
pub struct ProbeAttempt {
    request: ProbeRequest,
    nonce: u64,
    timeout_ms: u64,
    phase: AttemptPhase,
}

impl View for ProbeAttempt {
    type V = AttemptModel;

    closed spec fn view(&self) -> AttemptModel {
        AttemptModel {
            request: self.request,
            nonce: self.nonce,
            timeout_ms: self.timeout_ms,
            phase: self.phase,
        }
    }
}

impl ProbeAttempt {
    /// Begins an attempt at the given gas price and nonce. The first call to
    /// make is the gas estimate; the wait for the receipt will be bounded by
    /// the policy's timeout.
    pub fn start(policy: &RetryPolicy, gas_price: u128, nonce: u64) -> (begun: (
        ProbeAttempt,
        FlowCall,
    ))
        ensures
            begun.0@.request == (ProbeRequest { value: PROBE_VALUE, gas_price }),
            begun.0@.nonce == nonce,
            begun.0@.timeout_ms == policy@.per_attempt_timeout_ms,
            begun.0@.timeout_ms > 0,
            begun.0@.phase is Estimating,
            Some(begun.1) == pending_call(begun.0@),
    {
        let request = ProbeRequest { value: PROBE_VALUE, gas_price };
        let attempt = ProbeAttempt {
            request,
            nonce,
            timeout_ms: policy.per_attempt_timeout_ms(),
            phase: AttemptPhase::Estimating,
        };
        (attempt, FlowCall::EstimateGas { request, nonce })
    }

    /// Where the attempt stands.
    pub fn phase(&self) -> (phase: AttemptPhase)
        ensures
            phase == self@.phase,
    {
        self.phase
    }

    /// The probe of this attempt.
    pub fn request(&self) -> (request: ProbeRequest)
        ensures
            request == self@.request,
    {
        self.request
    }

    /// The nonce of this attempt.
    pub fn nonce(&self) -> (nonce: u64)
        ensures
            nonce == self@.nonce,
    {
        self.nonce
    }

    /// Takes the flow's reply to the outstanding call. An event that is no such
    /// reply is refused and changes nothing.
    pub fn step(&mut self, event: AttemptEvent) -> (answer: Result<AttemptStep, UnexpectedEvent>)
        ensures
            final(self)@.request == old(self)@.request,
            final(self)@.nonce == old(self)@.nonce,
            final(self)@.timeout_ms == old(self)@.timeout_ms,
            match attempt_transition(old(self)@, event) {
                Some(transition) => {
                    &&& answer is Ok
                    &&& answer->Ok_0.metrics@ == transition.metrics
                    &&& answer->Ok_0.next == transition.next
                    &&& final(self)@.phase == transition.phase
                },
                None => {
                    &&& answer == Err::<AttemptStep, UnexpectedEvent>(
                        UnexpectedEvent { phase: old(self)@.phase },
                    )
                    &&& final(self)@ == old(self)@
                },
            },
    {
        let request = self.request;
        let nonce = self.nonce;
        let timeout_ms = self.timeout_ms;
        match (self.phase, event) {
            (AttemptPhase::Estimating, AttemptEvent::Estimated { gas, elapsed_ms }) => {
                self.phase = AttemptPhase::Submitting;
                Ok(
                    AttemptStep {
                        metrics: vec![
                            Metric::GasEstimate(gas),
                            Metric::Latency { stage: Stage::EstimateGas, ms: elapsed_ms },
                        ],
                        next: AttemptNext::Call(FlowCall::Submit { request, nonce }),
                    },
                )
            },
            (AttemptPhase::Estimating, AttemptEvent::EstimateFailed { message, elapsed_ms }) => {
                self.phase = AttemptPhase::Done;
                Ok(
                    AttemptStep {
                        metrics: vec![
                            Metric::Latency { stage: Stage::EstimateGas, ms: elapsed_ms },
                            Metric::SendStatus(false),
                        ],
                        next: AttemptNext::Done(
                            AttemptResult::SubmitFailed {
                                error: FlowError { kind: FailureKind::EstimationFailure, message },
                            },
                        ),
                    },
                )
            },
            (AttemptPhase::Submitting, AttemptEvent::Submitted { handle, elapsed_ms }) => {
                self.phase = AttemptPhase::Awaiting { handle, send_elapsed_ms: elapsed_ms };
                Ok(
                    AttemptStep {
                        metrics: vec![
                            Metric::SendStatus(true),
                            Metric::Latency { stage: Stage::SendTransaction, ms: elapsed_ms },
                        ],
                        next: AttemptNext::Call(FlowCall::AwaitReceipt { handle, timeout_ms }),
                    },
                )
            },
            (AttemptPhase::Submitting, AttemptEvent::SubmitRejected { message, elapsed_ms }) => {
                self.phase = AttemptPhase::Done;
                Ok(
                    AttemptStep {
                        metrics: vec![
                            Metric::SendStatus(false),
                            Metric::Latency { stage: Stage::SendTransaction, ms: elapsed_ms },
                        ],
                        next: AttemptNext::Done(
                            AttemptResult::SubmitFailed {
                                error: FlowError { kind: FailureKind::SubmissionFailure, message },
                            },
                        ),
                    },
                )
            },
            (
                AttemptPhase::Awaiting { send_elapsed_ms, .. },
                AttemptEvent::ReceiptArrived { receipt, elapsed_ms },
            ) => {
                self.phase = AttemptPhase::Done;
                Ok(
                    AttemptStep {
                        metrics: vec![
                            Metric::Latency { stage: Stage::Mempool, ms: elapsed_ms },
                            Metric::GasUsed(receipt.gas_used),
                            Metric::TxStatus(receipt.success),
                        ],
                        next: AttemptNext::Done(
                            AttemptResult::Included {
                                gas_used: receipt.gas_used,
                                success: receipt.success,
                                elapsed_ms: send_elapsed_ms.saturating_add(elapsed_ms),
                            },
                        ),
                    },
                )
            },
            (
                AttemptPhase::Awaiting { .. },
                AttemptEvent::ReceiptFailed { message, elapsed_ms },
            ) => {
                self.phase = AttemptPhase::Done;
                Ok(
                    AttemptStep {
                        metrics: vec![
                            Metric::Latency { stage: Stage::Mempool, ms: elapsed_ms },
                            Metric::TxStatus(false),
                        ],
                        next: AttemptNext::Done(
                            AttemptResult::ReceiptError {
                                error: FlowError {
                                    kind: FailureKind::ReceiptFetchFailure,
                                    message,
                                },
                            },
                        ),
                    },
                )
            },
            (AttemptPhase::Awaiting { .. }, AttemptEvent::WaitTimedOut) => {
                self.phase = AttemptPhase::Done;
                Ok(
                    AttemptStep {
                        metrics: vec![
                            Metric::Latency { stage: Stage::Mempool, ms: timeout_ms },
                            Metric::TxStatus(false),
                        ],
                        next: AttemptNext::Done(AttemptResult::TimedOut),
                    },
                )
            },
            (phase, _) => Err(UnexpectedEvent { phase }),
        }
    }
}

/// An attempt passes through its phases in order and never back: every
/// accepted event moves it to a later phase, and what it asks for next is the
/// call of the phase it reached, or nothing more once it is done. So each of
/// estimate, submit and wait happens at most once, and in that order.
pub proof fn lemma_attempt_advances(state: AttemptModel, event: AttemptEvent)
    requires
        attempt_transition(state, event) is Some,
    ensures
        ({
            let transition = attempt_transition(state, event)->Some_0;
            let reached = AttemptModel { phase: transition.phase, ..state };
            &&& phase_rank(transition.phase) > phase_rank(state.phase)
            &&& match transition.next {
                AttemptNext::Call(call) => pending_call(reached) == Some(call),
                AttemptNext::Done(_) => transition.phase is Done,
            }
        }),
{
}

/// An attempt that is done accepts no event.
pub proof fn lemma_done_attempt_is_final(state: AttemptModel, event: AttemptEvent)
    requires
        state.phase is Done,
    ensures
        attempt_transition(state, event) is None,
{
}

/// Whether an attempt in `state` accepts the given events one after another.
pub open spec fn attempt_accepts(state: AttemptModel, events: Seq<AttemptEvent>) -> bool
    decreases events.len(),
{
    events.len() == 0 || match attempt_transition(state, events.first()) {
        Some(transition) => attempt_accepts(
            AttemptModel { phase: transition.phase, ..state },
            events.drop_first(),
        ),
        None => false,
    }
}

/// An attempt is one estimate, one submission and one wait at most: from its
/// start it accepts no more than three events, and fewer the further it is.
pub proof fn lemma_attempt_is_one_sequence(state: AttemptModel, events: Seq<AttemptEvent>)
    requires
        attempt_accepts(state, events),
    ensures
        events.len() + phase_rank(state.phase) <= 3,
    decreases events.len(),
{
    if events.len() > 0 {
        let transition = attempt_transition(state, events.first())->Some_0;
        lemma_attempt_advances(state, events.first());
        lemma_attempt_is_one_sequence(
            AttemptModel { phase: transition.phase, ..state },
            events.drop_first(),
        );
    }
}

/// The stage that an attempt is in while it waits for a reply.
pub open spec fn stage_of(phase: AttemptPhase) -> Option<Stage> {
    match phase {
        AttemptPhase::Estimating => Some(Stage::EstimateGas),
        AttemptPhase::Submitting => Some(Stage::SendTransaction),
        AttemptPhase::Awaiting { .. } => Some(Stage::Mempool),
        AttemptPhase::Done => None,
    }
}

/// Whether `metrics` holds a latency gauge for `stage`.
pub open spec fn reports_latency(metrics: Seq<Metric>, stage: Stage) -> bool {
    exists|i: int|
        0 <= i < metrics.len() && (#[trigger] metrics[i] matches Metric::Latency { stage: at, .. }
            && at == stage)
}

/// Nothing that the flow replies goes unreported. Every accepted event emits
/// the latency of the stage it ends, whether the stage succeeded or failed; a
/// gas estimate emits the estimate; and an attempt that ends emits how it
/// ended: the gas used and the status on chain of an inclusion, a send status
/// of zero where nothing was submitted, a failed transaction status where no
/// receipt came.
pub proof fn lemma_every_reply_is_reported(state: AttemptModel, event: AttemptEvent)
    requires
        attempt_transition(state, event) is Some,
    ensures
        ({
            let transition = attempt_transition(state, event)->Some_0;
            &&& stage_of(state.phase) is Some
            &&& reports_latency(transition.metrics, stage_of(state.phase)->Some_0)
            &&& event matches AttemptEvent::Estimated { gas, .. } ==> transition.metrics.contains(
                Metric::GasEstimate(gas),
            )
            &&& event is Submitted ==> transition.metrics.contains(Metric::SendStatus(true))
            &&& transition.next matches AttemptNext::Done(result) ==> match result {
                AttemptResult::Included { gas_used, success, .. } => {
                    &&& transition.metrics.contains(Metric::GasUsed(gas_used))
                    &&& transition.metrics.contains(Metric::TxStatus(success))
                },
                AttemptResult::SubmitFailed { .. } => transition.metrics.contains(
                    Metric::SendStatus(false),
                ),
                AttemptResult::TimedOut | AttemptResult::ReceiptError { .. } => {
                    transition.metrics.contains(Metric::TxStatus(false))
                },
            }
        }),
{
    let transition = attempt_transition(state, event)->Some_0;
    let metrics = transition.metrics;
    match (state.phase, event) {
        (AttemptPhase::Estimating, AttemptEvent::Estimated { gas, .. }) => {
            assert(metrics[0] == Metric::GasEstimate(gas));
            assert(metrics[1] is Latency);
        },
        (AttemptPhase::Estimating, AttemptEvent::EstimateFailed { .. }) => {
            assert(metrics[0] is Latency);
            assert(metrics[1] == Metric::SendStatus(false));
        },
        (AttemptPhase::Submitting, AttemptEvent::Submitted { .. }) => {
            assert(metrics[0] == Metric::SendStatus(true));
            assert(metrics[1] is Latency);
        },
        (AttemptPhase::Submitting, AttemptEvent::SubmitRejected { .. }) => {
            assert(metrics[0] == Metric::SendStatus(false));
            assert(metrics[1] is Latency);
        },
        (AttemptPhase::Awaiting { .. }, AttemptEvent::ReceiptArrived { receipt, .. }) => {
            assert(metrics[0] is Latency);
            assert(metrics[1] == Metric::GasUsed(receipt.gas_used));
            assert(metrics[2] == Metric::TxStatus(receipt.success));
        },
        (AttemptPhase::Awaiting { .. }, _) => {
            assert(metrics[0] is Latency);
            assert(metrics[1] == Metric::TxStatus(false));
        },
        _ => {},
    }
}

} // verus!
