use chain_watchdog::attempt::{AttemptEvent, FlowCall, Receipt, TxHandle};
use chain_watchdog::metrics::{Metric, Stage};
use chain_watchdog::policy::RetryPolicy;
use chain_watchdog::schedule::LoopState;
use chain_watchdog::watchdog::{Command, Event, OutOfTurn, Reaction, Watchdog};

/// What the scripted flow does with a submission.
#[derive(Clone, Copy)]
enum Submit {
    Accept,
    Reject,
}

/// What the scripted flow does with a wait for a receipt.
#[derive(Clone, Copy)]
enum Wait {
    Receipt { gas_used: u64, success: bool },
    Error,
    TimeOut,
}

/// A transaction flow that answers from a script and counts its calls.
struct ScriptedFlow {
    nonce: u64,
    gas_price: u128,
    submits: Vec<Submit>,
    waits: Vec<Wait>,
    fetches: usize,
    estimate_calls: usize,
    submit_calls: usize,
    wait_calls: usize,
    submitted_prices: Vec<u128>,
    submitted_nonces: Vec<u64>,
    wait_timeouts: Vec<u64>,
}

impl ScriptedFlow {
    fn new(gas_price: u128, submits: Vec<Submit>, waits: Vec<Wait>) -> Self {
        ScriptedFlow {
            nonce: 42,
            gas_price,
            submits,
            waits,
            fetches: 0,
            estimate_calls: 0,
            submit_calls: 0,
            wait_calls: 0,
            submitted_prices: vec![],
            submitted_nonces: vec![],
            wait_timeouts: vec![],
        }
    }

    fn perform(&mut self, call: FlowCall) -> AttemptEvent {
        match call {
            FlowCall::EstimateGas { .. } => {
                self.estimate_calls += 1;
                AttemptEvent::Estimated { gas: 21_000, elapsed_ms: 5 }
            }
            FlowCall::Submit { request, nonce } => {
                assert_eq!(request.value, 1);
                self.submitted_prices.push(request.gas_price);
                self.submitted_nonces.push(nonce);
                let script = self.submits[self.submit_calls % self.submits.len()];
                self.submit_calls += 1;
                match script {
                    Submit::Accept => AttemptEvent::Submitted {
                        handle: TxHandle { hash: [self.submit_calls as u8; 32] },
                        elapsed_ms: 20,
                    },
                    Submit::Reject => AttemptEvent::SubmitRejected {
                        message: String::from("nonce already used"),
                        elapsed_ms: 20,
                    },
                }
            }
            FlowCall::AwaitReceipt { handle, timeout_ms } => {
                self.wait_timeouts.push(timeout_ms);
                let script = self.waits[self.wait_calls % self.waits.len()];
                self.wait_calls += 1;
                match script {
                    Wait::Receipt { gas_used, success } => AttemptEvent::ReceiptArrived {
                        receipt: Receipt { gas_used, success, tx_hash: handle.hash },
                        elapsed_ms: 100,
                    },
                    Wait::Error => AttemptEvent::ReceiptFailed {
                        message: String::from("connection reset"),
                        elapsed_ms: 100,
                    },
                    Wait::TimeOut => AttemptEvent::WaitTimedOut,
                }
            }
        }
    }
}

/// A metrics sink that records what it is given.
struct RecordingSink {
    seen: Vec<Metric>,
}

impl RecordingSink {
    fn increments(&self, name: &str) -> usize {
        self.seen.iter().filter(|metric| metric.is_counter() && metric.name() == name).count()
    }

    fn gauge(&self, name: &str, label: Option<(&str, &str)>) -> Option<u128> {
        self.seen
            .iter()
            .rev()
            .find(|metric| !metric.is_counter() && metric.name() == name && metric.label() == label)
            .map(|metric| metric.value())
    }
}

/// What the driver saw of the loop.
struct Run {
    sleeps: Vec<u64>,
    /// For each fetch of the chain state, how many sleeps came before it.
    sleeps_before_fetch: Vec<usize>,
}

/// Performs the watchdog's commands against the flow until `cycles` cycles
/// have been started and the next one is asked for, then shuts down.
fn drive(watchdog: &mut Watchdog, flow: &mut ScriptedFlow, sink: &mut RecordingSink, cycles: usize) -> Run {
    let mut run = Run { sleeps: vec![], sleeps_before_fetch: vec![] };
    let mut event = Event::Wake;
    for _ in 0..10_000 {
        let Reaction { metrics, command } = watchdog.step(event).unwrap();
        sink.seen.extend(metrics);
        event = match command {
            Command::FetchChainState => {
                if flow.fetches == cycles {
                    Event::Shutdown
                } else {
                    flow.fetches += 1;
                    run.sleeps_before_fetch.push(run.sleeps.len());
                    Event::ChainState { nonce: flow.nonce, gas_price: flow.gas_price }
                }
            }
            Command::Flow(call) => Event::Flow(flow.perform(call)),
            Command::Sleep { ms } => {
                run.sleeps.push(ms);
                Event::Wake
            }
            Command::Stop => return run,
        };
    }
    panic!("the watchdog did not stop");
}

fn policy(max_attempts: u32, factor: u64) -> RetryPolicy {
    RetryPolicy::new(max_attempts, 30_000, factor, 300_000, u128::MAX).unwrap()
}

#[test]
fn first_submit_included_gives_one_liveness_increment() {
    let mut watchdog = Watchdog::new(policy(3, 2));
    let mut flow = ScriptedFlow::new(
        1_000,
        vec![Submit::Accept],
        vec![Wait::Receipt { gas_used: 21_000, success: true }],
    );
    let mut sink = RecordingSink { seen: vec![] };
    let run = drive(&mut watchdog, &mut flow, &mut sink, 1);

    assert_eq!(flow.estimate_calls, 1);
    assert_eq!(flow.submit_calls, 1);
    assert_eq!(flow.wait_calls, 1);
    assert_eq!(flow.wait_timeouts, vec![30_000]);
    assert_eq!(run.sleeps, vec![300_000]);
    assert_eq!(sink.increments("watchdog.liveness"), 1);
    assert_eq!(sink.gauge("watchdog.tx.gas", Some(("type", "used"))), Some(21_000));
    assert_eq!(sink.gauge("watchdog.tx.gas", Some(("type", "estimate"))), Some(21_000));
    assert_eq!(sink.gauge("watchdog.tx.send_status", None), Some(1));
    assert_eq!(sink.gauge("watchdog.tx.status", None), Some(0));
    assert_eq!(sink.gauge("watchdog.tx.latency.total", None), Some(120));
    assert_eq!(sink.gauge("nonce", None), Some(42));
    assert_eq!(sink.gauge("gas_price", None), Some(1_000));
    assert_eq!(
        sink.seen,
        vec![
            Metric::Nonce(42),
            Metric::GasPrice(1_000),
            Metric::GasEstimate(21_000),
            Metric::Latency { stage: Stage::EstimateGas, ms: 5 },
            Metric::SendStatus(true),
            Metric::Latency { stage: Stage::SendTransaction, ms: 20 },
            Metric::Latency { stage: Stage::Mempool, ms: 100 },
            Metric::GasUsed(21_000),
            Metric::TxStatus(true),
            Metric::TotalLatency(120),
            Metric::Liveness,
        ]
    );
}

#[test]
fn nonce_races_escalate_the_price_until_included() {
    let g: u128 = 1_000_000_007;
    let mut watchdog = Watchdog::new(policy(10, 2));
    let mut flow = ScriptedFlow::new(
        g,
        vec![Submit::Reject, Submit::Reject, Submit::Accept],
        vec![Wait::Receipt { gas_used: 21_000, success: true }],
    );
    let mut sink = RecordingSink { seen: vec![] };
    let run = drive(&mut watchdog, &mut flow, &mut sink, 1);

    assert_eq!(flow.submitted_prices, vec![g, 2 * g, 4 * g]);
    assert_eq!(flow.submitted_nonces, vec![42, 42, 42]);
    assert_eq!(flow.submit_calls, 3);
    assert_eq!(flow.estimate_calls, 3);
    assert_eq!(flow.wait_calls, 1);
    assert_eq!(flow.fetches, 1);
    assert_eq!(run.sleeps, vec![300_000]);
    assert_eq!(sink.increments("watchdog.liveness"), 1);
    assert_eq!(sink.gauge("gas_price", None), Some(4 * g));
}

#[test]
fn three_timeouts_exhaust_the_cycle_and_restart_without_sleep() {
    let mut watchdog = Watchdog::new(policy(3, 2));
    let mut flow = ScriptedFlow::new(1_000, vec![Submit::Accept], vec![Wait::TimeOut]);
    let mut sink = RecordingSink { seen: vec![] };
    let run = drive(&mut watchdog, &mut flow, &mut sink, 2);

    assert_eq!(flow.submit_calls, 6);
    assert_eq!(flow.wait_calls, 6);
    assert_eq!(flow.submitted_prices, vec![1_000, 2_000, 4_000, 1_000, 2_000, 4_000]);
    assert_eq!(flow.fetches, 2);
    assert_eq!(run.sleeps, Vec::<u64>::new());
    assert_eq!(run.sleeps_before_fetch, vec![0, 0]);
    assert_eq!(sink.increments("watchdog.liveness"), 0);
    assert_eq!(sink.gauge("watchdog.tx.status", None), Some(1));
    assert_eq!(sink.gauge("watchdog.tx.latency", Some(("stage", "mempool"))), Some(30_000));
}

#[test]
fn one_exhausted_cycle_makes_exactly_max_attempts() {
    let mut watchdog = Watchdog::new(policy(3, 2));
    let mut flow = ScriptedFlow::new(1_000, vec![Submit::Accept], vec![Wait::TimeOut]);
    let mut sink = RecordingSink { seen: vec![] };
    drive(&mut watchdog, &mut flow, &mut sink, 1);
    assert_eq!(flow.estimate_calls, 3);
    assert_eq!(flow.submit_calls, 3);
    assert_eq!(flow.wait_calls, 3);
    assert_eq!(watchdog.state(), LoopState::Stopped);
}

#[test]
fn no_attempt_follows_an_inclusion() {
    let mut watchdog = Watchdog::new(policy(5, 2));
    let mut flow = ScriptedFlow::new(
        10,
        vec![Submit::Accept],
        vec![Wait::TimeOut, Wait::Error, Wait::Receipt { gas_used: 50_000, success: false }],
    );
    let mut sink = RecordingSink { seen: vec![] };
    let run = drive(&mut watchdog, &mut flow, &mut sink, 1);
    assert_eq!(flow.submit_calls, 3);
    assert_eq!(flow.submitted_prices, vec![10, 20, 40]);
    assert_eq!(run.sleeps, vec![300_000]);
    assert_eq!(sink.increments("watchdog.liveness"), 1);
    assert_eq!(sink.gauge("watchdog.tx.status", None), Some(1));
    assert_eq!(sink.gauge("watchdog.tx.gas", Some(("type", "used"))), Some(50_000));
}

#[test]
fn a_timeout_moves_on_to_the_next_attempt_at_once() {
    let mut watchdog = Watchdog::new(policy(3, 2));
    watchdog.step(Event::Wake).unwrap();
    watchdog.step(Event::ChainState { nonce: 9, gas_price: 100 }).unwrap();
    watchdog.step(Event::Flow(AttemptEvent::Estimated { gas: 21_000, elapsed_ms: 1 })).unwrap();
    let waiting = watchdog
        .step(Event::Flow(AttemptEvent::Submitted { handle: TxHandle { hash: [1; 32] }, elapsed_ms: 2 }))
        .unwrap();
    assert_eq!(
        waiting.command,
        Command::Flow(FlowCall::AwaitReceipt { handle: TxHandle { hash: [1; 32] }, timeout_ms: 30_000 })
    );
    assert_eq!(watchdog.attempts(), Some(1));

    let next = watchdog.step(Event::Flow(AttemptEvent::WaitTimedOut)).unwrap();
    assert_eq!(
        next,
        Reaction {
            metrics: vec![
                Metric::Latency { stage: Stage::Mempool, ms: 30_000 },
                Metric::TxStatus(false),
                Metric::GasPrice(200),
            ],
            command: Command::Flow(FlowCall::EstimateGas {
                request: chain_watchdog::attempt::ProbeRequest { value: 1, gas_price: 200 },
                nonce: 9,
            }),
        }
    );
    assert_eq!(watchdog.attempts(), Some(2));

    let late = Receipt { gas_used: 21_000, success: true, tx_hash: [1; 32] };
    assert_eq!(
        watchdog.step(Event::Flow(AttemptEvent::ReceiptArrived { receipt: late, elapsed_ms: 1 })),
        Err(OutOfTurn { state: LoopState::Running })
    );
    assert_eq!(watchdog.attempts(), Some(2));
}

#[test]
fn an_unavailable_chain_state_is_asked_for_again() {
    let mut watchdog = Watchdog::new(policy(3, 2));
    watchdog.step(Event::Wake).unwrap();
    let again = watchdog.step(Event::ChainStateUnavailable).unwrap();
    assert_eq!(
        again,
        Reaction { metrics: vec![Metric::SendStatus(false)], command: Command::FetchChainState }
    );
    assert_eq!(watchdog.state(), LoopState::Running);
    assert_eq!(watchdog.attempts(), None);
    let begun = watchdog.step(Event::ChainState { nonce: 3, gas_price: 8 }).unwrap();
    assert_eq!(begun.metrics, vec![Metric::Nonce(3), Metric::GasPrice(8)]);
    assert_eq!(watchdog.attempts(), Some(1));
}

#[test]
fn a_shutdown_interrupts_every_outstanding_command() {
    let script: Vec<Event> = vec![
        Event::Wake,
        Event::ChainState { nonce: 9, gas_price: 100 },
        Event::Flow(AttemptEvent::Estimated { gas: 21_000, elapsed_ms: 1 }),
        Event::Flow(AttemptEvent::Submitted { handle: TxHandle { hash: [1; 32] }, elapsed_ms: 2 }),
        Event::Flow(AttemptEvent::ReceiptArrived {
            receipt: Receipt { gas_used: 21_000, success: true, tx_hash: [1; 32] },
            elapsed_ms: 3,
        }),
    ];
    for served in 0..=script.len() {
        let mut watchdog = Watchdog::new(policy(3, 2));
        for event in script.iter().take(served) {
            watchdog.step(event.clone()).unwrap();
        }
        assert_eq!(
            watchdog.step(Event::Shutdown),
            Ok(Reaction { metrics: vec![], command: Command::Stop })
        );
        assert_eq!(watchdog.state(), LoopState::Stopped);
        assert_eq!(watchdog.attempts(), None);
        for event in script.iter() {
            assert_eq!(
                watchdog.step(event.clone()),
                Ok(Reaction { metrics: vec![], command: Command::Stop })
            );
        }
    }
}

#[test]
fn events_out_of_turn_are_refused_and_change_nothing() {
    let mut watchdog = Watchdog::new(policy(3, 2));
    let before = watchdog;
    assert_eq!(
        watchdog.step(Event::ChainState { nonce: 1, gas_price: 1 }),
        Err(OutOfTurn { state: LoopState::Idle })
    );
    assert_eq!(
        watchdog.step(Event::Flow(AttemptEvent::WaitTimedOut)),
        Err(OutOfTurn { state: LoopState::Idle })
    );
    assert_eq!(watchdog.step(Event::ChainStateUnavailable), Err(OutOfTurn { state: LoopState::Idle }));
    assert_eq!(watchdog, before);

    watchdog.step(Event::Wake).unwrap();
    let before = watchdog;
    assert_eq!(watchdog.step(Event::Wake), Err(OutOfTurn { state: LoopState::Running }));
    assert_eq!(
        watchdog.step(Event::Flow(AttemptEvent::Estimated { gas: 1, elapsed_ms: 1 })),
        Err(OutOfTurn { state: LoopState::Running })
    );
    assert_eq!(watchdog, before);

    watchdog.step(Event::ChainState { nonce: 1, gas_price: 1 }).unwrap();
    let before = watchdog;
    assert_eq!(watchdog.step(Event::Wake), Err(OutOfTurn { state: LoopState::Running }));
    assert_eq!(
        watchdog.step(Event::ChainState { nonce: 2, gas_price: 2 }),
        Err(OutOfTurn { state: LoopState::Running })
    );
    assert_eq!(watchdog.step(Event::ChainStateUnavailable), Err(OutOfTurn { state: LoopState::Running }));
    assert_eq!(
        watchdog.step(Event::Flow(AttemptEvent::WaitTimedOut)),
        Err(OutOfTurn { state: LoopState::Running })
    );
    assert_eq!(watchdog, before);
}

#[test]
fn a_capped_price_keeps_the_cycle_attempting() {
    let policy = RetryPolicy::new(4, 30_000, 10, 1, 2_500).unwrap();
    let mut watchdog = Watchdog::new(policy);
    let mut flow = ScriptedFlow::new(100, vec![Submit::Reject], vec![Wait::TimeOut]);
    let mut sink = RecordingSink { seen: vec![] };
    drive(&mut watchdog, &mut flow, &mut sink, 1);
    assert_eq!(flow.submitted_prices, vec![100, 1_000, 2_500, 2_500]);
    assert_eq!(sink.gauge("watchdog.tx.send_status", None), Some(0));
}
