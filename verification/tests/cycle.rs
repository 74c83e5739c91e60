use chain_watchdog::attempt::{AttemptResult, FailureKind, FlowError};
use chain_watchdog::cycle::{CycleNext, CycleOutcome, CycleStep, RetryController};
use chain_watchdog::metrics::Metric;
use chain_watchdog::policy::RetryPolicy;

fn policy(max_attempts: u32, factor: u64, cap: u128) -> RetryPolicy {
    RetryPolicy::new(max_attempts, 30_000, factor, 300_000, cap).unwrap()
}

fn rejected() -> AttemptResult {
    AttemptResult::SubmitFailed {
        error: FlowError {
            kind: FailureKind::SubmissionFailure,
            message: String::from("nonce too low"),
        },
    }
}

fn estimate_failed() -> AttemptResult {
    AttemptResult::SubmitFailed {
        error: FlowError { kind: FailureKind::EstimationFailure, message: String::from("down") },
    }
}

fn receipt_error() -> AttemptResult {
    AttemptResult::ReceiptError {
        error: FlowError { kind: FailureKind::ReceiptFetchFailure, message: String::from("reset") },
    }
}

fn included(gas_used: u64, success: bool, elapsed_ms: u64) -> AttemptResult {
    AttemptResult::Included { gas_used, success, elapsed_ms }
}

#[test]
fn a_cycle_starts_with_the_fetched_nonce_and_price() {
    let (controller, step) = RetryController::start(policy(3, 2, u128::MAX), 17, 1_000);
    assert_eq!(
        step,
        CycleStep {
            metrics: vec![Metric::Nonce(17), Metric::GasPrice(1_000)],
            next: CycleNext::Attempt { gas_price: 1_000, nonce: 17 },
        }
    );
    assert_eq!(controller.attempts(), 1);
    assert_eq!(controller.gas_price(), 1_000);
    assert_eq!(controller.nonce(), 17);
    assert_eq!(controller.outcome(), None);
}

#[test]
fn a_fetched_price_above_the_cap_is_capped_from_the_start() {
    let (controller, step) = RetryController::start(policy(3, 2, 500), 17, 1_000);
    assert_eq!(step.next, CycleNext::Attempt { gas_price: 500, nonce: 17 });
    assert_eq!(step.metrics, vec![Metric::Nonce(17), Metric::GasPrice(500)]);
    assert_eq!(controller.gas_price(), 500);
}

#[test]
fn an_inclusion_on_the_first_attempt_ends_the_cycle() {
    let (mut controller, _) = RetryController::start(policy(3, 2, u128::MAX), 17, 1_000);
    let step = controller.on_result(&included(21_000, true, 1_230));
    let outcome = CycleOutcome::Succeeded {
        total_elapsed_ms: 1_230,
        gas_used: 21_000,
        chain_status: true,
    };
    assert_eq!(
        step,
        CycleStep { metrics: vec![Metric::TotalLatency(1_230)], next: CycleNext::Done(outcome) }
    );
    assert_eq!(controller.outcome(), Some(outcome));
    assert_eq!(controller.attempts(), 1);
}

#[test]
fn a_reverted_inclusion_is_a_success_of_the_cycle() {
    let (mut controller, _) = RetryController::start(policy(3, 2, u128::MAX), 17, 1_000);
    let step = controller.on_result(&included(30_000, false, 90));
    assert_eq!(
        step.next,
        CycleNext::Done(CycleOutcome::Succeeded {
            total_elapsed_ms: 90,
            gas_used: 30_000,
            chain_status: false,
        })
    );
}

#[test]
fn every_kind_of_failure_escalates_the_price() {
    for failure in [rejected(), estimate_failed(), receipt_error(), AttemptResult::TimedOut] {
        let (mut controller, _) = RetryController::start(policy(3, 3, u128::MAX), 17, 1_000);
        let step = controller.on_result(&failure);
        assert_eq!(
            step,
            CycleStep {
                metrics: vec![Metric::GasPrice(3_000)],
                next: CycleNext::Attempt { gas_price: 3_000, nonce: 17 },
            }
        );
        assert_eq!(controller.attempts(), 2);
        assert_eq!(controller.gas_price(), 3_000);
        assert_eq!(controller.outcome(), None);
    }
}

#[test]
fn the_price_of_attempt_i_is_the_capped_power() {
    let initial: u128 = 7;
    let factor: u64 = 3;
    let cap: u128 = 5_000;
    let (mut controller, first) = RetryController::start(policy(10, factor, cap), 1, initial);
    let mut offered = vec![];
    if let CycleNext::Attempt { gas_price, .. } = first.next {
        offered.push(gas_price);
    }
    for _ in 0..9 {
        if let CycleNext::Attempt { gas_price, .. } = controller.on_result(&AttemptResult::TimedOut).next
        {
            offered.push(gas_price);
        }
    }
    assert_eq!(offered, vec![7, 21, 63, 189, 567, 1_701, 5_000, 5_000, 5_000, 5_000]);
    for (i, price) in offered.iter().enumerate() {
        assert_eq!(*price, (initial * (factor as u128).pow(i as u32)).min(cap));
    }
}

#[test]
fn escalation_near_the_top_of_the_range_saturates() {
    let (mut controller, _) = RetryController::start(policy(4, u64::MAX, u128::MAX), 1, u128::MAX / 3);
    let step = controller.on_result(&AttemptResult::TimedOut);
    assert_eq!(step.next, CycleNext::Attempt { gas_price: u128::MAX, nonce: 1 });
    let step = controller.on_result(&AttemptResult::TimedOut);
    assert_eq!(step.next, CycleNext::Attempt { gas_price: u128::MAX, nonce: 1 });
}

#[test]
fn a_cycle_stops_at_the_first_inclusion() {
    let (mut controller, _) = RetryController::start(policy(10, 2, u128::MAX), 17, 1_000);
    let mut started = 1;
    for result in [rejected(), AttemptResult::TimedOut, included(21_000, true, 50)] {
        if let CycleNext::Attempt { .. } = controller.on_result(&result).next {
            started += 1;
        }
    }
    assert_eq!(started, 3);
    assert_eq!(controller.attempts(), 3);
    let outcome = CycleOutcome::Succeeded { total_elapsed_ms: 50, gas_used: 21_000, chain_status: true };
    assert_eq!(controller.outcome(), Some(outcome));

    let before = controller;
    for late in [AttemptResult::TimedOut, included(1, false, 1), rejected()] {
        let step = controller.on_result(&late);
        assert_eq!(step, CycleStep { metrics: vec![], next: CycleNext::Done(outcome) });
        assert_eq!(controller, before);
    }
}

#[test]
fn a_cycle_without_inclusion_makes_exactly_max_attempts() {
    let (mut controller, _) = RetryController::start(policy(3, 2, u128::MAX), 17, 1_000);
    assert!(matches!(controller.on_result(&AttemptResult::TimedOut).next, CycleNext::Attempt { .. }));
    assert!(matches!(controller.on_result(&rejected()).next, CycleNext::Attempt { .. }));
    let last = controller.on_result(&receipt_error());
    assert_eq!(
        last,
        CycleStep { metrics: vec![], next: CycleNext::Done(CycleOutcome::Exhausted { attempts: 3 }) }
    );
    assert_eq!(controller.attempts(), 3);
    assert_eq!(controller.outcome(), Some(CycleOutcome::Exhausted { attempts: 3 }));

    let again = controller.on_result(&AttemptResult::TimedOut);
    assert_eq!(again.next, CycleNext::Done(CycleOutcome::Exhausted { attempts: 3 }));
    assert_eq!(controller.attempts(), 3);
}

#[test]
fn a_single_attempt_policy_exhausts_after_one_failure() {
    let (mut controller, _) = RetryController::start(policy(1, 2, u128::MAX), 17, 1_000);
    let step = controller.on_result(&AttemptResult::TimedOut);
    assert_eq!(step.next, CycleNext::Done(CycleOutcome::Exhausted { attempts: 1 }));
    assert_eq!(step.metrics, vec![]);
}

#[test]
fn an_inclusion_on_the_last_attempt_is_a_success() {
    let (mut controller, _) = RetryController::start(policy(2, 2, u128::MAX), 17, 1_000);
    controller.on_result(&AttemptResult::TimedOut);
    let step = controller.on_result(&included(21_000, true, 10));
    assert_eq!(
        step.next,
        CycleNext::Done(CycleOutcome::Succeeded {
            total_elapsed_ms: 10,
            gas_used: 21_000,
            chain_status: true,
        })
    );
    assert_eq!(controller.attempts(), 2);
}
