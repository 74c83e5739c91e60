//! What the watchdog reports: gauges and one counter, by name and label.
//!
//! The machines hand these records to the caller, who forwards them to a
//! metrics sink. Latencies are in milliseconds.

use vstd::prelude::*;

verus! {

/// The stage of an attempt that a latency was measured for.
#[derive(Clone, Copy, Debug, PartialEq, Eq)]
pub enum Stage {
    /// Asking the endpoint for a gas estimate.
    EstimateGas,
    /// Handing the transaction to the endpoint.
    SendTransaction,
    /// Waiting for the transaction to be included.
    Mempool,
}

/// One observation for the metrics sink.
#[derive(Clone, Copy, Debug, PartialEq, Eq)]
pub enum Metric {
    /// The gas that the endpoint estimated for the probe.
    GasEstimate(u64),
    /// The gas that the included probe used.
    GasUsed(u64),
    /// How long a stage took.
    Latency { stage: Stage, ms: u64 },
    /// How long submission and inclusion took together.
    TotalLatency(u64),
    /// Whether the endpoint accepted the transaction: gauge 1, or 0 if not.
    SendStatus(bool),
    /// Whether the probe was included and succeeded: gauge 0, or 1 if not.
    TxStatus(bool),
    /// One more cycle that saw the chain alive. The only counter.
    Liveness,
    /// The gas price offered on the attempt that starts.
    GasPrice(u128),
    /// The account nonce that the cycle uses.
    Nonce(u64),
}

/// The label value of a stage.
pub open spec fn stage_label(stage: Stage) -> Seq<char> {
    match stage {
        Stage::EstimateGas => "estimate_gas"@,
        Stage::SendTransaction => "send_transaction"@,
        Stage::Mempool => "mempool"@,
    }
}

/// The series name of a metric.
pub open spec fn metric_name(metric: Metric) -> Seq<char> {
    match metric {
        Metric::GasEstimate(_) => "watchdog.tx.gas"@,
        Metric::GasUsed(_) => "watchdog.tx.gas"@,
        Metric::Latency { .. } => "watchdog.tx.latency"@,
        Metric::TotalLatency(_) => "watchdog.tx.latency.total"@,
        Metric::SendStatus(_) => "watchdog.tx.send_status"@,
        Metric::TxStatus(_) => "watchdog.tx.status"@,
        Metric::Liveness => "watchdog.liveness"@,
        Metric::GasPrice(_) => "gas_price"@,
        Metric::Nonce(_) => "nonce"@,
    }
}

/// The label of a metric, as key and value, where it has one.
pub open spec fn metric_label(metric: Metric) -> Option<(Seq<char>, Seq<char>)> {
    match metric {
        Metric::GasEstimate(_) => Some(("type"@, "estimate"@)),
        Metric::GasUsed(_) => Some(("type"@, "used"@)),
        Metric::Latency { stage, .. } => Some(("stage"@, stage_label(stage))),
        _ => None,
    }
}

/// The number that a metric carries: a gauge's value, or the counter's step.
pub open spec fn metric_value(metric: Metric) -> nat {
    match metric {
        Metric::GasEstimate(gas) => gas as nat,
        Metric::GasUsed(gas) => gas as nat,
        Metric::Latency { ms, .. } => ms as nat,
        Metric::TotalLatency(ms) => ms as nat,
        Metric::SendStatus(accepted) => if accepted {
            1
        } else {
            0
        },
        Metric::TxStatus(succeeded) => if succeeded {
            0
        } else {
            1
        },
        Metric::Liveness => 1,
        Metric::GasPrice(price) => price as nat,
        Metric::Nonce(nonce) => nonce as nat,
    }
}

impl Stage {
    /// The value of the `stage` label.
    pub fn label(&self) -> (text: &'static str)
        ensures
            text@ == stage_label(*self),
    {
        match self {
            Stage::EstimateGas => "estimate_gas",
            Stage::SendTransaction => "send_transaction",
            Stage::Mempool => "mempool",
        }
    }
}

impl Metric {
    /// The series name.
    pub fn name(&self) -> (text: &'static str)
        ensures
            text@ == metric_name(*self),
    {
        match self {
            Metric::GasEstimate(_) => "watchdog.tx.gas",
            Metric::GasUsed(_) => "watchdog.tx.gas",
            Metric::Latency { .. } => "watchdog.tx.latency",
            Metric::TotalLatency(_) => "watchdog.tx.latency.total",
            Metric::SendStatus(_) => "watchdog.tx.send_status",
            Metric::TxStatus(_) => "watchdog.tx.status",
            Metric::Liveness => "watchdog.liveness",
            Metric::GasPrice(_) => "gas_price",
            Metric::Nonce(_) => "nonce",
        }
    }

    /// The label, as key and value, where the series has one.
    pub fn label(&self) -> (pair: Option<(&'static str, &'static str)>)
        ensures
            match metric_label(*self) {
                Some((key, value)) => pair is Some && pair->Some_0.0@ == key && pair->Some_0.1@
                    == value,
                None => pair is None,
            },
    {
        match self {
            Metric::GasEstimate(_) => Some(("type", "estimate")),
            Metric::GasUsed(_) => Some(("type", "used")),
            Metric::Latency { stage, .. } => Some(("stage", stage.label())),
            _ => None,
        }
    }

    /// Whether this is an increment of a counter; every other metric sets a gauge.
    pub fn is_counter(&self) -> (counter: bool)
        ensures
            counter == (*self is Liveness),
    {
        match self {
            Metric::Liveness => true,
            _ => false,
        }
    }

    /// The gauge's value, or the counter's step.
    pub fn value(&self) -> (number: u128)
        ensures
            number == metric_value(*self),
    {
        match self {
            Metric::GasEstimate(gas) => *gas as u128,
            Metric::GasUsed(gas) => *gas as u128,
            Metric::Latency { ms, .. } => *ms as u128,
            Metric::TotalLatency(ms) => *ms as u128,
            Metric::SendStatus(accepted) => if *accepted {
                1
            } else {
                0
            },
            Metric::TxStatus(succeeded) => if *succeeded {
                0
            } else {
                1
            },
            Metric::Liveness => 1,
            Metric::GasPrice(price) => *price,
            Metric::Nonce(nonce) => *nonce as u128,
        }
    }
}

} // verus!
