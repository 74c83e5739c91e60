//! A blockchain-liveness watchdog, as a set of deterministic state machines.
//!
//! The watchdog periodically sends a minimal self-transfer to a chain
//! endpoint, retries with an escalating gas price when the transfer is not
//! included in time, and reports what it observed as metrics. Everything that
//! touches the network, the clock or the metrics exporter is left to the
//! caller: the machines here take the replies of those collaborators as
//! events and answer with the next command to perform.
//!
//! - [`attempt`]: one estimate, submit and wait.
//! - [`cycle`]: the attempts of one cycle, with gas escalation.
//! - [`gas`]: the gas price schedule and its arithmetic.
//! - [`metrics`]: the records that the machines emit for the metrics sink.
//! - [`policy`]: the validated retry policy.
//! - [`schedule`]: the outer loop, which sleeps or starts the next cycle.
//! - [`watchdog`]: the three layers joined into the machine that a caller drives.

pub mod attempt;
pub mod cycle;
pub mod gas;
pub mod metrics;
pub mod policy;
pub mod schedule;
pub mod watchdog;
