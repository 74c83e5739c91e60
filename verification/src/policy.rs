//! The retry policy: how often, how long and at what price a cycle tries.

use vstd::prelude::*;

verus! {

/// Why a set of policy parameters was refused.
#[derive(Clone, Copy, Debug, PartialEq, Eq)]
pub enum PolicyError {
    /// `max_attempts` was zero: a cycle makes at least one attempt.
    NoAttempts,
    /// `per_attempt_timeout_ms` was zero: a wait for inclusion needs time.
    NoTimeout,
    /// `gas_scale_factor` was zero: escalation never lowers the price.
    ScaleFactorBelowOne,
}

/// The parameters of a policy as mathematical integers.
pub struct PolicyModel {
    pub max_attempts: nat,
    pub per_attempt_timeout_ms: nat,
    pub gas_scale_factor: nat,
    pub cycle_period_ms: nat,
    pub gas_price_cap: nat,
}

impl PolicyModel {
    /// At least one attempt, a positive timeout, a scale factor of at least one.
    pub open spec fn valid(self) -> bool {
        &&& self.max_attempts >= 1
        &&& self.per_attempt_timeout_ms > 0
        &&& self.gas_scale_factor >= 1
    }

    /// Every parameter fits the machine integer that holds it.
    pub open spec fn representable(self) -> bool {
        &&& self.max_attempts <= u32::MAX
        &&& self.per_attempt_timeout_ms <= u64::MAX
        &&& self.gas_scale_factor <= u64::MAX
        &&& self.cycle_period_ms <= u64::MAX
        &&& self.gas_price_cap <= u128::MAX
    }
}

/// The first reason, if any, to refuse the given parameters.
pub open spec fn policy_defect(
    max_attempts: nat,
    per_attempt_timeout_ms: nat,
    gas_scale_factor: nat,
) -> Option<PolicyError> {
    if max_attempts == 0 {
        Some(PolicyError::NoAttempts)
    } else if per_attempt_timeout_ms == 0 {
        Some(PolicyError::NoTimeout)
    } else if gas_scale_factor == 0 {
        Some(PolicyError::ScaleFactorBelowOne)
    } else {
        None
    }
}

/// A validated retry policy. Every value of this type is valid: it can only
/// be made by [`RetryPolicy::new`].
#[derive(Clone, Copy, Debug, PartialEq, Eq)]
pub struct RetryPolicy {
    max_attempts: u32,
    per_attempt_timeout_ms: u64,
    gas_scale_factor: u64,
    cycle_period_ms: u64,
    gas_price_cap: u128,
}

impl View for RetryPolicy {
    type V = PolicyModel;

    closed spec fn view(&self) -> PolicyModel {
        PolicyModel {
            max_attempts: self.max_attempts as nat,
            per_attempt_timeout_ms: self.per_attempt_timeout_ms as nat,
            gas_scale_factor: self.gas_scale_factor as nat,
            cycle_period_ms: self.cycle_period_ms as nat,
            gas_price_cap: self.gas_price_cap as nat,
        }
    }
}

impl RetryPolicy {
    /// What holds of every policy value.
    #[verifier::type_invariant]
    pub open spec fn well_formed(&self) -> bool {
        self@.valid() && self@.representable()
    }

    /// Validates the parameters and builds the policy. Times are in
    /// milliseconds; `gas_price_cap` is the highest gas price that the
    /// provider accepts (`u128::MAX` where it has no limit).
    pub fn new(
        max_attempts: u32,
        per_attempt_timeout_ms: u64,
        gas_scale_factor: u64,
        cycle_period_ms: u64,
        gas_price_cap: u128,
    ) -> (made: Result<RetryPolicy, PolicyError>)
        ensures
            match policy_defect(
                max_attempts as nat,
                per_attempt_timeout_ms as nat,
                gas_scale_factor as nat,
            ) {
                Some(defect) => made == Err::<RetryPolicy, PolicyError>(defect),
                None => made is Ok && made->Ok_0.well_formed() && made->Ok_0@ == (PolicyModel {
                    max_attempts: max_attempts as nat,
                    per_attempt_timeout_ms: per_attempt_timeout_ms as nat,
                    gas_scale_factor: gas_scale_factor as nat,
                    cycle_period_ms: cycle_period_ms as nat,
                    gas_price_cap: gas_price_cap as nat,
                }),
            },
    {
        if max_attempts == 0 {
            Err(PolicyError::NoAttempts)
        } else if per_attempt_timeout_ms == 0 {
            Err(PolicyError::NoTimeout)
        } else if gas_scale_factor == 0 {
            Err(PolicyError::ScaleFactorBelowOne)
        } else {
            Ok(
                RetryPolicy {
                    max_attempts,
                    per_attempt_timeout_ms,
                    gas_scale_factor,
                    cycle_period_ms,
                    gas_price_cap,
                },
            )
        }
    }

    /// The most attempts that one cycle makes.
    pub fn max_attempts(&self) -> (n: u32)
        ensures
            n == self@.max_attempts,
            n >= 1,
    {
        proof {
            use_type_invariant(self);
        }
        self.max_attempts
    }

    /// How long one attempt waits for its receipt, in milliseconds.
    pub fn per_attempt_timeout_ms(&self) -> (ms: u64)
        ensures
            ms == self@.per_attempt_timeout_ms,
            ms > 0,
    {
        proof {
            use_type_invariant(self);
        }
        self.per_attempt_timeout_ms
    }

    /// The factor by which the gas price grows after a failed attempt.
    pub fn gas_scale_factor(&self) -> (factor: u64)
        ensures
            factor == self@.gas_scale_factor,
            factor >= 1,
    {
        proof {
            use_type_invariant(self);
        }
        self.gas_scale_factor
    }

    /// How long the watchdog sleeps after a successful cycle, in milliseconds.
    pub fn cycle_period_ms(&self) -> (ms: u64)
        ensures
            ms == self@.cycle_period_ms,
    {
        self.cycle_period_ms
    }

    /// The highest gas price that a cycle offers.
    pub fn gas_price_cap(&self) -> (cap: u128)
        ensures
            cap == self@.gas_price_cap,
    {
        self.gas_price_cap
    }
}

} // verus!
