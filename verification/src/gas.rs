//! Gas price escalation: multiply by the scale factor, never above the cap.

use vstd::arithmetic::power::{lemma_pow0, lemma_pow_positive, pow};
use vstd::prelude::*;

verus! {

/// `price`, or `cap` where `price` exceeds it.
pub open spec fn capped(price: nat, cap: nat) -> nat {
    if price <= cap {
        price
    } else {
        cap
    }
}

/// `factor` raised to the power `exp`.
pub open spec fn scale_power(factor: nat, exp: nat) -> nat {
    pow(factor as int, exp) as nat
}

/// The gas price offered on attempt `attempt` (counted from zero) of a cycle
/// that fetched `initial` from the chain: `initial * factor^attempt`, capped.
pub open spec fn scheduled_gas_price(initial: nat, factor: nat, cap: nat, attempt: nat) -> nat {
    capped(initial * scale_power(factor, attempt), cap)
}

/// One escalation step from `price`.
pub open spec fn escalated(price: nat, factor: nat, cap: nat) -> nat {
    capped(price * factor, cap)
}

/// The schedule starts at the fetched price, capped.
pub proof fn lemma_schedule_start(initial: nat, factor: nat, cap: nat)
    ensures
        scheduled_gas_price(initial, factor, cap, 0) == capped(initial, cap),
{
    lemma_pow0(factor as int);
    assert(scale_power(factor, 0) == 1);
    assert(initial * scale_power(factor, 0) == initial);
}

/// Escalating the scheduled price of one attempt gives the scheduled price of
/// the next, for every scale factor of at least one.
pub proof fn lemma_schedule_step(initial: nat, factor: nat, cap: nat, attempt: nat)
    requires
        factor >= 1,
    ensures
        scheduled_gas_price(initial, factor, cap, attempt) <= cap,
        escalated(scheduled_gas_price(initial, factor, cap, attempt), factor, cap)
            == scheduled_gas_price(initial, factor, cap, attempt + 1),
{
    let f = factor as int;
    let p = pow(f, attempt);
    lemma_pow_positive(f, attempt);
    lemma_pow_positive(f, attempt + 1);
    assert(pow(f, attempt + 1) == f * p) by {
        reveal(pow);
    }
    let raw = initial * p;
    assert(raw >= 0) by (nonlinear_arith)
        requires
            initial >= 0,
            p > 0,
            raw == initial * p,
    ;
    assert(initial * (f * p) == raw * f) by (nonlinear_arith)
        requires
            raw == initial * p,
    ;
    if raw > cap {
        assert(raw * f >= raw) by (nonlinear_arith)
            requires
                raw >= 0,
                f >= 1,
        ;
        assert(cap * f >= cap) by (nonlinear_arith)
            requires
                cap >= 0,
                f >= 1,
        ;
    }
}

/// The price for the next attempt after a failed one at `price`.
pub fn escalate(price: u128, factor: u64, cap: u128) -> (next: u128)
    ensures
        next == escalated(price as nat, factor as nat, cap as nat),
{
    match price.checked_mul(factor as u128) {
        Some(raised) => if raised <= cap {
            raised
        } else {
            cap
        },
        None => cap,
    }
}

} // verus!
