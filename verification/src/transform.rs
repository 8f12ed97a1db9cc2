//! The numeric payload: the Collatz iteration with a step budget.
//!
//! `transform_number(num, max_iterations)` iterates the Collatz rule
//! (even `n` goes to `n / 2`, odd `n` goes to `3 * n + 1`) starting from
//! `num`, stopping as soon as the working value reaches 1 or the budget of
//! `max_iterations` steps is spent. If the value reached 1, the number of
//! steps taken is returned; otherwise the residual value at cutoff is
//! returned. The two outcomes are deliberately indistinguishable in the
//! return type, for compatibility with the established behaviour.
//!
//! Overflow policy: the odd step `3 * n + 1` wraps around modulo 2^64
//! (wrapping arithmetic), which the specification states explicitly.

use vstd::prelude::*;

verus! {

/// One step of the Collatz rule on a 64-bit value: halve an even value,
/// map an odd value to `3 * n + 1` reduced modulo 2^64 (wrap-around).
pub open spec fn collatz_step(n: u64) -> u64 {
    if n % 2 == 0 {
        (n / 2) as u64
    } else {
        ((3 * n + 1) % 0x1_0000_0000_0000_0000) as u64
    }
}

/// The working value after iterating `collatz_step` from `n`, stopping
/// at 1 or after `fuel` steps, whichever comes first.
pub open spec fn collatz_value(n: u64, fuel: nat) -> u64
    decreases fuel,
{
    if n == 1 || fuel == 0 {
        n
    } else {
        collatz_value(collatz_step(n), (fuel - 1) as nat)
    }
}

/// The number of steps actually taken when iterating `collatz_step`
/// from `n`, stopping at 1 or after `fuel` steps, whichever comes first.
pub open spec fn collatz_steps(n: u64, fuel: nat) -> nat
    decreases fuel,
{
    if n == 1 || fuel == 0 {
        0
    } else {
        1 + collatz_steps(collatz_step(n), (fuel - 1) as nat)
    }
}

/// What the transform returns: the step count if the iteration reached 1
/// within the budget, the residual working value otherwise.
pub open spec fn transform_spec(n: u64, fuel: nat) -> u64 {
    if collatz_value(n, fuel) == 1 {
        collatz_steps(n, fuel) as u64
    } else {
        collatz_value(n, fuel)
    }
}

/// The step count never exceeds the budget.
proof fn lemma_steps_le_fuel(n: u64, fuel: nat)
    ensures
        collatz_steps(n, fuel) <= fuel,
    decreases fuel,
{
    if n == 1 || fuel == 0 {
    } else {
        lemma_steps_le_fuel(collatz_step(n), (fuel - 1) as nat);
    }
}

/// The wrapping operations compute exactly the odd Collatz step.
proof fn lemma_wrapping_odd_step(n: u64)
    requires
        n % 2 != 0,
    ensures
        n.wrapping_mul(3).wrapping_add(1) == collatz_step(n),
{
    let r: int = 0x1_0000_0000_0000_0000;
    let m: u64 = n.wrapping_mul(3);
    assert(m == (3 * n) % r) by {
        vstd::arithmetic::div_mod::lemma_mod_bound(3 * n, r);
    }
    vstd::arithmetic::div_mod::lemma_add_mod_noop(3 * n, 1, r);
    vstd::arithmetic::div_mod::lemma_small_mod(1nat, r as nat);
    if m == u64::MAX {
        assert((m + 1) % r == 0) by {
            vstd::arithmetic::div_mod::lemma_mod_self_0(r);
        }
    } else {
        vstd::arithmetic::div_mod::lemma_small_mod((m + 1) as nat, r as nat);
    }
}

/// Count the Collatz steps from `num` to 1, giving up after
/// `max_iterations` steps: return the step count if 1 was reached, the
/// residual working value otherwise. The odd step wraps modulo 2^64.
pub fn transform_number(num: u64, max_iterations: usize) -> (r: u64)
    ensures
        r == transform_spec(num, max_iterations as nat),
{
    let ghost orig: u64 = num;
    let ghost full: nat = max_iterations as nat;
    let mut num = num;
    let mut count: usize = 0;
    while num != 1 && count < max_iterations
        invariant
            count <= max_iterations,
            collatz_value(orig, full) == collatz_value(num, (max_iterations - count) as nat),
            collatz_steps(orig, full) == count + collatz_steps(
                num,
                (max_iterations - count) as nat,
            ),
        decreases max_iterations - count,
    {
        num = if num % 2 == 0 {
            num / 2
        } else {
            proof {
                lemma_wrapping_odd_step(num);
            }
            num.wrapping_mul(3).wrapping_add(1)
        };
        count += 1;
    }
    if num == 1 {
        proof {
            lemma_steps_le_fuel(orig, full);
        }
        count as u64
    } else {
        num
    }
}

/// A value of 1 is already at the iteration's fixed target, so the step
/// count is 0 whatever the budget.
pub proof fn lemma_transform_one(fuel: nat)
    ensures
        transform_spec(1, fuel) == 0,
{
}

/// With a zero budget the loop never executes, and any starting value
/// other than 1 comes back unchanged as the residual value. (Starting
/// from 1 the result is the step count 0 instead.)
pub proof fn lemma_transform_zero_budget(n: u64)
    requires
        n != 1,
    ensures
        transform_spec(n, 0) == n,
{
}

} // verus!
