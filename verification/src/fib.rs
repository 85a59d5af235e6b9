//! The Fibonacci sequence, iteratively, with a proof that the running pair
//! never overflows when the requested value itself fits in `u32`.

use vstd::prelude::*;

verus! {

/// The Fibonacci sequence: 0, 1, 1, 2, 3, 5, ...
pub open spec fn spec_fib(n: nat) -> nat
    decreases n,
{
    if n == 0 {
        0
    } else if n == 1 {
        1
    } else {
        spec_fib((n - 2) as nat) + spec_fib((n - 1) as nat)
    }
}

/// Each Fibonacci number is at least its predecessor.
proof fn lemma_fib_step(j: nat)
    requires
        j >= 1,
    ensures
        spec_fib((j - 1) as nat) <= spec_fib(j),
{
}

/// The Fibonacci sequence never decreases.
proof fn lemma_fib_monotonic(i: nat, j: nat)
    requires
        i <= j,
    ensures
        spec_fib(i) <= spec_fib(j),
    decreases j - i,
{
    if i < j {
        lemma_fib_monotonic(i, (j - 1) as nat);
        lemma_fib_step(j);
    }
}

/// The `n`th Fibonacci number, for every `n` whose value fits in `u32`.
pub fn fibonnacci(n: u32) -> (r: u32)
    requires
        spec_fib(n as nat) <= u32::MAX,
    ensures
        r == spec_fib(n as nat),
{
    if n == 0 {
        return 0;
    } else if n == 1 {
        return 1;
    }
    let mut prev: u32 = 0;
    let mut next: u32 = 1;
    let mut i: u64 = 2;
    while i <= n as u64
        invariant
            2 <= i <= n + 1,
            n >= 2,
            spec_fib(n as nat) <= u32::MAX,
            prev == spec_fib((i - 2) as nat),
            next == spec_fib((i - 1) as nat),
        decreases n + 1 - i,
    {
        proof {
            lemma_fib_monotonic(i as nat, n as nat);
        }
        let temp = next;
        next = prev + next;
        prev = temp;
        i = i + 1;
    }
    next
}

} // verus!
