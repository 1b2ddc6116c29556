use vstd::prelude::*;

verus! {

/// The Fibonacci numbers: `fib(0) == 0`, `fib(1) == 1`, then each is the sum of the
/// two before it.
pub open spec fn fib(n: nat) -> nat
    decreases n,
{
    if n == 0 {
        0
    } else if n == 1 {
        1
    } else {
        fib((n - 1) as nat) + fib((n - 2) as nat)
    }
}

/// The Fibonacci numbers never decrease.
pub proof fn lemma_fib_monotonic(i: nat, j: nat)
    requires
        i <= j,
    ensures
        fib(i) <= fib(j),
    decreases j - i,
{
    if i < j {
        lemma_fib_monotonic(i, (j - 1) as nat);
        assert(fib((j - 1) as nat) <= fib(j));
    }
}

/// The Fibonacci number at position `at`; a negative position gives 1.
pub fn fib_number_at(at: i64) -> (r: i64)
    requires
        at > 0 ==> fib(at as nat) <= i64::MAX,
    ensures
        r == if at == 0 {
            0
        } else if at < 0 {
            1
        } else {
            fib(at as nat) as int
        },
{
    if at == 0 {
        return 0;
    }
    let mut prev_num: i64 = 0;
    let mut curr_num: i64 = 1;
    let mut curr_at: i64 = 1;
    while curr_at < at
        invariant
            at > 0 ==> fib(at as nat) <= i64::MAX,
            1 <= curr_at,
            curr_at < at ==> curr_at + 1 <= at,
            at > 0 ==> curr_at <= at,
            at < 0 ==> curr_at == 1,
            prev_num == fib((curr_at - 1) as nat),
            curr_num == fib(curr_at as nat),
        decreases at - curr_at,
    {
        proof {
            lemma_fib_monotonic((curr_at + 1) as nat, at as nat);
        }
        let temp_num: i64 = curr_num;
        curr_num = curr_num + prev_num;
        prev_num = temp_num;
        curr_at += 1;
    }
    curr_num
}

} // verus!
