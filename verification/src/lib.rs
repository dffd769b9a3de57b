//! Three small, independent utilities: a greeting formatter, an iterative
//! Fibonacci calculator, and a wrapping signed adder. Each is a pure,
//! stateless function with a full functional contract. The numeric
//! functions adopt silent two's-complement wraparound on overflow, and
//! their contracts state the wrapped value exactly.

use vstd::prelude::*;
use vstd::arithmetic::div_mod::{
    lemma_add_mod_noop, lemma_mod_sub_multiples_vanish, lemma_small_mod,
};
use vstd::string::StringExecFns;
use vstd::wrapping::u64_specs;

verus! {

/// The greeting built around a name: a fixed salutation, the name itself
/// verbatim, and a fixed decorative suffix.
pub open spec fn greeting(name: Seq<char>) -> Seq<char> {
    "Hello, "@ + name + "! 🦀"@
}

/// Formats a display string that embeds `name` between the fixed
/// salutation and the fixed decorative suffix. Any name is accepted,
/// the empty string included, and is echoed without validation.
pub fn greet(name: String) -> (r: String)
    ensures
        r@ == greeting(name@),
{
    let mut r: String = "Hello, ".to_owned();
    r.append(name.as_str());
    r.append("! 🦀");
    r
}

/// The Fibonacci sequence: F(0) = 0, F(1) = 1, F(n) = F(n-1) + F(n-2).
pub open spec fn fib(n: nat) -> nat
    decreases n,
{
    if n == 0 {
        0
    } else if n == 1 {
        1
    } else {
        fib((n - 2) as nat) + fib((n - 1) as nat)
    }
}

/// The n-th Fibonacci number reduced modulo 2^64: the value a 64-bit
/// register holds after computing the sequence with wraparound.
pub open spec fn fib_u64(n: nat) -> u64 {
    (fib(n) % 0x10000000000000000) as u64
}

/// One wrapped step of the recurrence: adding the two preceding residues
/// with 64-bit wraparound yields the next residue.
proof fn lemma_fib_u64_step(n: nat)
    requires
        2 <= n,
    ensures
        fib_u64(n) == u64_specs::wrapping_add(fib_u64((n - 2) as nat), fib_u64((n - 1) as nat)),
{
    let m: int = 0x10000000000000000;
    let x = fib((n - 2) as nat) as int;
    let y = fib((n - 1) as nat) as int;
    lemma_add_mod_noop(x, y, m);
    let s = x % m + y % m;
    if s > u64::MAX {
        lemma_mod_sub_multiples_vanish(s, m);
        lemma_small_mod((s - m) as nat, m as nat);
    } else {
        lemma_small_mod(s as nat, m as nat);
    }
}

/// Computes the n-th Fibonacci number iteratively, starting from the pair
/// (0, 1) and accumulating with 64-bit wraparound on each step.
///
/// The result is always F(n) modulo 2^64; whenever F(n) itself fits in
/// 64 bits (every n up to 93), the result is exactly F(n).
pub fn calculate_fibonacci(n: u32) -> (r: u64)
    ensures
        r == fib_u64(n as nat),
        fib(n as nat) <= u64::MAX ==> r == fib(n as nat),
{
    proof {
        if fib(n as nat) <= u64::MAX {
            lemma_small_mod(fib(n as nat), 0x10000000000000000);
        }
    }
    match n {
        0 => 0,
        1 => 1,
        _ => {
            let mut a: u64 = 0;
            let mut b: u64 = 1;
            let mut i: u64 = 2;
            while i <= n as u64
                invariant
                    2 <= i <= n + 1,
                    a == fib_u64((i - 2) as nat),
                    b == fib_u64((i - 1) as nat),
                decreases n + 1 - i,
            {
                proof {
                    lemma_fib_u64_step(i as nat);
                }
                let temp = a.wrapping_add(b);
                a = b;
                b = temp;
                i = i + 1;
            }
            b
        },
    }
}

/// For every index n >= 2 whose Fibonacci number is representable in 64
/// bits, the computed value is the sum of the two preceding computed
/// values, exactly as the recurrence states.
pub proof fn lemma_fib_recurrence(n: nat)
    requires
        2 <= n,
        fib(n) <= u64::MAX,
    ensures
        fib((n - 1) as nat) <= u64::MAX,
        fib((n - 2) as nat) <= u64::MAX,
        fib_u64(n) == fib_u64((n - 1) as nat) + fib_u64((n - 2) as nat),
{
    lemma_small_mod(fib(n), 0x10000000000000000);
    lemma_small_mod(fib((n - 1) as nat), 0x10000000000000000);
    lemma_small_mod(fib((n - 2) as nat), 0x10000000000000000);
}

/// Sums two signed 64-bit integers with wraparound on overflow.
///
/// When the mathematical sum fits in `i64`, the result is that sum;
/// otherwise the result is the sum shifted by 2^64 back into range.
pub fn add_numbers(a: i64, b: i64) -> (r: i64)
    ensures
        i64::MIN <= a + b <= i64::MAX ==> r == a + b,
        a + b > i64::MAX ==> r == a + b - 0x10000000000000000,
        a + b < i64::MIN ==> r == a + b + 0x10000000000000000,
{
    a.wrapping_add(b)
}

} // verus!
