//! The Fibonacci sequence, the range of it that a 32-bit signed integer can
//! hold, and the function that computes it.

use vstd::prelude::*;

verus! {

/// The largest index whose Fibonacci number fits in an `i32`.
pub const MAX_INDEX: i32 = 46;

/// The `n`-th Fibonacci number: 0, 1, 1, 2, 3, 5, 8, 13, ...
pub open spec fn fib(n: nat) -> nat
    decreases n,
{
    if n < 2 {
        n
    } else {
        fib((n - 1) as nat) + fib((n - 2) as nat)
    }
}

/// From the third on, each Fibonacci number is the sum of the two before it.
pub proof fn lemma_fib_recurrence(n: nat)
    requires
        n >= 2,
    ensures
        fib(n) == fib((n - 1) as nat) + fib((n - 2) as nat),
{
}

/// The sequence never falls: a later index gives a number at least as large.
pub proof fn lemma_fib_monotonic(i: nat, j: nat)
    requires
        i <= j,
    ensures
        fib(i) <= fib(j),
    decreases j,
{
    if i < j {
        lemma_fib_monotonic(i, (j - 1) as nat);
    }
}

/// The last Fibonacci number below 2^31 and the first one above it.
proof fn lemma_fib_around_limit()
    ensures
        fib(46) == 1_836_311_903,
        fib(47) == 2_971_215_073,
{
    // One unfolding of `fib` at a time, each resting on the two lines before it.
    assert(fib(0) == 0);
    assert(fib(1) == 1);
    assert(fib(2) == 1);
    assert(fib(3) == 2);
    assert(fib(4) == 3);
    assert(fib(5) == 5);
    assert(fib(6) == 8);
    assert(fib(7) == 13);
    assert(fib(8) == 21);
    assert(fib(9) == 34);
    assert(fib(10) == 55);
    assert(fib(11) == 89);
    assert(fib(12) == 144);
    assert(fib(13) == 233);
    assert(fib(14) == 377);
    assert(fib(15) == 610);
    assert(fib(16) == 987);
    assert(fib(17) == 1_597);
    assert(fib(18) == 2_584);
    assert(fib(19) == 4_181);
    assert(fib(20) == 6_765);
    assert(fib(21) == 10_946);
    assert(fib(22) == 17_711);
    assert(fib(23) == 28_657);
    assert(fib(24) == 46_368);
    assert(fib(25) == 75_025);
    assert(fib(26) == 121_393);
    assert(fib(27) == 196_418);
    assert(fib(28) == 317_811);
    assert(fib(29) == 514_229);
    assert(fib(30) == 832_040);
    assert(fib(31) == 1_346_269);
    assert(fib(32) == 2_178_309);
    assert(fib(33) == 3_524_578);
    assert(fib(34) == 5_702_887);
    assert(fib(35) == 9_227_465);
    assert(fib(36) == 14_930_352);
    assert(fib(37) == 24_157_817);
    assert(fib(38) == 39_088_169);
    assert(fib(39) == 63_245_986);
    assert(fib(40) == 102_334_155);
    assert(fib(41) == 165_580_141);
    assert(fib(42) == 267_914_296);
    assert(fib(43) == 433_494_437);
    assert(fib(44) == 701_408_733);
    assert(fib(45) == 1_134_903_170);
    assert(fib(46) == 1_836_311_903);
    assert(fib(47) == 2_971_215_073);
}

/// A Fibonacci number fits in an `i32` exactly when its index is at most
/// `MAX_INDEX`.
pub proof fn lemma_fib_fits_i32(n: nat)
    ensures
        fib(n) <= i32::MAX <==> n <= MAX_INDEX,
{
    lemma_fib_around_limit();
    if n <= 46 {
        lemma_fib_monotonic(n, 46);
    } else {
        lemma_fib_monotonic(47, n);
    }
}

/// The result of `fib_num` depends on the index alone: whatever two calls
/// with one index return, they return the same number.
pub proof fn lemma_fib_num_deterministic(n: i32, first: i32, second: i32)
    requires
        0 <= n <= MAX_INDEX,
        call_ensures(fib_num, (n,), first),
        call_ensures(fib_num, (n,), second),
    ensures
        first == second,
{
}

/// What `fib_num` returns at an index from 2 on is the sum of what it returns
/// at the two indices before.
pub proof fn lemma_fib_num_recurrence(n: i32, at_n: i32, one_before: i32, two_before: i32)
    requires
        2 <= n <= MAX_INDEX,
        call_ensures(fib_num, (n,), at_n),
        call_ensures(fib_num, ((n - 1) as i32,), one_before),
        call_ensures(fib_num, ((n - 2) as i32,), two_before),
    ensures
        at_n == one_before + two_before,
{
}

/// The Fibonacci numbers at `n - 1` and at `n`, in that order.
fn fib_pair(n: i32) -> (pair: (i32, i32))
    requires
        1 <= n <= MAX_INDEX,
    ensures
        pair.0 == fib((n - 1) as nat),
        pair.1 == fib(n as nat),
    decreases n,
{
    if n == 1 {
        (0, 1)
    } else {
        let below: (i32, i32) = fib_pair(n - 1);
        proof {
            lemma_fib_fits_i32(n as nat);
        }
        (below.1, below.0 + below.1)
    }
}

/// The `n`-th Fibonacci number, for every index at which it fits in an
/// `i32`. A negative index has no Fibonacci number, and past `MAX_INDEX` the
/// number is too large for the result type.
pub fn fib_num(n: i32) -> (value: i32)
    requires
        0 <= n <= MAX_INDEX,
    ensures
        value == fib(n as nat),
{
    if n == 0 {
        0
    } else {
        fib_pair(n).1
    }
}

} // verus!
