use vstd::prelude::*;
use vstd::arithmetic::div_mod::{lemma_div_is_ordered, lemma_fundamental_div_mod, lemma_mod_multiples_basic};
use crate::env::{lemma_seq_sum_prefix, seq_sum};
use crate::schema::{ErrorInfo, ERR_CORRECTNESS_CHECK_FAILED};
use crate::text::{decimal, push_decimal};
use std::time::Instant;

verus! {

/// Segment width of the segmented sieve, in numbers per segment.
pub const SEGMENT_SIZE: usize = 32768;

/// `n` is a prime number.
pub open spec fn is_prime(n: int) -> bool {
    &&& n >= 2
    &&& forall|d: int| 2 <= d < n ==> #[trigger] (n % d) != 0
}

/// The number of primes in `[2, n]`.
pub open spec fn prime_count(n: int) -> nat
    decreases n,
{
    if n < 2 {
        0
    } else {
        prime_count(n - 1) + if is_prime(n) { 1nat } else { 0nat }
    }
}

/// `s` lists exactly the primes up to `limit`, in increasing order.
pub open spec fn lists_primes_upto(s: Seq<u64>, limit: int) -> bool {
    &&& forall|i: int| 0 <= i < s.len() ==> is_prime(#[trigger] s[i] as int) && s[i] <= limit
    &&& forall|i: int, j: int| 0 <= i < j < s.len() ==> s[i] < s[j]
    &&& forall|p: int| 2 <= p <= limit && is_prime(p) ==> exists|i: int| 0 <= i < s.len() && #[trigger] s[i] == p
}

/// The number of primes up to `limit` for the limits that the workload presets use,
/// as published; `None` for any other limit.
pub open spec fn spec_known_pi(limit: u64) -> Option<u64> {
    if limit == 10 { Some(4) }
    else if limit == 100 { Some(25) }
    else if limit == 1_000 { Some(168) }
    else if limit == 10_000 { Some(1_229) }
    else if limit == 100_000 { Some(9_592) }
    else if limit == 1_000_000 { Some(78_498) }
    else if limit == 10_000_000 { Some(664_579) }
    else if limit == 100_000_000 { Some(5_761_455) }
    else if limit == 1_000_000_000 { Some(50_847_534) }
    else { None }
}

/// Looks up the published prime count for `limit`.
pub fn known_pi(limit: u64) -> (r: Option<u64>)
    ensures r == spec_known_pi(limit),
{
    match limit {
        10 => Some(4),
        100 => Some(25),
        1_000 => Some(168),
        10_000 => Some(1_229),
        100_000 => Some(9_592),
        1_000_000 => Some(78_498),
        10_000_000 => Some(664_579),
        100_000_000 => Some(5_761_455),
        1_000_000_000 => Some(50_847_534),
        _ => None,
    }
}

/// A number with a divisor `d >= 2` whose square does not exceed it is not prime.
pub proof fn lemma_divisor_not_prime(k: int, d: int)
    requires
        2 <= d,
        d * d <= k,
        k % d == 0,
    ensures
        !is_prime(k),
{
    assert(d < k) by (nonlinear_arith)
        requires 2 <= d, d * d <= k;
    assert(2 <= d < k && k % d == 0);
}

/// Every composite number `k >= 2` has a divisor `d >= 2` with `d * d <= k`.
pub proof fn lemma_small_divisor(k: int) -> (d: int)
    requires
        k >= 2,
        !is_prime(k),
    ensures
        2 <= d,
        d * d <= k,
        k % d == 0,
{
    let d0 = choose|d0: int| 2 <= d0 < k && #[trigger] (k % d0) == 0;
    lemma_fundamental_div_mod(k, d0);
    let e = k / d0;
    assert(k == d0 * e);
    assert(e >= 2) by (nonlinear_arith)
        requires k == d0 * e, 2 <= d0 < k;
    if d0 <= e {
        assert(d0 * d0 <= k) by (nonlinear_arith)
            requires k == d0 * e, 2 <= d0 <= e;
        d0
    } else {
        assert(e * e <= k) by (nonlinear_arith)
            requires k == d0 * e, 2 <= e < d0;
        lemma_mod_multiples_basic(d0, e);
        assert(k == e * d0) by (nonlinear_arith) requires k == d0 * e;
        e
    }
}

/// If `d` divides `k` and `q` divides `d`, then `q` divides `k`.
pub proof fn lemma_divides_trans(k: int, d: int, q: int)
    requires
        k >= 0,
        d > 0,
        q > 0,
        k % d == 0,
        d % q == 0,
    ensures
        k % q == 0,
{
    lemma_fundamental_div_mod(k, d);
    lemma_fundamental_div_mod(d, q);
    let a = k / d;
    let b = d / q;
    assert(k == q * (b * a)) by (nonlinear_arith)
        requires k == d * a, d == q * b;
    lemma_mod_multiples_basic(b * a, q);
    assert(k == (b * a) * q) by (nonlinear_arith) requires k == q * (b * a);
}

/// Lists the primes up to `limit` in increasing order (sieve of Eratosthenes).
pub fn simple_sieve(limit: u64) -> (primes: Vec<u64>)
    requires
        limit < usize::MAX / 2,
    ensures
        lists_primes_upto(primes@, limit as int),
{
    let mut primes: Vec<u64> = Vec::new();
    if limit < 2 {
        proof {
            assert forall|p: int| 2 <= p <= limit && is_prime(p) implies
                exists|i: int| 0 <= i < primes@.len() && #[trigger] primes@[i] == p by {}
        }
        return primes;
    }
    let n: usize = (limit + 1) as usize;
    let mut composite: Vec<bool> = vec![false; n];
    let mut i: usize = 2;
    while i < n
        invariant
            n == limit + 1,
            n <= usize::MAX / 2,
            2 <= i <= n,
            composite@.len() == n,
            forall|k: int| 0 <= k < n && #[trigger] composite@[k] ==> !is_prime(k),
            forall|k: int, d: int|
                2 <= d < i && 2 <= k < n && d * d <= k && #[trigger] (k % d) == 0 ==> #[trigger] composite@[k],
            forall|t: int| 0 <= t < primes@.len() ==> is_prime(#[trigger] primes@[t] as int) && primes@[t] < i,
            forall|t: int, u: int| 0 <= t < u < primes@.len() ==> primes@[t] < primes@[u],
            forall|p: int| 2 <= p < i && is_prime(p) ==> exists|t: int| 0 <= t < primes@.len() && #[trigger] primes@[t] == p,
        decreases n - i,
    {
        if !composite[i] {
            proof {
                if !is_prime(i as int) {
                    let d = lemma_small_divisor(i as int);
                    assert(d < i) by (nonlinear_arith) requires 2 <= d, d * d <= i;
                    assert(composite@[i as int]);
                }
            }
            let ghost old_primes = primes@;
            primes.push(i as u64);
            proof {
                assert forall|p: int| 2 <= p < i + 1 && is_prime(p) implies
                    exists|t: int| 0 <= t < primes@.len() && #[trigger] primes@[t] == p by {
                    if p == i {
                        assert(primes@[old_primes.len() as int] == p);
                    } else {
                        let t = choose|t: int| 0 <= t < old_primes.len() && #[trigger] old_primes[t] == p;
                        assert(primes@[t] == p);
                    }
                }
            }
            let sq: usize = match i.checked_mul(i) {
                Some(v) => v,
                None => usize::MAX,
            };
            let mut j: usize = sq;
            let ghost mut m: int = i as int;
            proof {
                if sq == usize::MAX {
                    assert(i * i >= n) by (nonlinear_arith) requires i * i > usize::MAX || i * i == usize::MAX, n <= usize::MAX / 2;
                } else {
                    assert(j == i * m);
                }
                if j >= n {
                    assert forall|s: int| s >= m implies #[trigger] (i * s) >= n by {
                        assert(i * s >= i * m) by (nonlinear_arith) requires s >= m, i >= 2;
                    }
                }
            }
            let ghost before = composite@;
            while j < n
                invariant
                    n == limit + 1,
                    n <= usize::MAX / 2,
                    2 <= i < n,
                    is_prime(i as int),
                    composite@.len() == n,
                    i <= m <= n,
                    j >= n || j == i * m,
                    j >= n ==> forall|s: int| s >= m ==> #[trigger] (i * s) >= n,
                    forall|k: int| 0 <= k < n ==> (#[trigger] composite@[k] <==> (before[k]
                        || exists|s: int| i <= s < m && k == #[trigger] (i * s))),
                decreases n - m,
            {
                assert(m < n) by (nonlinear_arith) requires j == i * m, j < n, i >= 2, m >= 2;
                composite.set(j, true);
                proof {
                    assert forall|k: int| 0 <= k < n implies (#[trigger] composite@[k] <==> (before[k]
                        || exists|s: int| i <= s < m + 1 && k == #[trigger] (i * s))) by {
                        if k == j {
                            assert(k == i * m);
                        } else if exists|s: int| i <= s < m + 1 && k == #[trigger] (i * s) {
                            let s = choose|s: int| i <= s < m + 1 && k == #[trigger] (i * s);
                            if s == m {
                                assert(k == j);
                            }
                        }
                    }
                }
                j = j + i;
                proof {
                    m = m + 1;
                    assert(j == i * m) by (nonlinear_arith) requires j == i * (m - 1) + i;
                    if j >= n {
                        assert forall|s: int| s >= m implies #[trigger] (i * s) >= n by {
                            assert(i * s >= i * m) by (nonlinear_arith) requires s >= m, i >= 2;
                        }
                    }
                }
            }
            proof {
                // every mark is a multiple of i at or above i * i, hence composite
                assert forall|k: int| 0 <= k < n && #[trigger] composite@[k] implies !is_prime(k) by {
                    if !before[k] {
                        let s = choose|s: int| i <= s < m && k == #[trigger] (i * s);
                        lemma_mod_multiples_basic(s, i as int);
                        assert(k == s * i) by (nonlinear_arith) requires k == i * s;
                        assert(i * i <= k) by (nonlinear_arith) requires k == i * s, i <= s, i >= 2;
                        lemma_divisor_not_prime(k, i as int);
                    }
                }
                assert forall|k: int, d: int|
                    2 <= d < i + 1 && 2 <= k < n && d * d <= k && #[trigger] (k % d) == 0 implies #[trigger] composite@[k] by {
                    if d < i {
                        assert(before[k]);
                    } else {
                        lemma_fundamental_div_mod(k, d);
                        let s = k / d;
                        assert(k == i * s);
                        assert(s >= i) by (nonlinear_arith) requires k == i * s, i * i <= k, i >= 2;
                        if s >= m {
                            assert(i * s >= n);
                        }
                    }
                }
            }
        } else {
            proof {
                assert(!is_prime(i as int));
                let q = lemma_small_divisor(i as int);
                assert(q < i) by (nonlinear_arith) requires 2 <= q, q * q <= i;
                assert forall|k: int, d: int|
                    2 <= d < i + 1 && 2 <= k < n && d * d <= k && #[trigger] (k % d) == 0 implies #[trigger] composite@[k] by {
                    if d == i {
                        lemma_divides_trans(k, i as int, q);
                        assert(q * q <= k) by (nonlinear_arith) requires q * q <= i, i * i <= k, 2 <= q, 2 <= i;
                    }
                }
            }
        }
        i = i + 1;
    }
    primes
}


/// Every composite number `x >= 2` has a prime divisor `q` with `q * q <= x`.
pub proof fn lemma_prime_divisor(x: int) -> (q: int)
    requires
        x >= 2,
        !is_prime(x),
    ensures
        is_prime(q),
        q * q <= x,
        x % q == 0,
    decreases x,
{
    let d = lemma_small_divisor(x);
    assert(d < x) by (nonlinear_arith) requires 2 <= d, d * d <= x;
    if is_prime(d) {
        d
    } else {
        let q = lemma_prime_divisor(d);
        lemma_divides_trans(x, d, q);
        assert(q * q <= x) by (nonlinear_arith) requires q * q <= d, d * d <= x, 2 <= d;
        q
    }
}

/// There are at most `n` primes in `[2, n]`.
pub proof fn lemma_prime_count_bound(n: int)
    requires n >= 0,
    ensures prime_count(n) <= n,
    decreases n,
{
    if n >= 2 {
        lemma_prime_count_bound(n - 1);
    }
}

/// The integer square root: the largest `r` with `r * r <= n`.
fn isqrt(n: u64) -> (r: u64)
    ensures
        r * r <= n,
        n < (r + 1) * (r + 1),
{
    let mut lo: u64 = 0;
    let mut hi: u64 = 0x1_0000_0000;
    assert(n < hi * hi) by (nonlinear_arith) requires hi == 0x1_0000_0000, n <= u64::MAX;
    while hi - lo > 1
        invariant
            lo < hi <= 0x1_0000_0000,
            lo * lo <= n,
            n < hi * hi,
        decreases hi - lo,
    {
        let mid: u64 = lo + (hi - lo) / 2;
        assert(mid * mid <= 0xffff_ffff * 0xffff_ffff) by (nonlinear_arith)
            requires mid < 0x1_0000_0000;
        if mid * mid <= n {
            lo = mid;
        } else {
            hi = mid;
        }
    }
    lo
}

/// The first multiple of `p` that is at least `p * p` and at least `low`:
/// where the segmented sieve starts crossing out multiples of `p` in a segment.
pub fn first_multiple_in_range(p: u64, low: u64) -> (r: u64)
    requires
        p >= 1,
        p * p <= u64::MAX,
        p * p >= low || low % p == 0 || low + (p - low % p) <= u64::MAX,
    ensures
        r % p == 0,
        r >= p * p,
        r >= low,
        r == p * p || r < low + p,
{
    let start = p * p;
    if start >= low {
        proof { lemma_mod_multiples_basic(p as int, p as int); }
        return start;
    }
    let rem = low % p;
    if rem == 0 {
        low
    } else {
        proof {
            lemma_fundamental_div_mod(low as int, p as int);
            let q = low / p;
            assert(low + (p - rem) == (q + 1) * p) by (nonlinear_arith)
                requires low == p * q + rem;
            lemma_mod_multiples_basic(q + 1, p as int);
        }
        low + (p - rem)
    }
}

/// Where the segmented sieve's table of base primes (about the square root of
/// `limit` entries) can be indexed: always where `usize` has 64 bits; on narrower
/// targets, limits below the square of half the address space.
pub open spec fn base_table_fits(limit: u64) -> bool {
    (limit as int) < (usize::MAX as int / 2 - 1) * (usize::MAX as int / 2 - 1)
}

/// 2^32 is not prime, so every base prime of a `u64` limit is below it.
proof fn lemma_two_pow_32_not_prime()
    ensures !is_prime(0x1_0000_0000),
{
    assert((0x1_0000_0000int) % 2 == 0);
}

/// The first multiple of `p` at or above both `p * p` and `low`, as a number.
spec fn next_multiple(p: int, low: int) -> int {
    if p * p >= low { p * p } else if low % p == 0 { low } else { low + (p - low % p) }
}

proof fn lemma_next_multiple(p: int, low: int)
    requires
        p >= 1,
        low >= 0,
    ensures
        next_multiple(p, low) % p == 0,
        next_multiple(p, low) >= p * p,
        next_multiple(p, low) >= low,
        next_multiple(p, low) == p * p || next_multiple(p, low) < low + p,
{
    if p * p >= low {
        lemma_mod_multiples_basic(p, p);
    } else if low % p == 0 {
    } else {
        lemma_fundamental_div_mod(low, p);
        let q = low / p;
        let rem = low % p;
        assert(low + (p - rem) == (q + 1) * p) by (nonlinear_arith)
            requires low == p * q + rem;
        lemma_mod_multiples_basic(q + 1, p);
    }
}

/// Only one value meets the contract of `first_multiple_in_range`.
proof fn lemma_first_multiple_unique(p: int, low: int, f: int)
    requires
        p >= 1,
        low >= 0,
        f % p == 0,
        f >= p * p,
        f >= low,
        f == p * p || f < low + p,
    ensures
        f == next_multiple(p, low),
{
    lemma_next_multiple(p, low);
    let g = next_multiple(p, low);
    lemma_fundamental_div_mod(f, p);
    lemma_fundamental_div_mod(g, p);
    let a = f / p;
    let b = g / p;
    if f != g {
        assert(false) by (nonlinear_arith)
            requires f == p * a, g == p * b, f != g, f >= p * p, g >= p * p, f >= low, g >= low,
                f == p * p || f < low + p, g == p * p || g < low + p, p >= 1;
    }
}

/// Whether the segmented sieve crosses `x` out on behalf of `p`: `x` is a multiple
/// of `p` at or above `p * p`.
pub open spec fn crossed_out_by(p: int, x: int) -> bool {
    x % p == 0 && x >= p * p
}

/// `x` is crossed out by one of the first `t_end` base primes.
pub open spec fn crossed_out(base: Seq<u64>, t_end: int, x: int) -> bool {
    exists|t: int| 0 <= t < t_end && #[trigger] crossed_out_by(base[t] as int, x)
}

/// Counts the primes up to `limit` with a segmented sieve of Eratosthenes.
///
/// The base primes reach just past the square root of `limit`; each segment of
/// `SEGMENT_SIZE` numbers is crossed out with them and its survivors counted.
pub fn segmented_sieve_count(limit: u64) -> (count: u64)
    requires
        limit <= u64::MAX - SEGMENT_SIZE,
        base_table_fits(limit),
    ensures
        count == prime_count(limit as int),
{
    if limit < 2 {
        return 0;
    }
    count_primes_between(2, limit)
}

/// The number of primes in `[low, high]`.
pub open spec fn primes_between(low: int, high: int) -> int {
    if high < low { 0 } else { prime_count(high) - prime_count(low - 1) }
}

/// Counts the primes in `[low, high]` with a segmented sieve of Eratosthenes: the
/// base primes reach just past the square root of `high`; each segment of
/// `SEGMENT_SIZE` numbers from `low` on is crossed out with them and its survivors
/// counted.
pub fn count_primes_between(low: u64, high: u64) -> (count: u64)
    requires
        2 <= low,
        high <= u64::MAX - SEGMENT_SIZE,
        base_table_fits(high),
    ensures
        count == primes_between(low as int, high as int),
{
    if high < low {
        return 0;
    }
    let lo = low;
    let limit = high;
    let r = isqrt(limit);
    assert(r <= 0xffff_ffff) by (nonlinear_arith)
        requires r * r <= limit, limit <= u64::MAX;
    let ghost m: int = usize::MAX as int / 2 - 1;
    assert(r + 1 < usize::MAX / 2) by (nonlinear_arith)
        requires r * r <= limit, limit < m * m, m == usize::MAX as int / 2 - 1, m > 0, r >= 0;
    let sqrt_limit: u64 = r + 1;
    let base_primes = simple_sieve(sqrt_limit);

    let mut count: u64 = 0;
    let mut buf: Vec<bool> = vec![false; SEGMENT_SIZE];
    let mut low: u64 = lo;
    let seg: u64 = SEGMENT_SIZE as u64;

    while low <= limit
        invariant
            2 <= lo <= low <= limit + seg,
            lo <= limit,
            seg == SEGMENT_SIZE,
            limit <= u64::MAX - SEGMENT_SIZE,
            r * r <= limit < (r + 1) * (r + 1),
            r <= 0xffff_ffff,
            r + 1 < usize::MAX / 2,
            sqrt_limit == r + 1,
            lists_primes_upto(base_primes@, sqrt_limit as int),
            buf@.len() == SEGMENT_SIZE,
            count == prime_count(if low - 1 < limit { low - 1 } else { limit as int }) - prime_count(lo - 1),
        decreases limit + seg - low,
    {
        let high: u64 = if low + seg - 1 < limit { low + seg - 1 } else { limit };
        let span: usize = (high - low + 1) as usize;

        let mut c: usize = 0;
        while c < span
            invariant
                span <= SEGMENT_SIZE,
                buf@.len() == SEGMENT_SIZE,
                c <= span,
                forall|k: int| 0 <= k < c ==> !#[trigger] buf@[k],
            decreases span - c,
        {
            buf.set(c, false);
            c = c + 1;
        }

        let mut bi: usize = 0;
        while bi < base_primes.len()
            invariant
                2 <= low <= high <= limit,
                high - low + 1 == span,
                span <= SEGMENT_SIZE,
                limit <= u64::MAX - SEGMENT_SIZE,
                r <= 0xffff_ffff,
                r + 1 < usize::MAX / 2,
                sqrt_limit == r + 1,
                lists_primes_upto(base_primes@, sqrt_limit as int),
                buf@.len() == SEGMENT_SIZE,
                bi <= base_primes@.len(),
                forall|k: int| 0 <= k < span ==>
                    (#[trigger] buf@[k] <==> crossed_out(base_primes@, bi as int, low + k)),
            ensures
                buf@.len() == SEGMENT_SIZE,
                forall|k: int| 0 <= k < span ==>
                    (#[trigger] buf@[k] <==> crossed_out(base_primes@, base_primes@.len() as int, low + k)),
            decreases base_primes@.len() - bi,
        {
            let p = base_primes[bi];
            proof { lemma_two_pow_32_not_prime(); }
            assert(p <= 0xffff_ffff);
            assert(p * p <= u64::MAX) by (nonlinear_arith)
                requires p <= 0xffff_ffff;
            if p * p > high {
                proof {
                    assert forall|k: int| 0 <= k < span implies
                        (#[trigger] buf@[k] <==> crossed_out(base_primes@, base_primes@.len() as int, low + k)) by {
                        if crossed_out(base_primes@, base_primes@.len() as int, low + k) {
                            let t = choose|t: int| 0 <= t < base_primes@.len()
                                && #[trigger] crossed_out_by(base_primes@[t] as int, low + k);
                            if t >= bi {
                                let q = base_primes@[t];
                                assert(q >= p);
                                assert(q * q >= p * p) by (nonlinear_arith) requires q >= p, p >= 0;
                                assert(false);
                            }
                        }
                    }
                }
                break;
            }
            // Where the next multiple of `p` from `low` on would not fit in a `u64`,
            // it lies past the segment anyway.
            let fits = p * p >= low || low % p == 0 || p - low % p <= high - low;
            let first: u64 = if fits { first_multiple_in_range(p, low) } else { high + 1 };
            let ghost g: int = next_multiple(p as int, low as int);
            proof {
                lemma_next_multiple(p as int, low as int);
                if fits {
                    lemma_first_multiple_unique(p as int, low as int, first as int);
                }
            }
            if first <= high {
                let ghost before = buf@;
                let ghost m0: int = first as int / p as int;
                proof {
                    lemma_fundamental_div_mod(first as int, p as int);
                }
                let mut j: usize = (first - low) as usize;
                let step: usize = p as usize;
                assert(step < usize::MAX / 2);
                let ghost mut m: int = m0;
                while j < span
                    invariant
                        2 <= p,
                        step == p,
                        step < usize::MAX / 2,
                        j < span + step,
                        span <= SEGMENT_SIZE,
                        buf@.len() == SEGMENT_SIZE,
                        first == p * m0,
                        m >= m0,
                        low + j == p * m,
                        forall|k: int| 0 <= k < span ==> (#[trigger] buf@[k] <==> (before[k]
                            || exists|s: int| m0 <= s < m && low + k == #[trigger] (p * s))),
                    decreases span + step - j,
                {
                    buf.set(j, true);
                    proof {
                        assert forall|k: int| 0 <= k < span implies (#[trigger] buf@[k] <==> (before[k]
                            || exists|s: int| m0 <= s < m + 1 && low + k == #[trigger] (p * s))) by {
                            if k == j {
                                assert(low + k == p * m);
                            } else if exists|s: int| m0 <= s < m + 1 && low + k == #[trigger] (p * s) {
                                let s = choose|s: int| m0 <= s < m + 1 && low + k == #[trigger] (p * s);
                                if s == m {
                                    assert(k == j);
                                }
                            }
                        }
                    }
                    j = j + step;
                    proof {
                        m = m + 1;
                        assert(low + j == p * m) by (nonlinear_arith) requires low + j == p * (m - 1) + p;
                    }
                }
                proof {
                    assert forall|k: int| 0 <= k < span implies
                        (#[trigger] buf@[k] <==> crossed_out(base_primes@, bi + 1, low + k)) by {
                        let x = low + k;
                        if crossed_out_by(p as int, x) {
                            lemma_fundamental_div_mod(x, p as int);
                            let s = x / p as int;
                            assert(x == p * s);
                            // x is a multiple of p at or above first, so s >= m0
                            assert(s >= m0) by (nonlinear_arith)
                                requires x == p * s, first == p * m0, x >= p * p, x >= low,
                                    first == p * p || first < low + p, p >= 2;
                            // and below the end of the segment, so s < m
                            assert(s < m) by (nonlinear_arith)
                                requires x == p * s, x == low + k, low + j == p * m, j >= span, k < span, p >= 2;
                            assert(crossed_out_by(base_primes@[bi as int] as int, x));
                        }
                        if exists|s: int| m0 <= s < m && low + k == #[trigger] (p * s) {
                            let s = choose|s: int| m0 <= s < m && low + k == #[trigger] (p * s);
                            lemma_mod_multiples_basic(s, p as int);
                            assert(x == s * p) by (nonlinear_arith) requires x == p * s;
                            assert(x >= p * p) by (nonlinear_arith)
                                requires x == p * s, s >= m0, first == p * m0, first >= p * p, p >= 2;
                            assert(crossed_out_by(base_primes@[bi as int] as int, x));
                        }
                        if crossed_out(base_primes@, bi + 1, x) {
                            let t = choose|t: int| 0 <= t < bi + 1
                                && #[trigger] crossed_out_by(base_primes@[t] as int, x);
                            if t < bi {
                                assert(crossed_out(base_primes@, bi as int, x));
                            }
                        }
                        if crossed_out(base_primes@, bi as int, x) {
                            let t = choose|t: int| 0 <= t < bi
                                && #[trigger] crossed_out_by(base_primes@[t] as int, x);
                            assert(crossed_out(base_primes@, bi + 1, x));
                        }
                    }
                }
            } else {
                proof {
                    assert forall|k: int| 0 <= k < span implies
                        (#[trigger] buf@[k] <==> crossed_out(base_primes@, bi + 1, low + k)) by {
                        let x = low + k;
                        if crossed_out_by(p as int, x) {
                            lemma_fundamental_div_mod(x, p as int);
                            lemma_fundamental_div_mod(g, p as int);
                            let s = x / p as int;
                            let s0 = g / p as int;
                            assert(false) by (nonlinear_arith)
                                requires x == p * s, g == p * s0, x >= p * p, x >= low, x <= high,
                                    g > high, g == p * p || g < low + p, p >= 2;
                        }
                        if crossed_out(base_primes@, bi + 1, x) {
                            let t = choose|t: int| 0 <= t < bi + 1
                                && #[trigger] crossed_out_by(base_primes@[t] as int, x);
                            if t < bi {
                                assert(crossed_out(base_primes@, bi as int, x));
                            }
                        }
                        if crossed_out(base_primes@, bi as int, x) {
                            let t = choose|t: int| 0 <= t < bi
                                && #[trigger] crossed_out_by(base_primes@[t] as int, x);
                            assert(crossed_out(base_primes@, bi + 1, x));
                        }
                    }
                }
            }
            bi = bi + 1;
        }

        // a number in the segment survives exactly when it is prime
        proof {
            assert forall|k: int| 0 <= k < span implies
                (!#[trigger] buf@[k] <==> is_prime(low + k)) by {
                let x = low + k;
                if crossed_out(base_primes@, base_primes@.len() as int, x) {
                    let t = choose|t: int| 0 <= t < base_primes@.len()
                        && #[trigger] crossed_out_by(base_primes@[t] as int, x);
                    let q = base_primes@[t] as int;
                    assert(is_prime(q));
                    if is_prime(x) {
                        lemma_divisor_not_prime(x, q);
                    }
                } else if !is_prime(x) {
                    let q = lemma_prime_divisor(x);
                    assert(q <= r) by (nonlinear_arith)
                        requires q * q <= x, x <= limit, limit < (r + 1) * (r + 1), q >= 2, r >= 0;
                    let t = choose|t: int| 0 <= t < base_primes@.len() && #[trigger] base_primes@[t] == q;
                    assert(crossed_out_by(base_primes@[t] as int, x));
                }
            }
        }

        let mut k: usize = 0;
        while k < span
            invariant
                2 <= low <= high <= limit,
                high - low + 1 == span,
                span <= SEGMENT_SIZE,
                buf@.len() == SEGMENT_SIZE,
                k <= span,
                2 <= lo <= low,
                count == prime_count(low + k - 1) - prime_count(lo - 1),
                forall|k2: int| 0 <= k2 < span ==> (!#[trigger] buf@[k2] <==> is_prime(low + k2)),
            decreases span - k,
        {
            if !buf[k] {
                proof { lemma_prime_count_bound(low + k); }
                count = count + 1;
            }
            k = k + 1;
        }

        low = low + seg;
    }
    count
}


/// Boundary `i` of the split of `[2, limit]` into `parts` chunks for the
/// multi-threaded sieve: chunk `i` is `[chunk_bound(i) + 1, chunk_bound(i + 1)]`,
/// the boundaries running from 1 to `limit` in near-equal steps.
pub open spec fn chunk_bound(limit: u64, parts: u32, i: int) -> int {
    if limit < 2 { 1 } else { 1 + ((limit - 1) * i) / (parts as int) }
}

/// The boundaries never decrease: the chunks follow one another.
pub proof fn lemma_chunk_bound_step(limit: u64, parts: u32, i: int)
    requires
        parts >= 1,
        0 <= i,
    ensures
        chunk_bound(limit, parts, i) <= chunk_bound(limit, parts, i + 1),
{
    if limit >= 2 {
        let a = (limit - 1) as int;
        assert(a * i <= a * (i + 1)) by (nonlinear_arith) requires a >= 0, i >= 0;
        lemma_div_is_ordered(a * i, a * (i + 1), parts as int);
    }
}

/// The boundaries of the split of `[2, limit]` into `parts` chunks (see
/// `chunk_bound`), `parts + 1` of them.
pub fn chunk_bounds(limit: u64, parts: u32) -> (b: Vec<u64>)
    requires
        parts >= 1,
    ensures
        b@.len() == parts + 1,
        forall|i: int| 0 <= i <= parts ==> #[trigger] b@[i] == chunk_bound(limit, parts, i),
{
    let mut b: Vec<u64> = Vec::new();
    let n: u64 = parts as u64;
    let mut i: u64 = 0;
    while i <= n
        invariant
            n == parts,
            parts >= 1,
            i <= n + 1,
            b@.len() == i,
            forall|k: int| 0 <= k < i ==> #[trigger] b@[k] == chunk_bound(limit, parts, k),
        decreases n + 1 - i,
    {
        let v: u64 = if limit < 2 {
            1
        } else {
            let a: u128 = (limit - 1) as u128;
            assert(a * i <= a * n) by (nonlinear_arith) requires i <= n, a >= 0;
            assert(a * n <= 0xffff_ffff_ffff_ffff * 0xffff_ffff) by (nonlinear_arith)
                requires a <= 0xffff_ffff_ffff_ffff, n <= 0xffff_ffff;
            let x: u128 = a * (i as u128);
            let q: u128 = x / (n as u128);
            assert(q <= a) by (nonlinear_arith)
                requires x <= a * n, n >= 1, q == x / (n as u128), a >= 0, x >= 0;
            (1 + q) as u64
        };
        b.push(v);
        i = i + 1;
    }
    b
}

/// Adds up per-chunk prime counts; `None` if the total does not fit in a `u64`.
pub fn total_count(counts: &Vec<u64>) -> (r: Option<u64>)
    ensures
        match r {
            Some(t) => t == seq_sum(counts@),
            None => seq_sum(counts@) > u64::MAX,
        },
{
    let mut t: u64 = 0;
    let mut i: usize = 0;
    while i < counts.len()
        invariant
            i <= counts@.len(),
            t == seq_sum(counts@.take(i as int)),
        decreases counts@.len() - i,
    {
        assert(counts@.take(i + 1).drop_last() =~= counts@.take(i as int));
        match t.checked_add(counts[i]) {
            Some(v) => t = v,
            None => {
                proof { lemma_seq_sum_prefix(counts@, i + 1); }
                return None;
            }
        }
        i = i + 1;
    }
    assert(counts@.take(counts@.len() as int) =~= counts@);
    Some(t)
}

/// Checks a sieve's count for `limit` against the published one where there is
/// one: a `correctness_check_failed` error on a mismatch.
pub fn check_prime_count(limit: u64, iteration: u32, got: u64) -> (r: Result<(), ErrorInfo>)
    ensures
        match spec_known_pi(limit) {
            Some(e) if e != got => r is Err && r->Err_0.kind@ == ERR_CORRECTNESS_CHECK_FAILED@
                && r->Err_0.message@ == mismatch_message(limit, iteration, e, got as nat),
            _ => r is Ok,
        },
{
    match known_pi(limit) {
        Some(exp) => if got != exp {
            Err(mismatch_error(limit, iteration, exp, got))
        } else {
            Ok(())
        },
        None => Ok(()),
    }
}

/// A point in time of the monotonic clock (`std::time::Instant`).
#[verifier::external_type_specification]
#[verifier::external_body]
pub struct ExInstant(Instant);

/// Reads the monotonic clock (`Instant::now`).
#[verifier::external_body]
fn instant_now() -> Instant {
    Instant::now()
}

/// The time elapsed since `start`, in nanoseconds (`Instant::elapsed`). Nothing is
/// promised of the value: it depends on the clock.
#[verifier::external_body]
fn nanos_since(start: &Instant) -> u128 {
    start.elapsed().as_nanos()
}

/// One timed iteration of the single-threaded sieve: its wall-clock time and the
/// prime count it found.
#[derive(Debug, Clone, Copy)]
pub struct PrimeIteration {
    pub elapsed_nanos: u64,
    pub prime_count: u64,
}

/// The message of a failed correctness check.
pub open spec fn mismatch_message(limit: u64, iteration: u32, expected: u64, got: nat) -> Seq<char> {
    "prime count mismatch for limit "@ + decimal(limit as nat) + " on iteration "@
        + decimal(iteration as nat) + ": expected "@ + decimal(expected as nat) + ", got "@
        + decimal(got)
}

fn mismatch_error(limit: u64, iteration: u32, expected: u64, got: u64) -> (e: ErrorInfo)
    ensures
        e.kind@ == ERR_CORRECTNESS_CHECK_FAILED@,
        e.message@ == mismatch_message(limit, iteration, expected, got as nat),
{
    let mut m = String::from_str("prime count mismatch for limit ");
    push_decimal(&mut m, limit);
    m.append(" on iteration ");
    push_decimal(&mut m, iteration as u64);
    m.append(": expected ");
    push_decimal(&mut m, expected);
    m.append(", got ");
    push_decimal(&mut m, got);
    ErrorInfo { kind: String::from_str(ERR_CORRECTNESS_CHECK_FAILED), message: m }
}

/// Runs the single-threaded sieve `iterations` times, timing each run.
///
/// Where the published count for `limit` is known and the sieve disagrees with it,
/// the run stops at the first iteration with a `correctness_check_failed` error;
/// otherwise every iteration is reported.
pub fn run_1t(limit: u64, iterations: u32) -> (r: Result<Vec<PrimeIteration>, ErrorInfo>)
    requires
        limit <= u64::MAX - SEGMENT_SIZE,
        base_table_fits(limit),
    ensures
        match spec_known_pi(limit) {
            Some(e) if iterations > 0 && e != prime_count(limit as int) => r is Err && {
                let err = r->Err_0;
                &&& err.kind@ == ERR_CORRECTNESS_CHECK_FAILED@
                &&& err.message@ == mismatch_message(limit, 0, e, prime_count(limit as int))
            },
            _ => r is Ok && r->Ok_0@.len() == iterations && forall|i: int|
                0 <= i < iterations ==> (#[trigger] r->Ok_0@[i]).prime_count == prime_count(limit as int),
        },
{
    let mut results: Vec<PrimeIteration> = Vec::with_capacity(iterations as usize);
    let mut i: u32 = 0;
    while i < iterations
        invariant
            limit <= u64::MAX - SEGMENT_SIZE,
            base_table_fits(limit),
            i <= iterations,
            results@.len() == i,
            forall|k: int| 0 <= k < i ==> (#[trigger] results@[k]).prime_count == prime_count(limit as int),
            i > 0 ==> match spec_known_pi(limit) { Some(e) => e == prime_count(limit as int), None => true },
        decreases iterations - i,
    {
        let start = instant_now();
        let prime_count = segmented_sieve_count(limit);
        let nanos = nanos_since(&start);
        let elapsed_nanos: u64 = if nanos > u64::MAX as u128 { u64::MAX } else { nanos as u64 };
        if let Err(e) = check_prime_count(limit, i, prime_count) {
            return Err(e);
        }
        results.push(PrimeIteration { elapsed_nanos, prime_count });
        i = i + 1;
    }
    Ok(results)
}

} // verus!
