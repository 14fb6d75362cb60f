//! Properties that hold across the library's functions, proved over the spec
//! functions their contracts are stated with.
use vstd::prelude::*;
use crate::sieve::{chunk_bound, is_prime, lemma_chunk_bound_step, lists_primes_upto, prime_count, primes_between};
use vstd::arithmetic::div_mod::lemma_div_multiples_vanish;
use crate::adb::{
    apply_overrides, device_choice, first_override, iteration_entries,
    payload_file_name, hex_digit, hex_lower, sha256sum_reports, remote_dir_of, size_label, size_token, size_unit,
};
use crate::cli::{duration_arg, duration_unit, AdbDirection};
use crate::adb::ResolvedSize;
use crate::plan::{
    lemma_records_in_block, lemma_records_in_concat, lemma_records_in_steps, phase_block, records_in,
    pull_steps, records_per_size, size_steps, step_of, total_records, transfer_steps, Phase, Step,
};
use crate::cpu::threads_arg;
use crate::adb::{chosen_sizes, default_iterations, default_sizes, device_serials, ready_serials, resolved_sizes};
use crate::env::{first_line, u64_values};
use crate::text::{eq_ignore_ascii_case, split_on};
use crate::env::{proc_stat_fields, seq_sum, lemma_seq_sum_nonneg};
use crate::payload::payload;
use crate::sampler::{mean_of, sum_mhz};
use crate::text::{
    decimal, is_ascii_digit, is_whitespace, parse_unsigned, lemma_decimal_reads_back, lemma_decimal_no_whitespace, lemma_parse_decimal,
    lemma_trim_without_whitespace, trim, tokens, is_sep, ascii_lower, lemma_tokens_single, lemma_tokens_concat,
};

verus! {

/// The two sieves agree: a list of exactly the primes up to `limit`, in increasing
/// order (what `simple_sieve` returns) has `prime_count(limit)` entries (what
/// `segmented_sieve_count` returns).
pub proof fn law_sieves_agree(primes: Seq<u64>, limit: int)
    requires
        lists_primes_upto(primes, limit),
    ensures
        primes.len() == prime_count(limit),
    decreases limit,
{
    if limit < 2 {
        if primes.len() > 0 {
            assert(is_prime(primes[0] as int));
        }
    } else {
        let rest = if is_prime(limit) { primes.drop_last() } else { primes };
        if is_prime(limit) {
            let i = choose|i: int| 0 <= i < primes.len() && #[trigger] primes[i] == limit;
            let last = primes.len() - 1;
            if i < last {
                assert(primes[i] < primes[last]);
            }
            assert(primes[last] == limit);
        } else {
            assert forall|i: int| 0 <= i < primes.len() implies #[trigger] primes[i] <= limit - 1 by {
                assert(is_prime(primes[i] as int));
            }
        }
        assert forall|i: int| 0 <= i < rest.len() implies
            is_prime(#[trigger] rest[i] as int) && rest[i] <= limit - 1 by {
            assert(rest[i] == primes[i]);
            assert(is_prime(primes[i] as int));
            if is_prime(limit) {
                assert(primes[i] < primes[primes.len() - 1]);
            }
        }
        assert forall|p: int| 2 <= p <= limit - 1 && is_prime(p) implies
            exists|i: int| 0 <= i < rest.len() && #[trigger] rest[i] == p by {
            let i = choose|i: int| 0 <= i < primes.len() && #[trigger] primes[i] == p;
            if is_prime(limit) {
                assert(primes[primes.len() - 1] == limit);
                assert(i != primes.len() - 1);
            }
            assert(rest[i] == p);
        }
        assert forall|i: int, j: int| 0 <= i < j < rest.len() implies rest[i] < rest[j] by {
            assert(rest[i] == primes[i] && rest[j] == primes[j]);
        }
        law_sieves_agree(rest, limit - 1);
    }
}


/// `decimal(k)` followed by the unit letter `u` reads back as `k` units.
proof fn lemma_label_reads_back(k: nat, u: char, mult: nat)
    requires
        k >= 1,
        k * mult <= u64::MAX,
        size_unit(u) == Some(mult),
    ensures
        size_token(decimal(k) + seq![u]) == Ok::<u64, Seq<char>>((k * mult) as u64),
{
    let s = decimal(k) + seq![u];
    lemma_decimal_no_whitespace(k);
    assert forall|i: int| 0 <= i < s.len() implies !is_whitespace(#[trigger] s[i]) by {
        if i < decimal(k).len() {
            assert(s[i] == decimal(k)[i]);
        }
    }
    lemma_trim_without_whitespace(s);
    assert(trim(s) == s);
    assert(s.last() == u);
    assert(!is_ascii_digit(u));
    assert(s.drop_last() =~= decimal(k));
    assert(mult >= 1);
    assert(k <= k * mult) by (nonlinear_arith) requires mult >= 1, k >= 1;
    lemma_parse_decimal(k, u64::MAX as nat);
}

/// Formatting a transfer size and parsing the label back gives the size again: the
/// labels in progress lines are valid `--sizes` tokens for the sizes they name.
pub proof fn law_size_label_reads_back(n: u64)
    requires n >= 1,
    ensures size_token(size_label(n)) == Ok::<u64, Seq<char>>(n),
{
    reveal_strlit("G");
    reveal_strlit("M");
    reveal_strlit("K");
    reveal_strlit("B");
    if n >= 1073741824 && n % 1073741824 == 0 {
        let k = (n / 1073741824) as nat;
        assert(k * 1073741824 == n);
        assert(size_label(n) == decimal(k) + seq!['G']);
        lemma_label_reads_back(k, 'G', 1073741824);
    } else if n >= 1048576 && n % 1048576 == 0 {
        let k = (n / 1048576) as nat;
        assert(k * 1048576 == n);
        assert(size_label(n) == decimal(k) + seq!['M']);
        lemma_label_reads_back(k, 'M', 1048576);
    } else if n >= 1024 && n % 1024 == 0 {
        let k = (n / 1024) as nat;
        assert(k * 1024 == n);
        assert(size_label(n) == decimal(k) + seq!['K']);
        lemma_label_reads_back(k, 'K', 1024);
    } else {
        assert(size_label(n) == decimal(n as nat) + seq!['B']);
        lemma_label_reads_back(n as nat, 'B', 1);
    }
}


/// An accepted `--duration` is at least one second.
pub proof fn law_duration_positive(s: Seq<char>)
    requires duration_arg(s) is Ok,
    ensures duration_arg(s)->Ok_0 >= 1,
{
    let t = trim(s);
    let num = if is_ascii_digit(t.last()) { t } else { t.drop_last() };
    let mult: nat = if is_ascii_digit(t.last()) { 1 } else { duration_unit(t.last())->0 };
    let n = parse_unsigned(num, u64::MAX as nat)->0;
    assert(mult >= 1);
    assert(n * mult >= 1) by (nonlinear_arith) requires n >= 1, mult >= 1;
}

/// An accepted `--threads` value is at least one thread.
pub proof fn law_threads_positive(arg: Seq<char>, logical_cpus: u32)
    requires threads_arg(arg, logical_cpus) is Ok,
    ensures threads_arg(arg, logical_cpus)->Ok_0 >= 1,
{
}

/// Every accepted `--iterations` override has a count of at least one.
pub proof fn law_override_counts_positive(items: Seq<Seq<char>>)
    requires iteration_entries(items) is Ok,
    ensures
        forall|i: int| 0 <= i < iteration_entries(items)->Ok_0.len()
            ==> (#[trigger] iteration_entries(items)->Ok_0[i]).1 >= 1,
    decreases items.len(),
{
    if items.len() > 0 {
        law_override_counts_positive(items.drop_last());
    }
}

/// Resolving sizes keeps the chosen sizes in their order and gives each a count of
/// at least one: its first override if there is one, else its default.
pub proof fn law_resolved_sizes(chosen: Seq<(u64, u32)>, overrides: Seq<(u64, u32)>)
    requires apply_overrides(chosen, overrides) is Ok,
    ensures ({
        let x = apply_overrides(chosen, overrides)->Ok_0;
        &&& x.len() == chosen.len()
        &&& forall|i: int| 0 <= i < x.len() ==> {
            &&& (#[trigger] x[i]).0 == chosen[i].0
            &&& x[i].1 >= 1
            &&& x[i].1 == match first_override(overrides, chosen[i].0) {
                Some(n) => n,
                None => chosen[i].1,
            }
        }
    }),
    decreases chosen.len(),
{
    if chosen.len() > 0 {
        law_resolved_sizes(chosen.drop_last(), overrides);
        let x = apply_overrides(chosen, overrides)->Ok_0;
        let prev = apply_overrides(chosen.drop_last(), overrides)->Ok_0;
        assert forall|i: int| 0 <= i < x.len() - 1 implies x[i] == prev[i] by {}
    }
}

/// The total of the `/proc/stat` counters covers the idle and iowait counters it
/// is summed from.
pub proof fn law_total_covers_idle(s: Seq<char>)
    requires proc_stat_fields(s) is Some,
    ensures ({
        let vals = proc_stat_fields(s)->0;
        seq_sum(vals) >= vals[3] + if vals.len() > 4 { vals[4] as int } else { 0 }
    }),
{
    let vals = proc_stat_fields(s)->0;
    lemma_sum_covers(vals, 3);
    if vals.len() > 4 {
        lemma_sum_covers2(vals, 3, 4);
    }
}

/// A sum of counters covers any one of them.
proof fn lemma_sum_covers(v: Seq<u64>, i: int)
    requires 0 <= i < v.len(),
    ensures seq_sum(v) >= v[i],
    decreases v.len(),
{
    lemma_seq_sum_nonneg(v.drop_last());
    if i < v.len() - 1 {
        lemma_sum_covers(v.drop_last(), i);
    }
}

/// A sum of counters covers any two of them.
proof fn lemma_sum_covers2(v: Seq<u64>, i: int, j: int)
    requires 0 <= i < j < v.len(),
    ensures seq_sum(v) >= v[i] + v[j],
    decreases v.len(),
{
    if j < v.len() - 1 {
        lemma_sum_covers2(v.drop_last(), i, j);
    } else {
        lemma_sum_covers(v.drop_last(), i);
    }
}

/// The device an adb run uses is always one that `adb devices` lists as ready.
pub proof fn law_chosen_device_is_ready(serials: Seq<Seq<char>>, requested: Option<Seq<char>>)
    requires device_choice(serials, requested) is Ok,
    ensures serials.contains(device_choice(serials, requested)->Ok_0),
{
    if requested is None {
        assert(serials[0] == device_choice(serials, requested)->Ok_0);
    }
}

/// A shorter payload of the same seed is a prefix of a longer one: generating in
/// chunks, or generating more, never changes the bytes already produced.
pub proof fn law_payload_prefix(seed: u64, m: nat, n: nat)
    requires m <= n,
    ensures payload(seed, n).take(m as int) == payload(seed, m),
{
    assert(payload(seed, n).take(m as int) =~= payload(seed, m));
}

/// The mean frequency of a sample lies between its slowest and its fastest core.
pub proof fn law_mean_between(s: Seq<u32>, lo: u32, hi: u32)
    requires
        s.len() > 0,
        forall|i: int| 0 <= i < s.len() ==> lo <= #[trigger] s[i] <= hi,
    ensures
        lo <= mean_of(s) <= hi,
{
    lemma_sum_between(s, lo, hi);
    let n = s.len() as int;
    let t = sum_mhz(s);
    assert(lo <= t / n <= hi) by (nonlinear_arith)
        requires n * lo <= t <= n * hi, n >= 1, lo >= 0;
}

proof fn lemma_sum_between(s: Seq<u32>, lo: u32, hi: u32)
    requires forall|i: int| 0 <= i < s.len() ==> lo <= #[trigger] s[i] <= hi,
    ensures s.len() * lo <= sum_mhz(s) <= s.len() * hi,
    decreases s.len(),
{
    if s.len() > 0 {
        let p = s.drop_last();
        assert forall|i: int| 0 <= i < p.len() implies lo <= #[trigger] p[i] <= hi by {
            assert(p[i] == s[i]);
        }
        lemma_sum_between(p, lo, hi);
        assert(s.len() * lo == p.len() * lo + lo) by (nonlinear_arith) requires s.len() == p.len() + 1;
        assert(s.len() * hi == p.len() * hi + hi) by (nonlinear_arith) requires s.len() == p.len() + 1;
    }
}


/// An accepted size token names at least one byte.
pub proof fn law_size_positive(tok: Seq<char>)
    requires size_token(tok) is Ok,
    ensures size_token(tok)->Ok_0 >= 1,
{
    let t = trim(tok);
    let num = if is_ascii_digit(t.last()) { t } else { t.drop_last() };
    let mult: nat = if is_ascii_digit(t.last()) { 1 } else { size_unit(t.last())->0 };
    let n = parse_unsigned(num, u64::MAX as nat)->0;
    assert(mult >= 1);
    assert(n * mult >= 1) by (nonlinear_arith) requires n >= 1, mult >= 1;
}

/// Normalizing a remote path to directory form twice is the same as once.
pub proof fn law_remote_dir_idempotent(path: Seq<char>)
    ensures remote_dir_of(remote_dir_of(path)) == remote_dir_of(path),
{
}

/// Every payload of a run gets its own file name: different sizes or iterations
/// never share a name under the same prefix.
pub proof fn law_payload_names_distinct(prefix: Seq<char>, b1: u64, i1: u64, b2: u64, i2: u64)
    requires payload_file_name(prefix, b1, i1) == payload_file_name(prefix, b2, i2),
    ensures b1 == b2 && i1 == i2,
{
    reveal_strlit("_");
    reveal_strlit(".bin");
    let d1 = decimal(b1 as nat);
    let d2 = decimal(b2 as nat);
    let e1 = decimal(i1 as nat);
    let e2 = decimal(i2 as nat);
    let x = d1 + seq!['_'] + e1;
    let y = d2 + seq!['_'] + e2;
    let f1 = payload_file_name(prefix, b1, i1);
    let f2 = payload_file_name(prefix, b2, i2);
    assert(f1 =~= prefix + x + seq!['.', 'b', 'i', 'n']);
    assert(f2 =~= prefix + y + seq!['.', 'b', 'i', 'n']);
    assert(x.len() == y.len());
    assert(x =~= f1.subrange(prefix.len() as int, (prefix.len() + x.len()) as int));
    assert(y =~= f2.subrange(prefix.len() as int, (prefix.len() + y.len()) as int));
    assert(x == y);
    lemma_decimal_reads_back(b1 as nat);
    lemma_decimal_reads_back(b2 as nat);
    lemma_decimal_reads_back(i1 as nat);
    lemma_decimal_reads_back(i2 as nat);
    if d1.len() < d2.len() {
        assert(x[d1.len() as int] == '_');
        assert(y[d1.len() as int] == d2[d1.len() as int]);
        assert(is_ascii_digit(d2[d1.len() as int]));
    }
    if d2.len() < d1.len() {
        assert(y[d2.len() as int] == '_');
        assert(x[d2.len() as int] == d1[d2.len() as int]);
        assert(is_ascii_digit(d1[d2.len() as int]));
    }
    assert(d1.len() == d2.len());
    assert(d1 =~= x.take(d1.len() as int));
    assert(d2 =~= y.take(d2.len() as int));
    assert(e1 =~= x.skip(d1.len() as int + 1));
    assert(e2 =~= y.skip(d2.len() as int + 1));
}


/// The hexadecimal rendering has two lower-case digits per byte and no whitespace.
proof fn lemma_hex_lower_shape(d: Seq<u8>)
    ensures
        hex_lower(d).len() == 2 * d.len(),
        forall|i: int| 0 <= i < hex_lower(d).len() ==> {
            let c = #[trigger] hex_lower(d)[i];
            ('0' <= c && c <= '9') || ('a' <= c && c <= 'f')
        },
    decreases d.len(),
{
    if d.len() > 0 {
        lemma_hex_lower_shape(d.drop_last());
        let h = hex_lower(d);
        let hp = hex_lower(d.drop_last());
        let b = d.last() as nat;
        assert(hex_digit(b / 16) as int == if b / 16 < 10 { b / 16 + 48 } else { b / 16 + 87 });
        assert(hex_digit(b % 16) as int == if b % 16 < 10 { b % 16 + 48 } else { b % 16 + 87 });
        assert forall|i: int| 0 <= i < h.len() implies {
            let c = #[trigger] h[i];
            ('0' <= c && c <= '9') || ('a' <= c && c <= 'f')
        } by {
            if i < hp.len() {
                assert(h[i] == hp[i]);
            }
        }
    }
}

/// `sha256sum` output in its usual form (the digest in lower-case hexadecimal, then
/// whitespace and the file name, or nothing) is accepted for the digest it reports.
pub proof fn law_sha256sum_line_accepted(d: Seq<u8>, rest: Seq<char>)
    requires
        d.len() == 32,
        rest.len() == 0 || is_sep(rest[0], true),
    ensures
        sha256sum_reports(hex_lower(d) + rest, d),
{
    let h = hex_lower(d);
    lemma_hex_lower_shape(d);
    assert forall|i: int| 0 <= i < h.len() implies !is_sep(#[trigger] h[i], true) by {
        let c = h[i];
        assert(('0' <= c && c <= '9') || ('a' <= c && c <= 'f'));
    }
    lemma_tokens_single(h, true);
    lemma_tokens_concat(h, rest, true);
    assert((tokens(h, true) + tokens(rest, true))[0] == h);
}


/// The counts of the first `n` chunks add up to the primes up to the `n`-th boundary.
proof fn lemma_chunk_prefix(limit: u64, parts: u32, counts: Seq<u64>, n: int)
    requires
        parts >= 1,
        counts.len() == parts,
        0 <= n <= parts,
        forall|i: int| 0 <= i < parts ==> #[trigger] counts[i] == primes_between(
            chunk_bound(limit, parts, i) + 1, chunk_bound(limit, parts, i + 1)),
    ensures
        seq_sum(counts.take(n)) == prime_count(chunk_bound(limit, parts, n)),
    decreases n,
{
    if n == 0 {
        assert(counts.take(0) =~= Seq::<u64>::empty());
        assert(chunk_bound(limit, parts, 0) == 1);
    } else {
        lemma_chunk_prefix(limit, parts, counts, n - 1);
        assert(counts.take(n).drop_last() =~= counts.take(n - 1));
        lemma_chunk_bound_step(limit, parts, n - 1);
        assert(counts[n - 1] == primes_between(
            chunk_bound(limit, parts, n - 1) + 1, chunk_bound(limit, parts, n)));
    }
}

/// Splitting `[2, limit]` into chunks, counting each chunk's primes separately and
/// adding the counts up gives the number of primes up to `limit`: the
/// multi-threaded sieve counts what the single-threaded one does.
pub proof fn law_chunks_count_all_primes(limit: u64, parts: u32, counts: Seq<u64>)
    requires
        parts >= 1,
        counts.len() == parts,
        forall|i: int| 0 <= i < parts ==> #[trigger] counts[i] == primes_between(
            chunk_bound(limit, parts, i) + 1, chunk_bound(limit, parts, i + 1)),
    ensures
        seq_sum(counts) == prime_count(limit as int),
{
    lemma_chunk_prefix(limit, parts, counts, parts as int);
    assert(counts.take(parts as int) =~= counts);
    if limit >= 2 {
        lemma_div_multiples_vanish((limit - 1) as int, parts as int);
        assert((limit - 1) * parts == parts * (limit - 1)) by (nonlinear_arith);
        assert(chunk_bound(limit, parts, parts as int) == limit);
    }
}

/// The step at offset `t` of the steps of one size, by position: generation,
/// pushes, push checks, then pulls and pull checks when pulls are timed, then
/// removal, `n` of each.
proof fn lemma_size_at(b: u64, n: u32, direction: AdbDirection, base: int, t: int)
    requires
        0 <= t < size_steps(b, n, direction, base).len(),
    ensures
        size_steps(b, n, direction, base).len() == if direction == AdbDirection::Both { 6 * n } else { 4 * n },
        size_steps(b, n, direction, base)[t] == if t < n {
            step_of(Phase::Generate, b, t as u32, base)
        } else if t < 2 * n {
            step_of(Phase::Push, b, (t - n) as u32, base)
        } else if t < 3 * n {
            step_of(Phase::Verify, b, (t - 2 * n) as u32, base)
        } else if direction == AdbDirection::Both && t < 4 * n {
            step_of(Phase::Pull, b, (t - 3 * n) as u32, base)
        } else if direction == AdbDirection::Both && t < 5 * n {
            step_of(Phase::CheckPull, b, (t - 4 * n) as u32, base + n)
        } else if direction == AdbDirection::Both {
            step_of(Phase::Cleanup, b, (t - 5 * n) as u32, base)
        } else {
            step_of(Phase::Cleanup, b, (t - 3 * n) as u32, base)
        },
{
    let ni = n as int;
    let g = phase_block(Phase::Generate, b, n, base);
    let p = phase_block(Phase::Push, b, n, base);
    let v = phase_block(Phase::Verify, b, n, base);
    let q = pull_steps(b, n, direction, base);
    let c = phase_block(Phase::Cleanup, b, n, base);
    let blk = size_steps(b, n, direction, base);
    assert(blk == g + p + v + q + c);
    let qa = phase_block(Phase::Pull, b, n, base);
    let qb = phase_block(Phase::CheckPull, b, n, base + n);
    if t < ni {
        assert(blk[t] == g[t]);
    } else if t < 2 * ni {
        assert(blk[t] == p[t - ni]);
    } else if t < 3 * ni {
        assert(blk[t] == v[t - 2 * ni]);
    } else if t < 3 * ni + q.len() {
        assert(blk[t] == q[t - 3 * ni]);
        assert(direction == AdbDirection::Both);
        assert(q == qa + qb);
        if t < 4 * ni {
            assert(q[t - 3 * ni] == qa[t - 3 * ni]);
        } else {
            assert(q[t - 3 * ni] == qb[t - 4 * ni]);
        }
    } else {
        assert(blk[t] == c[t - 3 * ni - q.len()]);
    }
}

/// Within the steps of one size, a check of payload `index` follows that payload's
/// transfer: a push check its push, which has `index` records before it in the
/// size's steps; a pull check its pull, which has `n + index` records before it.
proof fn lemma_size_checks(b: u64, n: u32, direction: AdbDirection, base: int, t: int)
    requires
        0 <= base,
        base + records_per_size(n, direction) <= usize::MAX,
        0 <= t < size_steps(b, n, direction, base).len(),
    ensures
        match size_steps(b, n, direction, base)[t] {
            Step::Verify { bytes, index, record } => {
                &&& n + index < t
                &&& size_steps(b, n, direction, base)[n + index] == (Step::Push { bytes, index })
                &&& records_in(size_steps(b, n, direction, base).take(n + index)) == index
                &&& record == base + index
            },
            Step::CheckPull { bytes, index, record } => {
                &&& 3 * n + index < t
                &&& size_steps(b, n, direction, base)[3 * n + index] == (Step::Pull { bytes, index })
                &&& records_in(size_steps(b, n, direction, base).take(3 * n + index)) == n + index
                &&& record == base + n + index
            },
            _ => true,
        },
{
    let ni = n as int;
    let blk = size_steps(b, n, direction, base);
    lemma_size_at(b, n, direction, base, t);
    let g = phase_block(Phase::Generate, b, n, base);
    let p = phase_block(Phase::Push, b, n, base);
    let v = phase_block(Phase::Verify, b, n, base);
    lemma_records_in_block(Phase::Generate, b, n, base);
    lemma_records_in_block(Phase::Push, b, n, base);
    lemma_records_in_block(Phase::Verify, b, n, base);
    if 2 * ni <= t < 3 * ni {
        let i = t - 2 * ni;
        lemma_size_at(b, n, direction, base, ni + i);
        let pi = phase_block(Phase::Push, b, i as u32, base);
        assert(blk.take(ni + i) =~= g + pi);
        lemma_records_in_concat(g, pi);
        lemma_records_in_block(Phase::Push, b, i as u32, base);
    } else if direction == AdbDirection::Both && 4 * ni <= t < 5 * ni {
        let i = t - 4 * ni;
        lemma_size_at(b, n, direction, base, 3 * ni + i);
        let qi = phase_block(Phase::Pull, b, i as u32, base);
        assert(blk.take(3 * ni + i) =~= g + p + v + qi);
        lemma_records_in_concat(g, p);
        lemma_records_in_concat(g + p, v);
        lemma_records_in_concat(g + p + v, qi);
        lemma_records_in_block(Phase::Pull, b, i as u32, base);
    }
}

/// In the plan of an adb run, each check updates the record that its payload's
/// transfer added: the push check of a payload follows its push, the pull check its
/// pull, with exactly `record` records before that transfer.
#[verifier::spinoff_prover]
#[verifier::rlimit(40)]
pub proof fn law_checks_target_their_transfers(specs: Seq<ResolvedSize>, direction: AdbDirection, k: int)
    requires
        total_records(specs, direction) <= usize::MAX,
        0 <= k < transfer_steps(specs, direction).len(),
    ensures
        match transfer_steps(specs, direction)[k] {
            Step::Verify { bytes, index, record } => exists|j: int|
                0 <= j < k && #[trigger] transfer_steps(specs, direction)[j] == (Step::Push { bytes, index })
                    && records_in(transfer_steps(specs, direction).take(j)) == record,
            Step::CheckPull { bytes, index, record } => exists|j: int|
                0 <= j < k && #[trigger] transfer_steps(specs, direction)[j] == (Step::Pull { bytes, index })
                    && records_in(transfer_steps(specs, direction).take(j)) == record,
            _ => true,
        },
    decreases specs.len(),
{
    let plan = transfer_steps(specs, direction);
    if specs.len() > 0 {
        let prev = specs.drop_last();
        let last = specs.last();
        let base = total_records(prev, direction) as int;
        let pp = transfer_steps(prev, direction);
        let blk = size_steps(last.bytes, last.iterations, direction, base);
        assert(plan == pp + blk);
        if k < pp.len() {
            law_checks_target_their_transfers(prev, direction, k);
            assert(plan[k] == pp[k]);
            match pp[k] {
                Step::Verify { bytes, index, record } => {
                    let j = choose|j: int| 0 <= j < k && #[trigger] pp[j] == (Step::Push { bytes, index })
                        && records_in(pp.take(j)) == record;
                    assert(plan[j] == pp[j]);
                    assert(plan.take(j) =~= pp.take(j));
                },
                Step::CheckPull { bytes, index, record } => {
                    let j = choose|j: int| 0 <= j < k && #[trigger] pp[j] == (Step::Pull { bytes, index })
                        && records_in(pp.take(j)) == record;
                    assert(plan[j] == pp[j]);
                    assert(plan.take(j) =~= pp.take(j));
                },
                _ => {},
            }
        } else {
            let t = k - pp.len();
            let n = last.iterations;
            assert(plan[k] == blk[t]);
            lemma_records_in_steps(prev, direction);
            lemma_size_checks(last.bytes, n, direction, base, t);
            match blk[t] {
                Step::Verify { bytes, index, record } => {
                    let j = pp.len() + n + index;
                    assert(plan[j] == blk[n + index]);
                    assert(plan.take(j) =~= pp + blk.take(n + index));
                    lemma_records_in_concat(pp, blk.take(n + index));
                },
                Step::CheckPull { bytes, index, record } => {
                    let j = pp.len() + 3 * n + index;
                    assert(plan[j] == blk[3 * n + index]);
                    assert(plan.take(j) =~= pp + blk.take(3 * n + index));
                    lemma_records_in_concat(pp, blk.take(3 * n + index));
                },
                _ => {},
            }
        }
    }
}

/// In the plan of an adb run, every pushed payload is generated before its push
/// and checked on the device after it; when pulls are timed it is pulled back after
/// that and the pulled copy checked after the pull. A `push` run has no pulls and
/// no pull checks at all.
pub proof fn law_payload_lifecycle(specs: Seq<ResolvedSize>, direction: AdbDirection, k: int)
    requires
        0 <= k < transfer_steps(specs, direction).len(),
    ensures
        direction == AdbDirection::Push ==> !(transfer_steps(specs, direction)[k] is Pull)
            && !(transfer_steps(specs, direction)[k] is CheckPull),
        match transfer_steps(specs, direction)[k] {
            Step::Push { bytes, index } => {
                &&& exists|j: int| 0 <= j < k
                    && #[trigger] transfer_steps(specs, direction)[j] == (Step::Generate { bytes, index })
                &&& exists|j: int| k < j < transfer_steps(specs, direction).len()
                    && #[trigger] transfer_steps(specs, direction)[j] is Verify
                    && transfer_steps(specs, direction)[j]->Verify_bytes == bytes
                    && transfer_steps(specs, direction)[j]->Verify_index == index
                &&& direction == AdbDirection::Both ==> exists|j1: int, j2: int|
                    k < j1 < j2 < transfer_steps(specs, direction).len()
                    && #[trigger] transfer_steps(specs, direction)[j1] == (Step::Pull { bytes, index })
                    && #[trigger] transfer_steps(specs, direction)[j2] is CheckPull
                    && transfer_steps(specs, direction)[j2]->CheckPull_bytes == bytes
                    && transfer_steps(specs, direction)[j2]->CheckPull_index == index
            },
            _ => true,
        },
    decreases specs.len(),
{
    let plan = transfer_steps(specs, direction);
    if specs.len() > 0 {
        let prev = specs.drop_last();
        let last = specs.last();
        let base = total_records(prev, direction) as int;
        let pp = transfer_steps(prev, direction);
        let blk = size_steps(last.bytes, last.iterations, direction, base);
        assert(plan == pp + blk);
        if k < pp.len() {
            law_payload_lifecycle(prev, direction, k);
            assert(plan[k] == pp[k]);
            match pp[k] {
                Step::Push { bytes, index } => {
                    let j1 = choose|j: int| 0 <= j < k && #[trigger] pp[j] == (Step::Generate { bytes, index });
                    assert(plan[j1] == pp[j1]);
                    let j2 = choose|j: int| k < j < pp.len() && #[trigger] pp[j] is Verify
                        && pp[j]->Verify_bytes == bytes && pp[j]->Verify_index == index;
                    assert(plan[j2] == pp[j2]);
                    if direction == AdbDirection::Both {
                        let (a, c) = choose|a: int, c: int| k < a < c < pp.len()
                            && #[trigger] pp[a] == (Step::Pull { bytes, index })
                            && #[trigger] pp[c] is CheckPull && pp[c]->CheckPull_bytes == bytes
                            && pp[c]->CheckPull_index == index;
                        assert(plan[a] == pp[a]);
                        assert(plan[c] == pp[c]);
                    }
                },
                _ => {},
            }
        } else {
            let t = k - pp.len();
            let n = last.iterations as int;
            assert(plan[k] == blk[t]);
            lemma_size_at(last.bytes, last.iterations, direction, base, t);
            if n <= t < 2 * n {
                let i = t - n;
                lemma_size_at(last.bytes, last.iterations, direction, base, i);
                assert(plan[pp.len() + i] == blk[i]);
                lemma_size_at(last.bytes, last.iterations, direction, base, 2 * n + i);
                assert(plan[pp.len() + 2 * n + i] == blk[2 * n + i]);
                if direction == AdbDirection::Both {
                    lemma_size_at(last.bytes, last.iterations, direction, base, 3 * n + i);
                    lemma_size_at(last.bytes, last.iterations, direction, base, 4 * n + i);
                    assert(plan[pp.len() + 3 * n + i] == blk[3 * n + i]);
                    assert(plan[pp.len() + 4 * n + i] == blk[4 * n + i]);
                }
            }
        }
    }
}

/// In the plan of an adb run, the checks of a size wait for its whole transfer
/// loop: after a push check, a push comes only once a later size has started
/// (with a generation step in between), and likewise a pull after a pull check.
/// So no check ever sits between two timed transfers of one size.
pub proof fn law_checks_after_transfer_loops(specs: Seq<ResolvedSize>, direction: AdbDirection, k: int, j: int)
    requires
        0 <= k < j < transfer_steps(specs, direction).len(),
        (transfer_steps(specs, direction)[k] is Verify && transfer_steps(specs, direction)[j] is Push)
            || (transfer_steps(specs, direction)[k] is CheckPull && transfer_steps(specs, direction)[j] is Pull),
    ensures
        exists|m: int| k < m < j && #[trigger] transfer_steps(specs, direction)[m] is Generate,
    decreases specs.len(),
{
    let plan = transfer_steps(specs, direction);
    let prev = specs.drop_last();
    let last = specs.last();
    let base = total_records(prev, direction) as int;
    let pp = transfer_steps(prev, direction);
    let blk = size_steps(last.bytes, last.iterations, direction, base);
    assert(plan == pp + blk);
    if j < pp.len() {
        assert(plan[k] == pp[k] && plan[j] == pp[j]);
        law_checks_after_transfer_loops(prev, direction, k, j);
        let m = choose|m: int| k < m < j && #[trigger] pp[m] is Generate;
        assert(plan[m] == pp[m]);
    } else if k < pp.len() {
        let tj = j - pp.len();
        assert(plan[j] == blk[tj]);
        lemma_size_at(last.bytes, last.iterations, direction, base, tj);
        lemma_size_at(last.bytes, last.iterations, direction, base, 0);
        assert(plan[pp.len() as int] == blk[0]);
    } else {
        let tk = k - pp.len();
        let tj = j - pp.len();
        assert(plan[k] == blk[tk] && plan[j] == blk[tj]);
        lemma_size_at(last.bytes, last.iterations, direction, base, tk);
        lemma_size_at(last.bytes, last.iterations, direction, base, tj);
    }
}

/// Hexadecimal renderings of equal length are equal only for equal bytes.
proof fn lemma_hex_lower_injective(d: Seq<u8>, e: Seq<u8>)
    requires
        d.len() == e.len(),
        hex_lower(d) == hex_lower(e),
    ensures
        d == e,
    decreases d.len(),
{
    if d.len() > 0 {
        let hd = hex_lower(d);
        let he = hex_lower(e);
        let a = d.last() as nat;
        let b = e.last() as nat;
        lemma_hex_lower_shape(d.drop_last());
        lemma_hex_lower_shape(e.drop_last());
        assert(hd[hd.len() - 1] == hex_digit(a % 16));
        assert(he[he.len() - 1] == hex_digit(b % 16));
        assert(hd[hd.len() - 2] == hex_digit(a / 16));
        assert(he[he.len() - 2] == hex_digit(b / 16));
        assert(a % 16 == b % 16);
        assert(a / 16 == b / 16);
        assert(a == b);
        assert(hd.drop_last().drop_last() =~= hex_lower(d.drop_last()));
        assert(he.drop_last().drop_last() =~= hex_lower(e.drop_last()));
        lemma_hex_lower_injective(d.drop_last(), e.drop_last());
        assert(d =~= d.drop_last().push(d.last()));
        assert(e =~= e.drop_last().push(e.last()));
    }
}

/// `sha256sum` output that reports the digest `d` is accepted only for `d`: a
/// transfer whose copy on the device has another digest is never taken as intact.
pub proof fn law_sha256sum_rejects_other_digests(d: Seq<u8>, e: Seq<u8>, rest: Seq<char>)
    requires
        d.len() == 32,
        e.len() == 32,
        rest.len() == 0 || is_sep(rest[0], true),
        sha256sum_reports(hex_lower(d) + rest, e),
    ensures
        d == e,
{
    let h = hex_lower(d);
    let g = hex_lower(e);
    lemma_hex_lower_shape(d);
    lemma_hex_lower_shape(e);
    assert forall|i: int| 0 <= i < h.len() implies !is_sep(#[trigger] h[i], true) by {
        let c = h[i];
        assert(('0' <= c && c <= '9') || ('a' <= c && c <= 'f'));
    }
    lemma_tokens_single(h, true);
    lemma_tokens_concat(h, rest, true);
    assert((tokens(h, true) + tokens(rest, true))[0] == h);
    assert forall|i: int| 0 <= i < h.len() implies h[i] == g[i] by {
        let c = h[i];
        let x = g[i];
        assert(('0' <= c && c <= '9') || ('a' <= c && c <= 'f'));
        assert(('0' <= x && x <= '9') || ('a' <= x && x <= 'f'));
        assert(ascii_lower(h[i]) == ascii_lower(g[i]));
    }
    assert(h =~= g);
    lemma_hex_lower_injective(d, e);
}


/// A size listed in `--sizes` starts from the count that the table of default
/// sizes gives it (25 B: 200, 1 MiB: 100, 10 MiB: 30, 100 MiB: 10), and a size
/// outside the table from none (so it needs an `--iterations` entry).
pub proof fn law_listed_sizes_take_table_counts(s: Seq<char>)
    ensures
        forall|i: int| 0 <= i < default_sizes().len()
            ==> default_iterations(#[trigger] default_sizes()[i].0) == default_sizes()[i].1,
        chosen_sizes(Some(s)) is Ok ==> forall|k: int, i: int|
            0 <= k < chosen_sizes(Some(s))->Ok_0.len() && 0 <= i < default_sizes().len()
            && #[trigger] chosen_sizes(Some(s))->Ok_0[k].0 == #[trigger] default_sizes()[i].0
            ==> chosen_sizes(Some(s))->Ok_0[k].1 == default_sizes()[i].1,
        chosen_sizes(Some(s)) is Ok ==> forall|k: int|
            0 <= k < chosen_sizes(Some(s))->Ok_0.len()
            && (forall|i: int| 0 <= i < default_sizes().len() ==> default_sizes()[i].0 != #[trigger] chosen_sizes(Some(s))->Ok_0[k].0)
            ==> chosen_sizes(Some(s))->Ok_0[k].1 == 0,
{
    assert forall|i: int| 0 <= i < default_sizes().len()
        implies default_iterations(#[trigger] default_sizes()[i].0) == default_sizes()[i].1 by {
        assert(0 <= i < 4);
    }
    if chosen_sizes(Some(s)) is Ok {
        let c = chosen_sizes(Some(s))->Ok_0;
        assert forall|k: int| 0 <= k < c.len()
            && (forall|i: int| 0 <= i < default_sizes().len() ==> default_sizes()[i].0 != #[trigger] c[k].0)
            implies c[k].1 == 0 by {
            assert(default_sizes()[0].0 != c[k].0);
            assert(default_sizes()[1].0 != c[k].0);
            assert(default_sizes()[2].0 != c[k].0);
            assert(default_sizes()[3].0 != c[k].0);
        }
    }
}

/// With no `--iterations`, each size of `--sizes` that the default table lists runs
/// the table's count: `--sizes 100M` runs 100 MiB ten times.
pub proof fn law_listed_sizes_run_table_counts(s: Seq<char>)
    ensures
        resolved_sizes(Some(s), None) is Ok ==> forall|k: int, i: int|
            0 <= k < resolved_sizes(Some(s), None)->Ok_0.len() && 0 <= i < default_sizes().len()
            && #[trigger] resolved_sizes(Some(s), None)->Ok_0[k].0 == #[trigger] default_sizes()[i].0
            ==> resolved_sizes(Some(s), None)->Ok_0[k].1 == default_sizes()[i].1,
{
    law_listed_sizes_take_table_counts(s);
    if resolved_sizes(Some(s), None) is Ok {
        let c = chosen_sizes(Some(s))->Ok_0;
        let empty = Seq::<(u64, u32)>::empty();
        assert(crate::adb::iteration_overrides(None) == Ok::<Seq<(u64, u32)>, Seq<char>>(empty));
        law_resolved_sizes(c, empty);
        let x = resolved_sizes(Some(s), None)->Ok_0;
        assert forall|k: int, i: int|
            0 <= k < x.len() && 0 <= i < default_sizes().len()
            && #[trigger] x[k].0 == #[trigger] default_sizes()[i].0
            implies x[k].1 == default_sizes()[i].1 by {
            assert(first_override(empty, c[k].0) is None);
            assert(x[k].0 == c[k].0);
        }
    }
}

/// Every serial read from lines of `adb devices -l` output comes from a line whose
/// state field (the second) is exactly `device`, with the serial as its first field.
pub proof fn lemma_ready_serials_from_device_lines(lines: Seq<Seq<char>>)
    ensures
        forall|i: int| #![trigger ready_serials(lines)[i]] 0 <= i < ready_serials(lines).len() ==> exists|j: int| 0 <= j < lines.len()
            && tokens(#[trigger] lines[j], true).len() >= 2 && tokens(lines[j], true)[1] == "device"@
            && tokens(lines[j], true)[0] == ready_serials(lines)[i],
    decreases lines.len(),
{
    if lines.len() > 0 {
        let prev = lines.drop_last();
        lemma_ready_serials_from_device_lines(prev);
        let r = ready_serials(lines);
        let rp = ready_serials(prev);
        assert forall|i: int| #![trigger r[i]] 0 <= i < r.len() implies exists|j: int| 0 <= j < lines.len()
            && tokens(#[trigger] lines[j], true).len() >= 2 && tokens(lines[j], true)[1] == "device"@
            && tokens(lines[j], true)[0] == r[i] by {
            if i < rp.len() {
                assert(r[i] == rp[i]);
                let j = choose|j: int| 0 <= j < prev.len()
                    && tokens(#[trigger] prev[j], true).len() >= 2 && tokens(prev[j], true)[1] == "device"@
                    && tokens(prev[j], true)[0] == rp[i];
                assert(lines[j] == prev[j]);
            } else {
                assert(lines[lines.len() - 1] == lines.last());
            }
        }
    }
}

/// Only a ready device is reported by `adb devices -l` parsing: the `i`-th serial
/// of the result comes from a line after the header whose state is exactly
/// `device`; a device that is `offline`, `unauthorized` or in any other state is
/// never picked up, and a line with such a state adds nothing.
pub proof fn law_only_ready_devices(stdout: Seq<char>, i: int, lines: Seq<Seq<char>>, line: Seq<char>)
    ensures
        0 <= i < device_serials(stdout).len() ==> exists|j: int|
            1 <= j < split_on(stdout, '\n').len()
            && tokens(#[trigger] split_on(stdout, '\n')[j], true).len() >= 2
            && tokens(split_on(stdout, '\n')[j], true)[1] == "device"@
            && tokens(split_on(stdout, '\n')[j], true)[0] == device_serials(stdout)[i],
        !(tokens(line, true).len() >= 2 && tokens(line, true)[1] == "device"@)
            ==> ready_serials(lines.push(line)) == ready_serials(lines),
{
    let ls = split_on(stdout, '\n');
    crate::text::lemma_split_on_nonempty(stdout, '\n');
    let body = ls.drop_first();
    lemma_ready_serials_from_device_lines(body);
    assert(device_serials(stdout) == ready_serials(body));
    if 0 <= i < device_serials(stdout).len() {
        assert(ready_serials(body)[i] == device_serials(stdout)[i]);
        let j = choose|j: int| 0 <= j < body.len()
            && tokens(#[trigger] body[j], true).len() >= 2 && tokens(body[j], true)[1] == "device"@
            && tokens(body[j], true)[0] == ready_serials(body)[i];
        assert(ls[j + 1] == body[j]);
        assert(tokens(ls[j + 1], true)[0] == device_serials(stdout)[i]);
    }
    assert(lines.push(line).drop_last() =~= lines);
}

/// A numeric `--threads` value is taken as given: a `u32` of at least one gives
/// exactly that many threads, whatever the host's logical CPU count.
pub proof fn law_numeric_threads_as_given(arg: Seq<char>, logical_cpus: u32)
    ensures
        parse_unsigned(arg, u32::MAX as nat) is Some && parse_unsigned(arg, u32::MAX as nat)->0 >= 1
            ==> threads_arg(arg, logical_cpus) == Ok::<u32, Seq<char>>(parse_unsigned(arg, u32::MAX as nat)->0 as u32),
{
    reveal_strlit("auto");
    if parse_unsigned(arg, u32::MAX as nat) is Some && eq_ignore_ascii_case(arg, "auto"@) {
        assert(ascii_lower(arg[0]) == ascii_lower("auto"@[0]));
        assert(arg[0] == 'a' || arg[0] == 'A');
        assert(is_ascii_digit(arg[0]));
    }
}

/// The sum of the values of the tokens that read as `u64`, the others counting
/// zero.
pub open spec fn numeric_token_sum(toks: Seq<Seq<char>>) -> int
    decreases toks.len(),
{
    if toks.len() == 0 {
        0
    } else {
        numeric_token_sum(toks.drop_first()) + token_value(toks[0])
    }
}

/// The value of a token that reads as `u64`; zero for any other token.
pub open spec fn token_value(t: Seq<char>) -> int {
    match parse_unsigned(t, u64::MAX as nat) {
        Some(v) => v as int,
        None => 0,
    }
}

proof fn lemma_values_sum(toks: Seq<Seq<char>>)
    ensures seq_sum(u64_values(toks)) == numeric_token_sum(toks),
    decreases toks.len(),
{
    if toks.len() > 0 {
        lemma_values_sum(toks.drop_last());
        lemma_token_sum_last(toks);
        let prev = u64_values(toks.drop_last());
        match parse_unsigned(toks.last(), u64::MAX as nat) {
            Some(n) => { assert(prev.push(n as u64).drop_last() =~= prev); },
            None => {},
        }
    }
}

proof fn lemma_token_sum_last(toks: Seq<Seq<char>>)
    requires toks.len() > 0,
    ensures numeric_token_sum(toks) == numeric_token_sum(toks.drop_last()) + token_value(toks.last()),
    decreases toks.len(),
{
    let a = toks.drop_first();
    let b = toks.drop_last();
    if toks.len() > 1 {
        lemma_token_sum_last(a);
        assert(b.drop_first() =~= a.drop_last());
        assert(a.last() == toks.last());
        assert(b[0] == toks[0]);
        assert(numeric_token_sum(toks) == numeric_token_sum(a) + token_value(toks[0]));
        assert(numeric_token_sum(b) == numeric_token_sum(b.drop_first()) + token_value(b[0]));
    } else {
        assert(a.len() == 0);
        assert(b.len() == 0);
        assert(toks.last() == toks[0]);
        assert(numeric_token_sum(toks) == numeric_token_sum(a) + token_value(toks[0]));
    }
}

/// The `/proc/stat` counters keep every numeric field of the aggregate `cpu` line:
/// their total is the sum of all the numbers after `cpu` on the first line,
/// however many the kernel reports (steal, guest and guest_nice included).
pub proof fn law_total_counts_every_field(s: Seq<char>)
    ensures
        proc_stat_fields(s) is Some ==> seq_sum(proc_stat_fields(s)->0)
            == numeric_token_sum(tokens(first_line(s), false).drop_first()),
{
    if proc_stat_fields(s) is Some {
        lemma_values_sum(tokens(first_line(s), false).drop_first());
    }
}

} // verus!
