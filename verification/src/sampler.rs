//! The CPU frequency sampler's decisions: when to sample, which core a Windows
//! counter instance stands for, and the per-sample mean.
use vstd::prelude::*;
use crate::text::{
    chars_of, lemma_split_on_nonempty, parse_unsigned, parse_unsigned_range, pieces, range_eq, split_on,
    split_ranges,
};

verus! {

/// The sum of a sequence of per-core frequencies.
pub open spec fn sum_mhz(s: Seq<u32>) -> int
    decreases s.len(),
{
    if s.len() == 0 { 0 } else { sum_mhz(s.drop_last()) + s.last() }
}

/// The mean of the per-core frequencies, rounded down; 0 when there are none.
pub open spec fn mean_of(s: Seq<u32>) -> int {
    if s.len() == 0 { 0 } else { sum_mhz(s) / s.len() as int }
}

proof fn lemma_sum_mhz_bounds(s: Seq<u32>)
    ensures 0 <= sum_mhz(s) <= s.len() * u32::MAX,
    decreases s.len(),
{
    if s.len() > 0 {
        lemma_sum_mhz_bounds(s.drop_last());
    }
}

/// A prefix of the readings sums to at most the whole.
proof fn lemma_sum_mhz_prefix(s: Seq<u32>, k: int)
    requires 0 <= k <= s.len(),
    ensures sum_mhz(s.take(k)) <= sum_mhz(s),
    decreases s.len() - k,
{
    if k < s.len() {
        assert(s.take(k + 1).drop_last() =~= s.take(k));
        lemma_sum_mhz_prefix(s, k + 1);
    } else {
        assert(s.take(k) =~= s);
    }
}

/// The mean frequency of one sample across the cores (see `mean_of`); the readings
/// are summed in a `u64`.
pub fn mean_mhz(per_core_mhz: &Vec<u32>) -> (m: u32)
    requires sum_mhz(per_core_mhz@) <= u64::MAX,
    ensures m == mean_of(per_core_mhz@),
{
    let n = per_core_mhz.len();
    if n == 0 {
        return 0;
    }
    let mut total: u64 = 0;
    let mut i: usize = 0;
    while i < n
        invariant
            n == per_core_mhz@.len(),
            sum_mhz(per_core_mhz@) <= u64::MAX,
            i <= n,
            total == sum_mhz(per_core_mhz@.take(i as int)),
        decreases n - i,
    {
        let ghost t = per_core_mhz@.take(i + 1);
        assert(t.drop_last() =~= per_core_mhz@.take(i as int));
        proof { lemma_sum_mhz_prefix(per_core_mhz@, i + 1); }
        total = total + per_core_mhz[i] as u64;
        i = i + 1;
    }
    assert(per_core_mhz@.take(n as int) =~= per_core_mhz@);
    proof {
        lemma_sum_mhz_bounds(per_core_mhz@);
        assert(total / (n as u64) <= u32::MAX) by (nonlinear_arith)
            requires total <= n * u32::MAX, n >= 1;
    }
    (total / n as u64) as u32
}

// ---------------------------------------------------------------- schedule

/// One decision of the sampler at a poll `now` (nanoseconds since it started): take
/// a sample when `now` has reached `next_at`, and then aim one interval later.
pub open spec fn sample_step(now: int, next_at: int, interval: int) -> (bool, int) {
    if now >= next_at { (true, next_at + interval) } else { (false, next_at) }
}

/// Decides whether the poll at `now_nanos` takes a sample, and when the next one is
/// due (see `sample_step`).
pub fn sample_due(now_nanos: u64, next_at_nanos: u64, interval_nanos: u64) -> (r: (bool, u64))
    requires
        next_at_nanos + interval_nanos <= u64::MAX,
    ensures
        r.0 == (now_nanos >= next_at_nanos),
        r.1 == if r.0 { next_at_nanos + interval_nanos } else { next_at_nanos as int },
        (r.0, r.1 as int) == sample_step(now_nanos as int, next_at_nanos as int, interval_nanos as int),
{
    if now_nanos >= next_at_nanos {
        (true, next_at_nanos + interval_nanos)
    } else {
        (false, next_at_nanos)
    }
}

/// A sampler that starts with its first sample due at once and polls at the times
/// `polls`: the times at which it sampled, and when the next sample is due.
pub open spec fn schedule(polls: Seq<u64>, interval: u64) -> (Seq<u64>, int)
    decreases polls.len(),
{
    if polls.len() == 0 {
        (Seq::<u64>::empty(), 0)
    } else {
        let prev = schedule(polls.drop_last(), interval);
        let step = sample_step(polls.last() as int, prev.1, interval as int);
        (if step.0 { prev.0.push(polls.last()) } else { prev.0 }, step.1)
    }
}

/// The sampler takes its first sample on its first poll, and its `k`-th sample
/// (from 0) never earlier than `k` intervals after it started.
pub proof fn law_sampling_cadence(polls: Seq<u64>, interval: u64)
    ensures
        polls.len() > 0 ==> schedule(polls, interval).0.len() > 0 && schedule(polls, interval).0[0] == polls[0],
        schedule(polls, interval).1 == schedule(polls, interval).0.len() * interval,
        forall|k: int| 0 <= k < schedule(polls, interval).0.len()
            ==> #[trigger] schedule(polls, interval).0[k] >= k * interval,
    decreases polls.len(),
{
    if polls.len() > 0 {
        let prev = polls.drop_last();
        law_sampling_cadence(prev, interval);
        let (taken, next) = schedule(prev, interval);
        let cur = schedule(polls, interval).0;
        if polls.len() == 1 {
            assert(prev.len() == 0);
            assert(cur[0] == polls[0]);
        } else {
            assert(prev[0] == polls[0]);
            assert(cur[0] == taken[0]);
        }
        assert forall|k: int| 0 <= k < cur.len() implies #[trigger] cur[k] >= k * interval by {
            if k < taken.len() {
                assert(cur[k] == taken[k]);
            } else {
                assert(k == taken.len());
                assert(cur[k] == polls.last());
            }
        }
        assert(cur.len() * interval == if cur.len() > taken.len() { taken.len() * interval + interval }
            else { taken.len() * interval }) by (nonlinear_arith)
            requires cur.len() == taken.len() || cur.len() == taken.len() + 1;
    }
}

// ---------------------------------------------------------------- PDH instances

/// The logical processor a Windows PDH `% Processor Performance` instance stands
/// for. Instances are named `<group>,<core>`: the number after the last comma (the
/// whole name when there is none) where it reads as a `usize`; the aggregate
/// instance `_Total` stands for none.
pub open spec fn pdh_instance_core(name: Seq<char>) -> Option<nat> {
    if name == "_Total"@ {
        None
    } else {
        parse_unsigned(split_on(name, ',').last(), usize::MAX as nat)
    }
}

/// Reads the processor index out of a PDH instance name (see `pdh_instance_core`).
pub fn pdh_core_index(name: &str) -> (r: Option<usize>)
    ensures
        match pdh_instance_core(name@) {
            Some(i) => r == Some(i as usize),
            None => r is None,
        },
{
    let v = chars_of(name);
    assert(v@.subrange(0, v@.len() as int) =~= name@);
    if range_eq(&v, 0, v.len(), "_Total") {
        return None;
    }
    let parts = split_ranges(&v, 0, v.len(), ',');
    proof { lemma_split_on_nonempty(name@, ','); }
    let (a, b) = parts[parts.len() - 1];
    assert(pieces(v@, parts@).last() == v@.subrange(a as int, b as int));
    match parse_unsigned_range(&v, a, b, usize::MAX as u64) {
        Some(i) => Some(i as usize),
        None => None,
    }
}

} // verus!
