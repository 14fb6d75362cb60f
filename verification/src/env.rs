//! Reading the CPU time counters out of the text of `/proc/stat`.
use vstd::prelude::*;
use crate::schema::CpuCounters;
use crate::text::{chars_of, lemma_split_on_nonempty, parse_unsigned, parse_unsigned_range, pieces, range_eq, ranges_within, split_on, split_ranges, token_ranges, tokens};

verus! {

/// The `kind` of counters read from `/proc/stat` (units: jiffies).
pub const KIND_LINUX_PROC_STAT: &'static str = "linux_proc_stat";

/// The text of `s` before its first line feed.
pub open spec fn first_line(s: Seq<char>) -> Seq<char> {
    split_on(s, '\n')[0]
}

/// The values of the tokens in `toks` that read as `u64`, in order; the others are
/// skipped.
pub open spec fn u64_values(toks: Seq<Seq<char>>) -> Seq<u64>
    decreases toks.len(),
{
    if toks.len() == 0 {
        Seq::<u64>::empty()
    } else {
        let prev = u64_values(toks.drop_last());
        match parse_unsigned(toks.last(), u64::MAX as nat) {
            Some(n) => prev.push(n as u64),
            None => prev,
        }
    }
}

/// The sum of a sequence of counters.
pub open spec fn seq_sum(s: Seq<u64>) -> int
    decreases s.len(),
{
    if s.len() == 0 { 0 } else { seq_sum(s.drop_last()) + s.last() }
}

/// The counters of the aggregate `cpu` line of `/proc/stat`, as values: for a text
/// whose first line starts with the token `cpu` followed by at least four numeric
/// fields (user, nice, system, idle, ...), the numeric fields in order; `None` for
/// any other text.
pub open spec fn proc_stat_fields(s: Seq<char>) -> Option<Seq<u64>> {
    if s.len() == 0 {
        None
    } else {
        let toks = tokens(first_line(s), false);
        if toks.len() == 0 || toks[0] != "cpu"@ {
            None
        } else {
            let vals = u64_values(toks.drop_first());
            if vals.len() < 4 { None } else { Some(vals) }
        }
    }
}

/// The counters sum without overflowing a `u64` (or there are none to sum).
pub open spec fn proc_stat_total_fits_spec(s: Seq<char>) -> bool {
    match proc_stat_fields(s) {
        Some(vals) => seq_sum(vals) <= u64::MAX,
        None => true,
    }
}

/// A prefix of a sequence of counters sums to at most the whole.
pub proof fn lemma_seq_sum_prefix(s: Seq<u64>, k: int)
    requires 0 <= k <= s.len(),
    ensures 0 <= seq_sum(s.take(k)) <= seq_sum(s),
    decreases s.len() - k,
{
    if k < s.len() {
        assert(s.take(k + 1).drop_last() =~= s.take(k));
        lemma_seq_sum_prefix(s, k + 1);
        lemma_seq_sum_nonneg(s.take(k));
    } else {
        assert(s.take(k) =~= s);
        lemma_seq_sum_nonneg(s);
    }
}

/// Counters sum to a non-negative total.
pub proof fn lemma_seq_sum_nonneg(s: Seq<u64>)
    ensures seq_sum(s) >= 0,
    decreases s.len(),
{
    if s.len() > 0 {
        lemma_seq_sum_nonneg(s.drop_last());
    }
}

/// The numeric fields of the aggregate `cpu` line, or `None`.
fn proc_stat_values(contents: &str) -> (r: Option<Vec<u64>>)
    ensures
        match proc_stat_fields(contents@) {
            Some(vals) => r is Some && r->0@ == vals,
            None => r is None,
        },
{
    let v = chars_of(contents);
    if v.len() == 0 {
        return None;
    }
    let lines = split_ranges(&v, 0, v.len(), '\n');
    proof {
        assert(v@.subrange(0, v@.len() as int) =~= contents@);
        lemma_split_on_nonempty(contents@, '\n');
    }
    let (la, lb) = lines[0];
    assert(v@.subrange(la as int, lb as int) == first_line(contents@));
    let toks = token_ranges(&v, la, lb, false);
    let ghost tk = tokens(first_line(contents@), false);
    if toks.len() == 0 {
        return None;
    }
    let (ta, tb) = toks[0];
    assert(v@.subrange(ta as int, tb as int) == tk[0]);
    if !range_eq(&v, ta, tb, "cpu") {
        return None;
    }
    let mut vals: Vec<u64> = Vec::new();
    let mut i: usize = 1;
    while i < toks.len()
        invariant
            1 <= i <= toks@.len(),
            tk == pieces(v@, toks@),
            ranges_within(toks@, la as int, lb as int),
            lb <= v@.len(),
            vals@ == u64_values(tk.subrange(1, i as int)),
        decreases toks@.len() - i,
    {
        let (a, b) = toks[i];
        assert(tk.subrange(1, i + 1).drop_last() =~= tk.subrange(1, i as int));
        assert(v@.subrange(a as int, b as int) == tk[i as int]);
        match parse_unsigned_range(&v, a, b, u64::MAX) {
            Some(n) => { vals.push(n); }
            None => {}
        }
        i = i + 1;
    }
    assert(tk.subrange(1, toks@.len() as int) =~= tk.drop_first());
    if vals.len() < 4 {
        return None;
    }
    Some(vals)
}

/// Whether the counters of `contents` can be totalled in a `u64`; the caller of
/// `parse_proc_stat_counters` checks this first.
pub fn proc_stat_total_fits(contents: &str) -> (b: bool)
    ensures b == proc_stat_total_fits_spec(contents@),
{
    match proc_stat_values(contents) {
        None => true,
        Some(vals) => {
            let mut acc: u64 = 0;
            let mut k: usize = 0;
            while k < vals.len()
                invariant
                    k <= vals@.len(),
                    proc_stat_fields(contents@) == Some(vals@),
                    acc == seq_sum(vals@.take(k as int)),
                decreases vals@.len() - k,
            {
                assert(vals@.take(k + 1).drop_last() =~= vals@.take(k as int));
                proof { lemma_seq_sum_prefix(vals@, k as int); }
                if acc > u64::MAX - vals[k] {
                    proof {
                        lemma_seq_sum_prefix(vals@, k + 1);
                        assert(seq_sum(vals@.take(k + 1)) == acc + vals@[k as int]);
                        assert(seq_sum(vals@) > u64::MAX);
                    }
                    return false;
                }
                acc = acc + vals[k];
                k = k + 1;
            }
            assert(vals@.take(vals@.len() as int) =~= vals@);
            true
        }
    }
}

/// Reads the aggregate CPU time counters from the text of `/proc/stat`: the idle
/// field (the fourth), the iowait field (the fifth, where the kernel reports it) and
/// the total of all numeric fields. `None` unless the first line is the `cpu` line
/// with at least four numeric fields.
pub fn parse_proc_stat_counters(contents: &str) -> (r: Option<CpuCounters>)
    requires
        proc_stat_total_fits_spec(contents@),
    ensures
        match proc_stat_fields(contents@) {
            Some(vals) => r is Some && {
                let c = r->0;
                &&& c.kind@ == KIND_LINUX_PROC_STAT@
                &&& c.idle_units == vals[3]
                &&& c.iowait_units == if vals.len() > 4 { Some(vals[4]) } else { None }
                &&& c.total_units == seq_sum(vals)
            },
            None => r is None,
        },
{
    match proc_stat_values(contents) {
        None => None,
        Some(vals) => {
            let idle = vals[3];
            let iowait = if vals.len() > 4 { Some(vals[4]) } else { None };
            let mut total: u64 = 0;
            let mut k: usize = 0;
            while k < vals.len()
                invariant
                    k <= vals@.len(),
                    total == seq_sum(vals@.take(k as int)),
                    seq_sum(vals@) <= u64::MAX,
                decreases vals@.len() - k,
            {
                assert(vals@.take(k + 1).drop_last() =~= vals@.take(k as int));
                proof { lemma_seq_sum_prefix(vals@, k + 1); }
                total = total + vals[k];
                k = k + 1;
            }
            assert(vals@.take(vals@.len() as int) =~= vals@);
            Some(CpuCounters {
                kind: String::from_str(KIND_LINUX_PROC_STAT),
                idle_units: idle,
                iowait_units: iowait,
                total_units: total,
            })
        }
    }
}

} // verus!
