//! The order of work of an adb run: for each size in turn, generate its payloads,
//! push them back to back, verify the pushes on the device, pull them back to back
//! and check the pulled copies (when pulls are timed), and remove them from the
//! device. Checks never sit between two timed transfers of a size.
use vstd::prelude::*;
use crate::adb::ResolvedSize;
use crate::cli::AdbDirection;

verus! {

/// One step of an adb run, on the payload `index` of the size `bytes`.
#[derive(Debug, Clone, Copy, PartialEq, Eq, Structural)]
pub enum Step {
    /// Write the payload locally and record its digest.
    Generate { bytes: u64, index: u32 },
    /// Time pushing the payload to the device; adds a transfer record.
    Push { bytes: u64, index: u32 },
    /// Check the pushed copy's digest on the device; sets the outcome of transfer
    /// record `record`.
    Verify { bytes: u64, index: u32, record: usize },
    /// Time pulling the payload back; adds a transfer record.
    Pull { bytes: u64, index: u32 },
    /// Hash the pulled copy locally against the payload's digest; sets the outcome
    /// of transfer record `record`.
    CheckPull { bytes: u64, index: u32, record: usize },
    /// Remove the payload from the device.
    Cleanup { bytes: u64, index: u32 },
}

/// The kinds of steps, in the order they run for each size.
#[derive(Debug, Clone, Copy, PartialEq, Eq, Structural)]
pub enum Phase {
    Generate,
    Push,
    Verify,
    Pull,
    CheckPull,
    Cleanup,
}

/// The step of `phase` on payload `index`; a check (of a push or of a pull)
/// targets record `base + index`.
pub open spec fn step_of(phase: Phase, bytes: u64, index: u32, base: int) -> Step {
    match phase {
        Phase::Generate => Step::Generate { bytes, index },
        Phase::Push => Step::Push { bytes, index },
        Phase::Verify => Step::Verify { bytes, index, record: (base + index) as usize },
        Phase::Pull => Step::Pull { bytes, index },
        Phase::CheckPull => Step::CheckPull { bytes, index, record: (base + index) as usize },
        Phase::Cleanup => Step::Cleanup { bytes, index },
    }
}

/// The steps of `phase` on payloads `0..n`, in order.
pub open spec fn phase_block(phase: Phase, bytes: u64, n: u32, base: int) -> Seq<Step> {
    Seq::new(n as nat, |j: int| step_of(phase, bytes, j as u32, base))
}

/// How many transfer records a size adds: one per push, and one per pull when
/// pulls are timed.
pub open spec fn records_per_size(n: u32, direction: AdbDirection) -> nat {
    if direction == AdbDirection::Both { 2 * n as nat } else { n as nat }
}

/// The pulls of a size and their checks, when pulls are timed; the pull records
/// follow the `n` push records that start at record `base`.
pub open spec fn pull_steps(bytes: u64, n: u32, direction: AdbDirection, base: int) -> Seq<Step> {
    if direction == AdbDirection::Both {
        phase_block(Phase::Pull, bytes, n, base) + phase_block(Phase::CheckPull, bytes, n, base + n)
    } else {
        Seq::<Step>::empty()
    }
}

/// The steps of one size whose first transfer record will be record `base`.
pub open spec fn size_steps(bytes: u64, n: u32, direction: AdbDirection, base: int) -> Seq<Step> {
    phase_block(Phase::Generate, bytes, n, base) + phase_block(Phase::Push, bytes, n, base)
        + phase_block(Phase::Verify, bytes, n, base) + pull_steps(bytes, n, direction, base)
        + phase_block(Phase::Cleanup, bytes, n, base)
}

/// How many transfer records a run over `specs` produces.
pub open spec fn total_records(specs: Seq<ResolvedSize>, direction: AdbDirection) -> nat
    decreases specs.len(),
{
    if specs.len() == 0 {
        0
    } else {
        total_records(specs.drop_last(), direction) + records_per_size(specs.last().iterations, direction)
    }
}

/// The steps of a run over `specs`, size after size.
pub open spec fn transfer_steps(specs: Seq<ResolvedSize>, direction: AdbDirection) -> Seq<Step>
    decreases specs.len(),
{
    if specs.len() == 0 {
        Seq::<Step>::empty()
    } else {
        let prev = specs.drop_last();
        transfer_steps(prev, direction) + size_steps(
            specs.last().bytes,
            specs.last().iterations,
            direction,
            total_records(prev, direction) as int,
        )
    }
}

/// A prefix of the sizes produces no more records than all of them.
pub proof fn lemma_total_records_prefix(specs: Seq<ResolvedSize>, direction: AdbDirection, k: int)
    requires
        0 <= k <= specs.len(),
    ensures
        total_records(specs.take(k), direction) <= total_records(specs, direction),
    decreases specs.len() - k,
{
    if k < specs.len() {
        assert(specs.take(k + 1).drop_last() =~= specs.take(k));
        lemma_total_records_prefix(specs, direction, k + 1);
    } else {
        assert(specs.take(k) =~= specs);
    }
}

/// Appends the steps of `phase` on payloads `0..n`.
fn push_phase(plan: &mut Vec<Step>, phase: Phase, bytes: u64, n: u32, base: usize)
    requires
        base + n <= usize::MAX,
    ensures
        final(plan)@ == old(plan)@ + phase_block(phase, bytes, n, base as int),
{
    let ghost start = old(plan)@;
    let mut i: u32 = 0;
    while i < n
        invariant
            i <= n,
            base + n <= usize::MAX,
            plan@ == start + phase_block(phase, bytes, i, base as int),
        decreases n - i,
    {
        let step = match phase {
            Phase::Generate => Step::Generate { bytes, index: i },
            Phase::Push => Step::Push { bytes, index: i },
            Phase::Verify => Step::Verify { bytes, index: i, record: base + i as usize },
            Phase::Pull => Step::Pull { bytes, index: i },
            Phase::CheckPull => Step::CheckPull { bytes, index: i, record: base + i as usize },
            Phase::Cleanup => Step::Cleanup { bytes, index: i },
        };
        assert(step == step_of(phase, bytes, i, base as int));
        plan.push(step);
        assert(phase_block(phase, bytes, (i + 1) as u32, base as int) =~= phase_block(phase, bytes, i, base as int).push(step));
        i = i + 1;
    }
}

/// The steps of an adb run over `specs` (see `transfer_steps`).
pub fn transfer_plan(specs: &Vec<ResolvedSize>, direction: AdbDirection) -> (plan: Vec<Step>)
    requires
        total_records(specs@, direction) <= usize::MAX,
    ensures
        plan@ == transfer_steps(specs@, direction),
{
    let mut plan: Vec<Step> = Vec::new();
    let mut base: usize = 0;
    let mut s: usize = 0;
    assert(specs@.take(0) =~= Seq::<ResolvedSize>::empty());
    while s < specs.len()
        invariant
            s <= specs@.len(),
            total_records(specs@, direction) <= usize::MAX,
            plan@ == transfer_steps(specs@.take(s as int), direction),
            base == total_records(specs@.take(s as int), direction),
        decreases specs@.len() - s,
    {
        let spec = specs[s];
        let ghost prev = specs@.take(s as int);
        proof {
            assert(specs@.take(s + 1).drop_last() =~= prev);
            assert(specs@.take(s + 1).last() == spec);
            lemma_total_records_prefix(specs@, direction, s + 1);
        }
        let n = spec.iterations;
        let ghost before = plan@;
        push_phase(&mut plan, Phase::Generate, spec.bytes, n, base);
        push_phase(&mut plan, Phase::Push, spec.bytes, n, base);
        push_phase(&mut plan, Phase::Verify, spec.bytes, n, base);
        let added: usize = if direction.times_pulls() {
            push_phase(&mut plan, Phase::Pull, spec.bytes, n, base);
            push_phase(&mut plan, Phase::CheckPull, spec.bytes, n, base + n as usize);
            2 * (n as usize)
        } else {
            n as usize
        };
        push_phase(&mut plan, Phase::Cleanup, spec.bytes, n, base);
        proof {
            let g = phase_block(Phase::Generate, spec.bytes, n, base as int);
            let p = phase_block(Phase::Push, spec.bytes, n, base as int);
            let v = phase_block(Phase::Verify, spec.bytes, n, base as int);
            let q = phase_block(Phase::Pull, spec.bytes, n, base as int);
            let k = phase_block(Phase::CheckPull, spec.bytes, n, base + n);
            let c = phase_block(Phase::Cleanup, spec.bytes, n, base as int);
            if direction == AdbDirection::Both {
                assert(plan@ =~= before + (g + p + v + (q + k) + c));
            } else {
                assert(plan@ =~= before + (g + p + v + Seq::<Step>::empty() + c));
            }
        }
        base = base + added;
        s = s + 1;
    }
    assert(specs@.take(specs@.len() as int) =~= specs@);
    plan
}


/// Whether a step adds a transfer record.
pub open spec fn adds_record(step: Step) -> bool {
    step is Push || step is Pull
}

/// How many transfer records the steps `s` add.
pub open spec fn records_in(s: Seq<Step>) -> nat
    decreases s.len(),
{
    if s.len() == 0 {
        0
    } else {
        records_in(s.drop_last()) + if adds_record(s.last()) { 1nat } else { 0nat }
    }
}

/// Records add up over consecutive runs of steps.
pub proof fn lemma_records_in_concat(a: Seq<Step>, b: Seq<Step>)
    ensures
        records_in(a + b) == records_in(a) + records_in(b),
    decreases b.len(),
{
    if b.len() > 0 {
        lemma_records_in_concat(a, b.drop_last());
        assert((a + b).drop_last() =~= a + b.drop_last());
    } else {
        assert(a + b =~= a);
    }
}

/// A block of pushes or pulls adds one record per step; any other block none.
pub proof fn lemma_records_in_block(phase: Phase, bytes: u64, n: u32, base: int)
    ensures
        records_in(phase_block(phase, bytes, n, base))
            == if phase == Phase::Push || phase == Phase::Pull { n as nat } else { 0nat },
    decreases n,
{
    if n > 0 {
        let m = (n - 1) as u32;
        lemma_records_in_block(phase, bytes, m, base);
        assert(phase_block(phase, bytes, n, base).drop_last() =~= phase_block(phase, bytes, m, base));
    } else {
        assert(phase_block(phase, bytes, n, base) =~= Seq::<Step>::empty());
    }
}

/// The first `i` steps of a block are the block of the first `i` payloads.
pub proof fn lemma_block_prefix(phase: Phase, bytes: u64, n: u32, base: int, i: u32)
    requires
        i <= n,
    ensures
        phase_block(phase, bytes, n, base).take(i as int) == phase_block(phase, bytes, i, base),
{
    assert(phase_block(phase, bytes, n, base).take(i as int) =~= phase_block(phase, bytes, i, base));
}

/// A run produces as many records as `total_records` counts.
pub proof fn lemma_records_in_steps(specs: Seq<ResolvedSize>, direction: AdbDirection)
    ensures
        records_in(transfer_steps(specs, direction)) == total_records(specs, direction),
    decreases specs.len(),
{
    if specs.len() > 0 {
        let prev = specs.drop_last();
        let last = specs.last();
        let base = total_records(prev, direction) as int;
        lemma_records_in_steps(prev, direction);
        let g = phase_block(Phase::Generate, last.bytes, last.iterations, base);
        let p = phase_block(Phase::Push, last.bytes, last.iterations, base);
        let v = phase_block(Phase::Verify, last.bytes, last.iterations, base);
        let q = pull_steps(last.bytes, last.iterations, direction, base);
        let c = phase_block(Phase::Cleanup, last.bytes, last.iterations, base);
        lemma_records_in_block(Phase::Generate, last.bytes, last.iterations, base);
        lemma_records_in_block(Phase::Push, last.bytes, last.iterations, base);
        lemma_records_in_block(Phase::Verify, last.bytes, last.iterations, base);
        lemma_records_in_block(Phase::Pull, last.bytes, last.iterations, base);
        lemma_records_in_block(Phase::CheckPull, last.bytes, last.iterations, base + last.iterations);
        lemma_records_in_block(Phase::Cleanup, last.bytes, last.iterations, base);
        assert(records_in(Seq::<Step>::empty()) == 0);
        lemma_records_in_concat(
            phase_block(Phase::Pull, last.bytes, last.iterations, base),
            phase_block(Phase::CheckPull, last.bytes, last.iterations, base + last.iterations),
        );
        lemma_records_in_concat(g, p);
        lemma_records_in_concat(g + p, v);
        lemma_records_in_concat(g + p + v, q);
        lemma_records_in_concat(g + p + v + q, c);
        lemma_records_in_concat(transfer_steps(prev, direction), g + p + v + q + c);
    }
}

} // verus!
