//! The decisions of the CPU benchmark command: presets, the `--threads` argument,
//! the run's configuration and its exit code.
use vstd::prelude::*;
use crate::cli::Mode;
use crate::schema::{failure_exit_code, Config, ErrorInfo, Status, ERR_CORRECTNESS_CHECK_FAILED};
use crate::text::{
    chars_of, debug_str, eq_ignore_ascii_case, message_debug_range, parse_unsigned,
    parse_unsigned_range, range_eq, range_eq_ignore_ascii_case,
};

verus! {

/// The workload size of a preset: its name, the sieve limit and the iteration count.
pub struct ModePreset {
    pub name: &'static str,
    pub prime_limit: u64,
    pub iterations: u32,
}

/// The preset values of a mode: pi(10^7) three times, pi(10^8) five times or pi(10^9)
/// three times.
pub open spec fn preset_values(mode: Mode) -> (Seq<char>, u64, u32) {
    match mode {
        Mode::Quick => ("quick"@, 10_000_000, 3),
        Mode::Normal => ("normal"@, 100_000_000, 5),
        Mode::Long => ("long"@, 1_000_000_000, 3),
    }
}

pub fn preset(mode: Mode) -> (p: ModePreset)
    ensures
        (p.name@, p.prime_limit, p.iterations) == preset_values(mode),
{
    match mode {
        Mode::Quick => ModePreset { name: "quick", prime_limit: 10_000_000, iterations: 3 },
        Mode::Normal => ModePreset { name: "normal", prime_limit: 100_000_000, iterations: 5 },
        Mode::Long => ModePreset { name: "long", prime_limit: 1_000_000_000, iterations: 3 },
    }
}

/// The meaning of a `--threads` argument: `auto` in any ASCII case means every
/// logical CPU (at least one); otherwise a positive `u32`; or the message that
/// rejects the argument.
pub open spec fn threads_arg(arg: Seq<char>, logical_cpus: u32) -> Result<u32, Seq<char>> {
    if eq_ignore_ascii_case(arg, "auto"@) {
        Ok(if logical_cpus >= 1 { logical_cpus } else { 1 })
    } else {
        match parse_unsigned(arg, u32::MAX as nat) {
            None => Err("invalid --threads value: "@ + debug_str(arg)
                + " (expected 'auto' or a positive integer)"@),
            Some(n) => if n == 0 {
                Err("--threads must be at least 1"@)
            } else {
                Ok(n as u32)
            },
        }
    }
}

/// Parses the `--threads` argument against the host's logical CPU count.
pub fn parse_threads(arg: &str, logical_cpus: u32) -> (r: Result<u32, String>)
    ensures
        match threads_arg(arg@, logical_cpus) {
            Ok(n) => r == Ok::<u32, String>(n),
            Err(m) => r is Err && r->Err_0@ == m,
        },
{
    let v = chars_of(arg);
    assert(v@.subrange(0, v@.len() as int) =~= arg@);
    if range_eq_ignore_ascii_case(&v, 0, v.len(), "auto") {
        return Ok(if logical_cpus >= 1 { logical_cpus } else { 1 });
    }
    match parse_unsigned_range(&v, 0, v.len(), u32::MAX as u64) {
        None => Err(message_debug_range(
            "invalid --threads value: ",
            &v,
            0,
            v.len(),
            " (expected 'auto' or a positive integer)",
        )),
        Some(n) => {
            if n == 0 {
                Err(String::from_str("--threads must be at least 1"))
            } else {
                Ok(n as u32)
            }
        }
    }
}

/// The configuration of a fixed-iteration CPU run: the preset's limit and iteration
/// count unless overridden, no warmup recorded, no duration.
pub fn cpu_config(mode: Mode, limit: Option<u64>, iterations: Option<u32>, threads: u32) -> (c: Config)
    ensures
        c.command@ == "cpu"@,
        c.mode@ == preset_values(mode).0,
        c.prime_limit == match limit { Some(l) => l, None => preset_values(mode).1 },
        c.iterations == match iterations { Some(n) => n, None => preset_values(mode).2 },
        c.threads == threads,
        !c.warmup_enabled,
        c.warmup_prime_limit is None,
        c.duration_seconds is None,
{
    let p = preset(mode);
    Config {
        command: String::from_str("cpu"),
        mode: String::from_str(p.name),
        prime_limit: match limit { Some(l) => l, None => p.prime_limit },
        iterations: match iterations { Some(n) => n, None => p.iterations },
        threads,
        warmup_enabled: false,
        warmup_prime_limit: None,
        duration_seconds: None,
    }
}

/// The exit code of a CPU run: 0 on success, 2 when it failed a correctness check,
/// 1 for any other failure.
pub fn run_exit_code(status: Status, error: &Option<ErrorInfo>) -> (code: i32)
    ensures
        code == match status {
            Status::Succeeded => 0i32,
            Status::Failed => match error {
                Some(e) => failure_exit_code(e.kind@),
                None => 1i32,
            },
        },
{
    match status {
        Status::Succeeded => 0,
        Status::Failed => match error {
            Some(e) => {
                let k = chars_of(e.kind.as_str());
                assert(k@.subrange(0, k@.len() as int) =~= e.kind@);
                if range_eq(&k, 0, k.len(), ERR_CORRECTNESS_CHECK_FAILED) { 2 } else { 1 }
            }
            None => 1,
        },
    }
}


/// Whether a time-bounded (`--duration`) run starts another iteration: always when
/// none has completed yet, so that every such run reports at least one; afterwards
/// only while the elapsed time is below the requested duration.
pub fn continue_timed_run(completed: u64, elapsed_nanos: u64, duration_nanos: u64) -> (b: bool)
    ensures
        b == (completed == 0 || elapsed_nanos < duration_nanos),
{
    completed == 0 || elapsed_nanos < duration_nanos
}

} // verus!
