//! The records that the collector reports, for the parts of its envelope that hold
//! plain values.
use vstd::prelude::*;

verus! {

/// Version of the envelope layout.
pub const SCHEMA_VERSION: u32 = 6;
/// Version of the CPU workload suite.
pub const CPU_SUITE_VERSION: &'static str = "cpu-v0";
/// Version of the adb workload suite.
pub const ADB_SUITE_VERSION: &'static str = "adb-v0";

/// Error kind: the command-line arguments were not understood.
pub const ERR_INVALID_ARGUMENTS: &'static str = "invalid_arguments";
/// Error kind: the adb binary could not be run.
pub const ERR_ADB_NOT_FOUND: &'static str = "adb_not_found";
/// Error kind: no usable device (none attached, or not the one requested).
pub const ERR_NO_DEVICE: &'static str = "no_device";
/// Error kind: several devices attached and none chosen.
pub const ERR_MULTIPLE_DEVICES: &'static str = "multiple_devices";
/// Error kind: an adb command failed.
pub const ERR_ADB_COMMAND_FAILED: &'static str = "adb_command_failed";
/// Error kind: local file system trouble.
pub const ERR_IO: &'static str = "io_error";
/// Error kind: a result did not match its known-good value.
pub const ERR_CORRECTNESS_CHECK_FAILED: &'static str = "correctness_check_failed";

/// The exit code of a run that failed with an error of `kind`: 2 for a failed
/// correctness check, 1 for anything else.
pub open spec fn failure_exit_code(kind: Seq<char>) -> i32 {
    if kind == ERR_CORRECTNESS_CHECK_FAILED@ { 2 } else { 1 }
}

/// Outcome of one collector invocation.
#[derive(Debug, Clone, Copy, PartialEq, Eq, Structural)]
pub enum Status {
    Succeeded,
    Failed,
}

/// What the collector records about the host.
#[derive(Debug)]
pub struct HostInfo {
    pub hostname: String,
    pub os_family: String,
    pub os_version: Option<String>,
    pub kernel_version: Option<String>,
    pub arch: String,
    pub logical_cpus: u32,
    pub physical_cpus: Option<u32>,
}

/// What the collector records about the processor.
#[derive(Debug)]
pub struct CpuInfo {
    pub brand: Option<String>,
    pub vendor: Option<String>,
    pub frequency_mhz: Option<u32>,
}

/// The configuration of a CPU benchmark run.
#[derive(Debug)]
pub struct Config {
    pub command: String,
    pub mode: String,
    pub prime_limit: u64,
    pub iterations: u32,
    pub threads: u32,
    pub warmup_enabled: bool,
    pub warmup_prime_limit: Option<u64>,
    /// When set, the run is time-bounded: the multi-threaded sieve loops until this
    /// many seconds elapse and `iterations` counts the iterations completed.
    pub duration_seconds: Option<u64>,
}

/// Raw CPU time counters at one point in time; differencing two snapshots gives the
/// CPU utilization over the window between them. `kind` names the units.
#[derive(Debug, Clone)]
pub struct CpuCounters {
    pub kind: String,
    pub idle_units: u64,
    pub iowait_units: Option<u64>,
    pub total_units: u64,
}

/// A failure, by category (`kind`) and human-readable detail.
#[derive(Debug, Clone)]
pub struct ErrorInfo {
    pub kind: String,
    pub message: String,
}

/// The configuration of an adb I/O benchmark run.
#[derive(Debug)]
pub struct AdbConfig {
    pub command: String,
    pub adb_path: String,
    pub serial: Option<String>,
    pub remote_path: String,
    pub sizes: Vec<AdbSizeSpec>,
}

/// One transfer size of an adb run and how many transfers of it are timed.
#[derive(Debug, Clone, Copy, PartialEq, Eq, Structural)]
pub struct AdbSizeSpec {
    pub size_bytes: u64,
    pub iterations: u32,
}

/// The adb tool and USB environment an adb run saw.
#[derive(Debug)]
pub struct AdbEnv {
    pub adb_version: Option<String>,
    /// `lsusb -t` output captured on Linux hosts; `None` elsewhere or when lsusb is
    /// unavailable.
    pub lsusb_topology: Option<String>,
}

} // verus!
