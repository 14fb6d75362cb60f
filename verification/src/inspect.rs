//! What the collector reports about the host and its processor, and when.
use vstd::prelude::*;
use crate::schema::{CpuInfo, HostInfo};
use crate::text::{digit_value, is_ascii_digit, trimmed_nonempty, trimmed_output};

verus! {

/// What the collector reads about one logical CPU.
pub struct CpuReading {
    pub brand: String,
    pub vendor_id: String,
    /// Frequency in MHz.
    pub frequency: u64,
}

/// What the collector reads about the host.
pub struct HostReadings {
    pub host_name: Option<String>,
    pub os_family: String,
    pub long_os_version: Option<String>,
    pub os_version: Option<String>,
    pub kernel_version: Option<String>,
    pub arch: String,
    pub logical_cpus: usize,
    pub physical_cores: Option<usize>,
}

/// The view of an optional string.
pub open spec fn opt_string_view(o: Option<String>) -> Option<Seq<char>> {
    match o {
        Some(s) => Some(s@),
        None => None,
    }
}

/// The processor record: from the first CPU, its brand and vendor trimmed (absent
/// when blank) and its frequency (absent when 0); all absent when no CPU was read.
pub fn collect_cpu(cpus: &Vec<CpuReading>) -> (c: CpuInfo)
    ensures
        cpus@.len() == 0 ==> c.brand is None && c.vendor is None && c.frequency_mhz is None,
        cpus@.len() > 0 ==> {
            &&& opt_string_view(c.brand) == trimmed_output(cpus@[0].brand@)
            &&& opt_string_view(c.vendor) == trimmed_output(cpus@[0].vendor_id@)
            &&& c.frequency_mhz == if cpus@[0].frequency as u32 > 0 {
                Some(cpus@[0].frequency as u32)
            } else {
                None
            }
        },
{
    if cpus.len() == 0 {
        return CpuInfo { brand: None, vendor: None, frequency_mhz: None };
    }
    let first = &cpus[0];
    let f: u32 = first.frequency as u32;
    CpuInfo {
        brand: trimmed_nonempty(first.brand.as_str()),
        vendor: trimmed_nonempty(first.vendor_id.as_str()),
        frequency_mhz: if f > 0 { Some(f) } else { None },
    }
}

/// The host record: the host name (`unknown` when unavailable), the long OS version
/// (else the short one), and the CPU counts.
pub fn collect_host(r: HostReadings) -> (h: HostInfo)
    ensures
        h.hostname@ == match r.host_name { Some(n) => n@, None => "unknown"@ },
        h.os_family == r.os_family,
        h.os_version == match r.long_os_version { Some(v) => Some(v), None => r.os_version },
        h.kernel_version == r.kernel_version,
        h.arch == r.arch,
        h.logical_cpus == r.logical_cpus as u32,
        h.physical_cpus == match r.physical_cores { Some(n) => Some(n as u32), None => None },
{
    HostInfo {
        hostname: match r.host_name {
            Some(n) => n,
            None => String::from_str("unknown"),
        },
        os_family: r.os_family,
        os_version: match r.long_os_version {
            Some(v) => Some(v),
            None => r.os_version,
        },
        kernel_version: r.kernel_version,
        arch: r.arch,
        logical_cpus: r.logical_cpus as u32,
        physical_cpus: match r.physical_cores {
            Some(n) => Some(n as u32),
            None => None,
        },
    }
}

/// `n` ASCII digits start at position `i` of `s`.
pub open spec fn digits_at(s: Seq<char>, i: int, n: int) -> bool {
    &&& 0 <= i
    &&& i + n <= s.len()
    &&& forall|k: int| 0 <= k < n ==> is_ascii_digit(#[trigger] s[i + k])
}

/// The value of the two decimal digits at position `i` of `s`.
pub open spec fn two_digits(s: Seq<char>, i: int) -> int {
    (digit_value(s[i]) * 10 + digit_value(s[i + 1])) as int
}

/// The shape of a UTC timestamp with `frac` fractional-second digits:
/// `YYYY-MM-DDTHH:MM:SS`, then `.` and `frac` digits when `frac > 0`, then `Z`. The
/// year has at least four digits and may carry a sign (outside years 0 to 9999);
/// the month is 01 to 12, the day 01 to 31, the hour below 24, the minute below 60
/// and the second at most 60 (a leap second).
pub open spec fn utc_timestamp_shape(s: Seq<char>, frac: nat) -> bool {
    let tail: int = if frac == 0 { 16 } else { 17 + frac as int };
    let b: int = s.len() - tail;
    &&& b >= 4
    &&& (is_ascii_digit(s[0]) || s[0] == '+' || s[0] == '-')
    &&& digits_at(s, 1, b - 1)
    &&& s[b] == '-' && digits_at(s, b + 1, 2) && 1 <= two_digits(s, b + 1) <= 12
    &&& s[b + 3] == '-' && digits_at(s, b + 4, 2) && 1 <= two_digits(s, b + 4) <= 31
    &&& s[b + 6] == 'T' && digits_at(s, b + 7, 2) && two_digits(s, b + 7) <= 23
    &&& s[b + 9] == ':' && digits_at(s, b + 10, 2) && two_digits(s, b + 10) <= 59
    &&& s[b + 12] == ':' && digits_at(s, b + 13, 2) && two_digits(s, b + 13) <= 60
    &&& frac > 0 ==> s[b + 15] == '.' && digits_at(s, b + 16, frac as int)
    &&& s.last() == 'Z'
}

/// The current UTC time as `YYYY-MM-DDTHH:MM:SSZ` (chrono's `Utc::now` formatted with
/// `%Y-%m-%dT%H:%M:%SZ`, each field zero-padded). Which time it shows depends on
/// the clock and is not stated.
#[verifier::external_body]
pub fn current_timestamp_utc() -> (s: String)
    ensures
        utc_timestamp_shape(s@, 0),
{
    chrono::Utc::now().format("%Y-%m-%dT%H:%M:%SZ").to_string()
}

/// The current UTC time in RFC 3339 with microseconds and a `Z` offset (chrono's
/// `Utc::now` rendered by `to_rfc3339_opts(SecondsFormat::Micros, true)`), for
/// correlating transfers across workers. Which time it shows depends on the clock
/// and is not stated.
#[verifier::external_body]
pub fn transfer_timestamp_utc() -> (s: String)
    ensures
        utc_timestamp_shape(s@, 6),
{
    chrono::Utc::now().to_rfc3339_opts(chrono::SecondsFormat::Micros, true)
}

} // verus!
