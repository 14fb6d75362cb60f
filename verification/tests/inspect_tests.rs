use fleetbench::inspect::{
    collect_cpu, collect_host, current_timestamp_utc, transfer_timestamp_utc, CpuReading, HostReadings,
};
use sysinfo::System;

fn readings(sys: &System) -> HostReadings {
    HostReadings {
        host_name: System::host_name(),
        os_family: System::distribution_id(),
        long_os_version: System::long_os_version(),
        os_version: System::os_version(),
        kernel_version: System::kernel_version(),
        arch: System::cpu_arch().unwrap_or_else(|| "unknown".to_string()),
        logical_cpus: sys.cpus().len(),
        physical_cores: sys.physical_core_count(),
    }
}

#[test]
fn collect_host_populates_required_fields() {
    let mut sys = System::new();
    sys.refresh_cpu_all();
    let host = collect_host(readings(&sys));
    assert!(!host.hostname.is_empty());
    assert!(!host.os_family.is_empty());
    assert!(!host.arch.is_empty());
    assert!(host.logical_cpus > 0);
}

#[test]
fn current_timestamp_is_iso8601_utc() {
    let ts = current_timestamp_utc();
    assert!(ts.ends_with('Z'));
    assert_eq!(ts.len(), 20);
    chrono::DateTime::parse_from_rfc3339(&ts).expect("valid RFC3339");
}

#[test]
fn transfer_timestamp_is_precise_rfc3339_utc() {
    let timestamp = transfer_timestamp_utc();
    assert!(timestamp.ends_with('Z'));
    assert!(timestamp.contains('.'));
    let parsed = chrono::DateTime::parse_from_rfc3339(&timestamp).unwrap();
    assert_eq!(parsed.offset().local_minus_utc(), 0);
}

#[test]
fn collect_host_falls_back_to_unknown_and_short_os_version() {
    let host = collect_host(HostReadings {
        host_name: None,
        os_family: "linux".to_string(),
        long_os_version: None,
        os_version: Some("24.04".to_string()),
        kernel_version: Some("6.8.0".to_string()),
        arch: "x86_64".to_string(),
        logical_cpus: 32,
        physical_cores: Some(16),
    });
    assert_eq!(host.hostname, "unknown");
    assert_eq!(host.os_version.as_deref(), Some("24.04"));
    assert_eq!(host.kernel_version.as_deref(), Some("6.8.0"));
    assert_eq!(host.logical_cpus, 32);
    assert_eq!(host.physical_cpus, Some(16));
}

#[test]
fn collect_host_prefers_long_os_version() {
    let host = collect_host(HostReadings {
        host_name: Some("perf-1".to_string()),
        os_family: "linux".to_string(),
        long_os_version: Some("Linux 24.04 Ubuntu".to_string()),
        os_version: Some("24.04".to_string()),
        kernel_version: None,
        arch: "aarch64".to_string(),
        logical_cpus: 8,
        physical_cores: None,
    });
    assert_eq!(host.hostname, "perf-1");
    assert_eq!(host.os_version.as_deref(), Some("Linux 24.04 Ubuntu"));
    assert!(host.physical_cpus.is_none());
}

#[test]
fn collect_cpu_trims_and_drops_blank_fields() {
    let cpus = vec![
        CpuReading { brand: "  AMD EPYC 7763  ".to_string(), vendor_id: "   ".to_string(), frequency: 0 },
        CpuReading { brand: "other".to_string(), vendor_id: "other".to_string(), frequency: 3000 },
    ];
    let c = collect_cpu(&cpus);
    assert_eq!(c.brand.as_deref(), Some("AMD EPYC 7763"));
    assert!(c.vendor.is_none());
    assert!(c.frequency_mhz.is_none());
}

#[test]
fn collect_cpu_reads_the_first_cpu() {
    let cpus = vec![CpuReading {
        brand: "Intel(R) Core(TM) i5-1340P".to_string(),
        vendor_id: "GenuineIntel".to_string(),
        frequency: 1900,
    }];
    let c = collect_cpu(&cpus);
    assert_eq!(c.brand.as_deref(), Some("Intel(R) Core(TM) i5-1340P"));
    assert_eq!(c.vendor.as_deref(), Some("GenuineIntel"));
    assert_eq!(c.frequency_mhz, Some(1900));
    let none = collect_cpu(&Vec::new());
    assert!(none.brand.is_none() && none.vendor.is_none() && none.frequency_mhz.is_none());
}
