use fleetbench::env::parse_proc_stat_counters;

#[test]
fn parses_proc_stat_counters() {
    let s = "cpu  100 0 50 1000 10 0 5 0 0 0\ncpu0 50 0 25 500 5 0 2 0 0 0\n";
    let got = parse_proc_stat_counters(s).unwrap();
    assert_eq!(got.kind, "linux_proc_stat");
    assert_eq!(got.idle_units, 1000);
    assert_eq!(got.iowait_units, Some(10));
    // total = 100+0+50+1000+10+0+5+0+0+0 = 1165
    assert_eq!(got.total_units, 1165);
}

#[test]
fn parses_proc_stat_without_iowait() {
    // Old kernels may not have iowait; require at least idle (4 fields).
    let s = "cpu 100 0 50 1000\n";
    let got = parse_proc_stat_counters(s).unwrap();
    assert_eq!(got.idle_units, 1000);
    assert!(got.iowait_units.is_none());
    assert_eq!(got.total_units, 1150);
}

#[test]
fn parse_counters_rejects_unexpected_first_line() {
    assert!(parse_proc_stat_counters("intr 1 2 3\n").is_none());
    assert!(parse_proc_stat_counters("").is_none());
}

#[test]
fn parse_counters_handles_short_lines() {
    assert!(parse_proc_stat_counters("cpu 1 2 3\n").is_none());
}

#[test]
fn differencing_counters_recovers_cpu_percent() {
    // Analysis-layer math: given two snapshots, recover the busy fraction
    // over the window between them.
    let a = parse_proc_stat_counters("cpu 100 0 100 1000 0 0 0 0 0 0\n").unwrap();
    let b = parse_proc_stat_counters("cpu 200 0 200 1200 0 0 0 0 0 0\n").unwrap();
    // a: total=1200, idle=1000.  b: total=1600, idle=1200.
    let total_d = b.total_units - a.total_units; // 400
    let idle_d = b.idle_units - a.idle_units; // 200
    let busy_pct = (total_d - idle_d) as f64 / total_d as f64 * 100.0;
    assert!((busy_pct - 50.0).abs() < 1e-9, "got {busy_pct}");
}
