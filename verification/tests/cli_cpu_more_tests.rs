use fleetbench::cli::{parse_duration_arg, AdbDirection, Mode};
use fleetbench::cpu::{continue_timed_run, cpu_config, parse_threads, run_exit_code};
use fleetbench::env::{parse_proc_stat_counters, proc_stat_total_fits};
use fleetbench::schema::{ErrorInfo, Status};

#[test]
fn direction_names_and_pulls() {
    assert_eq!(AdbDirection::Both.as_str(), "both");
    assert_eq!(AdbDirection::Push.as_str(), "push");
    assert!(AdbDirection::Both.times_pulls());
    assert!(!AdbDirection::Push.times_pulls());
}

#[test]
fn duration_errors_and_trimming() {
    assert_eq!(parse_duration_arg(" 45m ").unwrap(), 2700);
    assert_eq!(parse_duration_arg("").unwrap_err(), "duration must not be empty");
    assert_eq!(parse_duration_arg("0h").unwrap_err(), "duration must be greater than zero");
    assert_eq!(parse_duration_arg("10x").unwrap_err(), "invalid duration suffix 'x' (expected s, m, h)");
    assert_eq!(parse_duration_arg("xs").unwrap_err(), "invalid duration \"xs\" (expected e.g. 30s, 10m, 1h)");
    assert_eq!(
        parse_duration_arg("9999999999999999h").unwrap_err(),
        "duration \"9999999999999999h\" overflows seconds"
    );
    assert_eq!(parse_duration_arg("+5s").unwrap(), 5);
}

#[test]
fn thread_counts_are_positive() {
    assert_eq!(parse_threads("auto", 0).unwrap(), 1);
    assert_eq!(parse_threads("Auto", 3).unwrap(), 3);
    assert_eq!(parse_threads("0", 8).unwrap_err(), "--threads must be at least 1");
    assert_eq!(
        parse_threads("-1", 8).unwrap_err(),
        "invalid --threads value: \"-1\" (expected 'auto' or a positive integer)"
    );
    assert!(parse_threads("4294967296", 8).is_err());
}

#[test]
fn cpu_config_takes_overrides_over_the_preset() {
    let c = cpu_config(Mode::Quick, None, None, 8);
    assert_eq!((c.command.as_str(), c.mode.as_str()), ("cpu", "quick"));
    assert_eq!((c.prime_limit, c.iterations, c.threads), (10_000_000, 3, 8));
    assert!(!c.warmup_enabled && c.warmup_prime_limit.is_none() && c.duration_seconds.is_none());
    let c = cpu_config(Mode::Long, Some(12_345), Some(9), 2);
    assert_eq!((c.mode.as_str(), c.prime_limit, c.iterations), ("long", 12_345, 9));
}

#[test]
fn cpu_exit_codes() {
    let err = |kind: &str| Some(ErrorInfo { kind: kind.to_string(), message: String::new() });
    assert_eq!(run_exit_code(Status::Succeeded, &None), 0);
    assert_eq!(run_exit_code(Status::Failed, &err("correctness_check_failed")), 2);
    assert_eq!(run_exit_code(Status::Failed, &err("invalid_arguments")), 1);
    assert_eq!(run_exit_code(Status::Failed, &None), 1);
}

#[test]
fn proc_stat_totals_that_would_overflow_are_detected() {
    assert!(proc_stat_total_fits("cpu 1 2 3 4\n"));
    assert!(proc_stat_total_fits("intr 18446744073709551615 1\n"));
    assert!(!proc_stat_total_fits("cpu 18446744073709551615 0 0 1\n"));
    let c = parse_proc_stat_counters("cpu 18446744073709551614 0 0 1\n").unwrap();
    assert_eq!(c.total_units, u64::MAX);
}

#[test]
fn proc_stat_skips_non_numeric_fields() {
    let c = parse_proc_stat_counters("cpu 10 x 20 30 40\n").unwrap();
    assert_eq!(c.idle_units, 40);
    assert_eq!(c.iowait_units, None);
    assert_eq!(c.total_units, 100);
}

#[test]
fn timed_runs_complete_at_least_one_iteration() {
    assert!(continue_timed_run(0, 5_000, 1_000));
    assert!(continue_timed_run(3, 999, 1_000));
    assert!(!continue_timed_run(3, 1_000, 1_000));
    assert!(!continue_timed_run(1, u64::MAX, 0));
}
