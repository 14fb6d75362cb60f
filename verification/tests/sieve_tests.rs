use fleetbench::sieve::{first_multiple_in_range, known_pi, run_1t, segmented_sieve_count, simple_sieve};

#[test]
fn simple_sieve_handles_small_values() {
    assert!(simple_sieve(0).is_empty());
    assert!(simple_sieve(1).is_empty());
    assert_eq!(simple_sieve(2), vec![2]);
    assert_eq!(simple_sieve(10), vec![2, 3, 5, 7]);
}

#[test]
fn segmented_sieve_matches_known_pi_values() {
    for &n in &[10u64, 100, 1_000, 10_000, 100_000, 1_000_000] {
        let expected = known_pi(n).unwrap();
        let got = segmented_sieve_count(n);
        assert_eq!(got, expected, "pi({n}) expected {expected}, got {got}");
    }
}

#[test]
fn segmented_sieve_pi_10_million() {
    assert_eq!(segmented_sieve_count(10_000_000), 664_579);
}

#[test]
fn run_1t_emits_one_iteration_per_request() {
    let r = run_1t(100_000, 3).unwrap();
    assert_eq!(r.len(), 3);
    for it in &r {
        assert_eq!(it.prime_count, 9_592);
        assert!(it.elapsed_nanos as f64 / 1e9 >= 0.0);
    }
}

#[test]
fn run_1t_reports_correctness_failure_for_unknown_limit_passes() {
    // limits without a known pi value should not fail validation
    let r = run_1t(12_345, 1).unwrap();
    assert_eq!(r.len(), 1);
}

#[test]
fn first_multiple_in_range_starts_at_p_squared_when_above_low() {
    assert_eq!(first_multiple_in_range(7, 10), 49);
    assert_eq!(first_multiple_in_range(3, 10), 12);
    assert_eq!(first_multiple_in_range(5, 25), 25);
}
