use fleetbench::cli::Mode;
use fleetbench::cpu::{parse_threads, preset};

#[test]
fn parse_threads_auto_uses_logical_cpus() {
    assert_eq!(parse_threads("auto", 8).unwrap(), 8);
    assert_eq!(parse_threads("AUTO", 8).unwrap(), 8);
}

#[test]
fn parse_threads_numeric() {
    assert_eq!(parse_threads("4", 16).unwrap(), 4);
}

#[test]
fn parse_threads_rejects_zero_and_garbage() {
    assert!(parse_threads("0", 8).is_err());
    assert!(parse_threads("abc", 8).is_err());
}

#[test]
fn presets_match_design_doc() {
    let q = preset(Mode::Quick);
    assert_eq!(q.prime_limit, 10_000_000);
    assert_eq!(q.iterations, 3);
    let n = preset(Mode::Normal);
    assert_eq!(n.prime_limit, 100_000_000);
    assert_eq!(n.iterations, 5);
    let l = preset(Mode::Long);
    assert_eq!(l.prime_limit, 1_000_000_000);
    assert_eq!(l.iterations, 3);
}
