use fleetbench::adb::{parse_iterations_arg, parse_size_token, resolve_specs};

#[test]
fn parse_size_token_handles_suffixes() {
    assert_eq!(parse_size_token("25B").unwrap(), 25);
    assert_eq!(parse_size_token("25").unwrap(), 25);
    assert_eq!(parse_size_token("1K").unwrap(), 1024);
    assert_eq!(parse_size_token("1M").unwrap(), 1024 * 1024);
    assert_eq!(parse_size_token("10m").unwrap(), 10 * 1024 * 1024);
    assert_eq!(parse_size_token("1G").unwrap(), 1024 * 1024 * 1024);
}

#[test]
fn parse_size_token_rejects_bad_input() {
    assert!(parse_size_token("").is_err());
    assert!(parse_size_token("0").is_err());
    assert!(parse_size_token("0M").is_err());
    assert!(parse_size_token("10x").is_err());
    assert!(parse_size_token("abc").is_err());
}

#[test]
fn parse_iterations_arg_parses_map() {
    let v = parse_iterations_arg(Some("25B=50,1M=20")).unwrap();
    assert_eq!(v, vec![(25, 50), (1024 * 1024, 20)]);
}

#[test]
fn parse_iterations_arg_rejects_zero_and_bad() {
    assert!(parse_iterations_arg(Some("25B=0")).is_err());
    assert!(parse_iterations_arg(Some("25B")).is_err());
    assert!(parse_iterations_arg(Some("25B=abc")).is_err());
}

#[test]
fn resolve_specs_uses_defaults() {
    let specs = resolve_specs(None, None).unwrap();
    assert_eq!(specs.len(), 4);
    let s25 = &specs[0];
    assert_eq!(s25.bytes, 25);
    assert_eq!(s25.iterations, 200);
}

#[test]
fn resolve_specs_applies_overrides() {
    let specs = resolve_specs(None, Some("25B=10,1M=5")).unwrap();
    let s25 = specs.iter().find(|s| s.bytes == 25).unwrap();
    let s1m = specs.iter().find(|s| s.bytes == 1024 * 1024).unwrap();
    assert_eq!(s25.iterations, 10);
    assert_eq!(s1m.iterations, 5);
}

#[test]
fn resolve_specs_requires_iterations_for_custom_size() {
    let err = resolve_specs(Some("7B"), None).unwrap_err();
    assert!(err.contains("no iteration count"));
    let ok = resolve_specs(Some("7B"), Some("7B=3")).unwrap();
    assert_eq!(ok.len(), 1);
    assert_eq!(ok[0].bytes, 7);
    assert_eq!(ok[0].iterations, 3);
}
