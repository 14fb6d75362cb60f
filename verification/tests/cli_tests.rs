use fleetbench::cli::parse_duration_arg;

#[test]
fn parses_bare_seconds() {
    assert_eq!(parse_duration_arg("30").unwrap(), 30);
}

#[test]
fn parses_human_suffixes() {
    assert_eq!(parse_duration_arg("30s").unwrap(), 30);
    assert_eq!(parse_duration_arg("10m").unwrap(), 600);
    assert_eq!(parse_duration_arg("2h").unwrap(), 7200);
}

#[test]
fn rejects_zero_empty_and_bad_suffix() {
    assert!(parse_duration_arg("").is_err());
    assert!(parse_duration_arg("0").is_err());
    assert!(parse_duration_arg("0s").is_err());
    assert!(parse_duration_arg("10x").is_err());
    assert!(parse_duration_arg("abc").is_err());
}
