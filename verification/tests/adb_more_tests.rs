use fleetbench::adb::{
    adb_config, exit_code_for, format_size, local_payload_name, parse_device_serials, parse_size_token,
    pulled_payload_name, remote_dir, remote_payload_path, resolve_specs, select_device, sha256sum_matches,
    to_hex_lower, transfers_outcome,
};
use fleetbench::schema::{ErrorInfo, Status};
use sha2::{Digest, Sha256};

#[test]
fn format_size_uses_largest_exact_unit() {
    assert_eq!(format_size(25), "25B");
    assert_eq!(format_size(1024), "1K");
    assert_eq!(format_size(1536), "1536B");
    assert_eq!(format_size(3 * 1024 * 1024), "3M");
    assert_eq!(format_size(10 * 1024 * 1024), "10M");
    assert_eq!(format_size(2048 * 1024 * 1024), "2G");
    assert_eq!(format_size(1025 * 1024), "1025K");
    assert_eq!(format_size(0), "0B");
}

#[test]
fn size_labels_read_back_as_the_same_size() {
    for &n in &[1u64, 25, 1024, 1536, 1024 * 1024, 100 * 1024 * 1024, 1024 * 1024 * 1024, 5 << 40] {
        assert_eq!(parse_size_token(&format_size(n)).unwrap(), n);
    }
}

#[test]
fn size_token_errors_name_the_token() {
    assert_eq!(parse_size_token("").unwrap_err(), "empty size token");
    assert_eq!(parse_size_token("10x").unwrap_err(), "invalid size suffix 'x' in \"10x\" (expected B, K, M, G)");
    assert_eq!(parse_size_token("abc").unwrap_err(), "invalid size suffix 'c' in \"abc\" (expected B, K, M, G)");
    assert_eq!(parse_size_token("0M").unwrap_err(), "size \"0M\" must be greater than zero");
    assert_eq!(parse_size_token("xM").unwrap_err(), "invalid size \"xM\"");
    assert_eq!(parse_size_token("99999999999G").unwrap_err(), "size \"99999999999G\" overflows");
    assert_eq!(parse_size_token(" 2k ").unwrap(), 2048);
}

#[test]
fn resolve_specs_keeps_requested_order_and_rejects_empty_lists() {
    let specs = resolve_specs(Some("10M, 25B"), None).unwrap();
    assert_eq!(specs.len(), 2);
    assert_eq!((specs[0].bytes, specs[0].iterations), (10 * 1024 * 1024, 30));
    assert_eq!((specs[1].bytes, specs[1].iterations), (25, 200));
    assert_eq!(resolve_specs(Some(" , "), None).unwrap_err(), "--sizes was empty");
    assert_eq!(
        resolve_specs(Some("7B"), None).unwrap_err(),
        "no iteration count for size 7 bytes (no default; specify via --iterations)"
    );
}

#[test]
fn iteration_overrides_report_their_errors() {
    assert_eq!(
        fleetbench::adb::parse_iterations_arg(Some("25B")).unwrap_err(),
        "--iterations entry \"25B\" must be KEY=VALUE"
    );
    assert_eq!(
        fleetbench::adb::parse_iterations_arg(Some("25B=0")).unwrap_err(),
        "iteration count in \"25B=0\" must be greater than zero"
    );
    assert_eq!(
        fleetbench::adb::parse_iterations_arg(Some("25B=abc")).unwrap_err(),
        "invalid iteration count in \"25B=abc\""
    );
    assert_eq!(fleetbench::adb::parse_iterations_arg(None).unwrap(), vec![]);
    assert_eq!(fleetbench::adb::parse_iterations_arg(Some(" 1k = 3 ,")).unwrap(), vec![(1024, 3)]);
}

#[test]
fn later_override_for_a_size_does_not_replace_the_first() {
    let specs = resolve_specs(Some("25B"), Some("25B=4,25B=9")).unwrap();
    assert_eq!(specs[0].iterations, 4);
}

#[test]
fn remote_dir_gains_exactly_one_trailing_slash() {
    assert_eq!(remote_dir("/data/local/tmp"), "/data/local/tmp/");
    assert_eq!(remote_dir("/data/local/tmp/"), "/data/local/tmp/");
    assert_eq!(remote_dir(&remote_dir("/sdcard/Download")), "/sdcard/Download/");
    assert_eq!(remote_dir(""), "/");
}

#[test]
fn payload_file_names() {
    assert_eq!(remote_payload_path("/data/local/tmp/", 25, 3), "/data/local/tmp/fleetbench_25_3.bin");
    assert_eq!(local_payload_name(1048576, 0), "payload_1048576_0.bin");
    assert_eq!(pulled_payload_name(25, 199), "pulled_25_199.bin");
    assert_ne!(local_payload_name(25, 11), local_payload_name(251, 1));
}

#[test]
fn adb_config_records_the_resolved_sizes() {
    let specs = resolve_specs(Some("25B,1M"), Some("1M=2")).unwrap();
    let c = adb_config(None, Some("R58M".to_string()), "/data/local/tmp/".to_string(), &specs);
    assert_eq!(c.command, "adb");
    assert_eq!(c.adb_path, "adb");
    assert_eq!(c.serial.as_deref(), Some("R58M"));
    assert_eq!(c.remote_path, "/data/local/tmp/");
    assert_eq!(c.sizes.len(), 2);
    assert_eq!((c.sizes[1].size_bytes, c.sizes[1].iterations), (1024 * 1024, 2));
    let c2 = adb_config(Some("/opt/adb".to_string()), None, "/x/".to_string(), &specs);
    assert_eq!(c2.adb_path, "/opt/adb");
}

const DEVICES: &str = "List of devices attached\n\
emulator-5554          device product:sdk model:Pixel_7 transport_id:1\n\
R58M1234ABC            unauthorized usb:1-1 transport_id:2\n\
0123456789ABCDEF       device usb:1-2 product:x model:SM_G transport_id:3\n\
\n";

#[test]
fn device_list_keeps_ready_devices_in_order() {
    let serials = parse_device_serials(DEVICES);
    assert_eq!(serials, vec!["emulator-5554".to_string(), "0123456789ABCDEF".to_string()]);
    assert!(parse_device_serials("List of devices attached\n\n").is_empty());
    assert!(parse_device_serials("").is_empty());
    // the header line is never a device
    assert!(parse_device_serials("abc device\n").is_empty());
}

#[test]
fn device_selection_outcomes() {
    let none: Vec<String> = Vec::new();
    let e = select_device(&none, None).unwrap_err();
    assert_eq!((e.kind.as_str(), e.message.as_str()), ("no_device", "no devices attached"));

    let one = vec!["emulator-5554".to_string()];
    assert_eq!(select_device(&one, None).unwrap(), "emulator-5554");

    let two = parse_device_serials(DEVICES);
    let e = select_device(&two, None).unwrap_err();
    assert_eq!(e.kind, "multiple_devices");
    assert_eq!(e.message, "multiple devices attached (emulator-5554,0123456789ABCDEF); pass --serial");
    assert_eq!(select_device(&two, Some("0123456789ABCDEF")).unwrap(), "0123456789ABCDEF");

    let e = select_device(&two, Some("R58M1234ABC")).unwrap_err();
    assert_eq!(e.kind, "no_device");
    assert_eq!(e.message, "requested serial \"R58M1234ABC\" not present in `adb devices`");
}

#[test]
fn hex_rendering_is_lower_case_two_digits_per_byte() {
    let hex: String = to_hex_lower(&[0x00, 0x0f, 0xa0, 0xff]).into_iter().collect();
    assert_eq!(hex, "000fa0ff");
}

#[test]
fn sha256sum_output_is_checked_against_the_digest() {
    let data = b"fleetbench payload";
    let digest = Sha256::digest(data).to_vec();
    let hex: String = digest.iter().map(|b| format!("{b:02x}")).collect();
    assert!(sha256sum_matches(&format!("{hex}  /data/local/tmp/fleetbench_25_0.bin\n"), &digest));
    assert!(sha256sum_matches(&format!("{}  f\n", hex.to_uppercase()), &digest));
    assert!(!sha256sum_matches(&format!("{}  f\n", &hex[..63]), &digest));
    let mut other = digest.clone();
    other[31] ^= 1;
    assert!(!sha256sum_matches(&format!("{hex}  f\n"), &other));
    assert!(!sha256sum_matches("", &digest));
    assert!(!sha256sum_matches("sha256sum: f: No such file or directory\n", &digest));
}

#[test]
fn exit_codes_of_failures() {
    let e = |kind: &str| ErrorInfo { kind: kind.to_string(), message: String::new() };
    assert_eq!(exit_code_for(&e("correctness_check_failed")), 2);
    assert_eq!(exit_code_for(&e("no_device")), 1);
    assert_eq!(exit_code_for(&e("adb_command_failed")), 1);
}

#[test]
fn run_outcome_follows_the_digest_checks() {
    let (s, e, code) = transfers_outcome(&vec![true, true, true]);
    assert_eq!(s, Status::Succeeded);
    assert!(e.is_none());
    assert_eq!(code, 0);
    let (s, e, code) = transfers_outcome(&vec![true, false, true]);
    assert_eq!(s, Status::Failed);
    let e = e.unwrap();
    assert_eq!(e.kind, "correctness_check_failed");
    assert_eq!(e.message, "one or more iterations failed sha256 verification");
    assert_eq!(code, 2);
    let (s, _, code) = transfers_outcome(&Vec::new());
    assert_eq!((s, code), (Status::Succeeded, 0));
}
