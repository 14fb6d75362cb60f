use fleetbench::sampler::mean_mhz;

#[test]
fn mean_of_no_cores_is_zero() {
    assert_eq!(mean_mhz(&Vec::new()), 0);
}

#[test]
fn mean_rounds_down() {
    assert_eq!(mean_mhz(&vec![1900, 1900, 1400, 1401]), 1650);
    assert_eq!(mean_mhz(&vec![4243, 4257, 4261]), 4253);
}

#[test]
fn mean_lies_between_slowest_and_fastest_core() {
    let cores = vec![800, 4200, 3100, 2950, 1200];
    let m = mean_mhz(&cores);
    assert!(m >= 800 && m <= 4200);
    assert_eq!(m, 2450);
}

#[test]
fn mean_does_not_overflow_on_large_readings() {
    assert_eq!(mean_mhz(&vec![u32::MAX, u32::MAX, u32::MAX]), u32::MAX);
}
