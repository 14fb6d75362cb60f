use fleetbench::sampler::{mean_mhz, pdh_core_index, sample_due};

#[test]
fn first_poll_samples_and_schedule_advances_by_interval() {
    let interval = 1_000_000_000;
    let (due, next) = sample_due(0, 0, interval);
    assert!(due);
    assert_eq!(next, interval);
    let (due, next) = sample_due(50_000_000, next, interval);
    assert!(!due);
    assert_eq!(next, interval);
    let (due, next) = sample_due(2_500_000_000, next, interval);
    assert!(due);
    assert_eq!(next, 2 * interval);
}

#[test]
fn polling_every_tick_samples_no_earlier_than_each_interval() {
    let interval: u64 = 60;
    let mut next = 0;
    let mut taken = Vec::new();
    for now in (0..1000u64).step_by(50) {
        let (due, n) = sample_due(now, next, interval);
        if due {
            taken.push(now);
        }
        next = n;
    }
    assert_eq!(taken[0], 0);
    for (k, t) in taken.iter().enumerate() {
        assert!(*t >= k as u64 * interval);
    }
}

#[test]
fn pdh_instance_names() {
    assert_eq!(pdh_core_index("_Total"), None);
    assert_eq!(pdh_core_index("0,0"), Some(0));
    assert_eq!(pdh_core_index("0,15"), Some(15));
    assert_eq!(pdh_core_index("1,3"), Some(3));
    assert_eq!(pdh_core_index("7"), Some(7));
    assert_eq!(pdh_core_index("0,_Total"), None);
    assert_eq!(pdh_core_index(""), None);
    assert_eq!(pdh_core_index("0,"), None);
}

#[test]
fn mean_of_many_cores() {
    let cores = vec![3_000u32; 10_000];
    assert_eq!(mean_mhz(&cores), 3_000);
}
