use fleetbench::adb::{resolve_specs, ResolvedSize};
use fleetbench::cli::AdbDirection;
use fleetbench::plan::{transfer_plan, Step};

#[test]
fn one_size_both_directions() {
    let specs = vec![ResolvedSize { bytes: 25, iterations: 2 }];
    let plan = transfer_plan(&specs, AdbDirection::Both);
    assert_eq!(
        plan,
        vec![
            Step::Generate { bytes: 25, index: 0 },
            Step::Generate { bytes: 25, index: 1 },
            Step::Push { bytes: 25, index: 0 },
            Step::Push { bytes: 25, index: 1 },
            Step::Verify { bytes: 25, index: 0, record: 0 },
            Step::Verify { bytes: 25, index: 1, record: 1 },
            Step::Pull { bytes: 25, index: 0 },
            Step::Pull { bytes: 25, index: 1 },
            Step::CheckPull { bytes: 25, index: 0, record: 2 },
            Step::CheckPull { bytes: 25, index: 1, record: 3 },
            Step::Cleanup { bytes: 25, index: 0 },
            Step::Cleanup { bytes: 25, index: 1 },
        ]
    );
}

#[test]
fn push_only_plan_has_no_pulls() {
    let specs = resolve_specs(None, None).unwrap();
    let plan = transfer_plan(&specs, AdbDirection::Push);
    assert!(plan.iter().all(|s| !matches!(s, Step::Pull { .. } | Step::CheckPull { .. })));
    let pushes = plan.iter().filter(|s| matches!(s, Step::Push { .. })).count();
    assert_eq!(pushes, 200 + 100 + 30 + 10);
    assert_eq!(plan.len(), 4 * pushes);
}

#[test]
fn verification_targets_the_matching_push_record() {
    let specs = vec![ResolvedSize { bytes: 7, iterations: 3 }, ResolvedSize { bytes: 1024, iterations: 2 }];
    for direction in [AdbDirection::Both, AdbDirection::Push] {
        let plan = transfer_plan(&specs, direction);
        let mut records: Vec<Step> = Vec::new();
        for step in &plan {
            match *step {
                Step::Push { .. } | Step::Pull { .. } => records.push(*step),
                Step::Verify { bytes, index, record } => {
                    assert_eq!(records[record], Step::Push { bytes, index });
                }
                Step::CheckPull { bytes, index, record } => {
                    assert_eq!(records[record], Step::Pull { bytes, index });
                }
                _ => {}
            }
        }
        let expected = if direction == AdbDirection::Both { 10 } else { 5 };
        assert_eq!(records.len(), expected);
    }
    let plan = transfer_plan(&specs, AdbDirection::Both);
    assert_eq!(plan[6 * 3 + 2 * 2], Step::Verify { bytes: 1024, index: 0, record: 6 });
    assert_eq!(plan[6 * 3 + 4 * 2 + 1], Step::CheckPull { bytes: 1024, index: 1, record: 9 });
}

#[test]
fn empty_size_list_has_an_empty_plan() {
    assert!(transfer_plan(&Vec::new(), AdbDirection::Both).is_empty());
}

#[test]
fn pulled_copies_are_checked_after_the_whole_pull_loop() {
    let specs = vec![ResolvedSize { bytes: 25, iterations: 3 }, ResolvedSize { bytes: 7, iterations: 2 }];
    let plan = transfer_plan(&specs, AdbDirection::Both);
    for (k, a) in plan.iter().enumerate() {
        for b in &plan[k + 1..] {
            let check_then_transfer = matches!((a, b), (Step::CheckPull { .. }, Step::Pull { .. }))
                || matches!((a, b), (Step::Verify { .. }, Step::Push { .. }));
            if check_then_transfer {
                let (Step::CheckPull { bytes: x, .. } | Step::Verify { bytes: x, .. }) = a else { unreachable!() };
                let (Step::Pull { bytes: y, .. } | Step::Push { bytes: y, .. }) = b else { unreachable!() };
                assert_ne!(x, y, "a check of size {x} precedes a transfer of the same size");
            }
        }
    }
    assert_eq!(plan.len(), 6 * 5);
}
