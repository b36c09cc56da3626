use dd_sidecar::wall_time::{check_region, scheduler_interval_ms, RegionProblem, WallTimeTable, WALL_TIME_REGION_SIZE};

#[test]
fn stale_connection_cleanup_does_not_remove_replayed_registration() {
    let mut registrations = WallTimeTable::new();
    assert_eq!(registrations.register(WALL_TIME_REGION_SIZE, true, 123, 1), Ok((123, false)));
    assert_eq!(registrations.register(WALL_TIME_REGION_SIZE, true, 123, 2), Ok((123, true)));
    assert_eq!(registrations.unregister_owned(123, 1), None);
    assert_eq!(registrations.len(), 1);

    assert_eq!(registrations.unregister_owned(123, 2), Some(0));
    assert!(registrations.is_empty());
}

#[test]
fn rejects_invalid_pid() {
    let mut registrations = WallTimeTable::new();
    let error = registrations
        .register(WALL_TIME_REGION_SIZE, true, 0, 1)
        .expect_err("invalid pids must be rejected");
    assert_eq!(error, RegionProblem::InvalidPid);
    assert_eq!(error.message(), "invalid wall-time profiling pid");
    assert!(registrations.is_empty());
    assert_eq!(registrations.register(11, true, 5, 1), Err(RegionProblem::TooSmall));
    assert_eq!(registrations.register(64, false, 5, 1), Err(RegionProblem::Misaligned));
    assert!(registrations.is_empty());
}

#[test]
fn region_checks_in_order() {
    assert_eq!(check_region(11, false, 0), Err(RegionProblem::TooSmall));
    assert_eq!(check_region(12, false, 0), Err(RegionProblem::Misaligned));
    assert_eq!(check_region(4096, true, -5), Err(RegionProblem::InvalidPid));
    assert_eq!(check_region(12, true, 77), Ok(77));
}

#[test]
fn scheduler_pauses_ten_ms_per_worker() {
    assert_eq!(scheduler_interval_ms(0), 10);
    assert_eq!(scheduler_interval_ms(1), 10);
    assert_eq!(scheduler_interval_ms(7), 70);
    assert_eq!(scheduler_interval_ms(usize::MAX), 10 * u32::MAX as u64);
}

#[test]
fn unregister_forgets_any_owner() {
    let mut registrations = WallTimeTable::new();
    registrations.register(WALL_TIME_REGION_SIZE, true, 5, 9).unwrap();
    assert_eq!(registrations.owner(5), Some(9));
    registrations.unregister(5);
    assert_eq!(registrations.owner(5), None);
}
