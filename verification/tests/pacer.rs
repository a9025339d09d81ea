use zone_monitor::pacer::pacer_delay;

#[test]
fn sleeps_for_the_remainder_of_the_interval() {
    // Work took 30ms of a 100ms interval: sleep the remaining 70ms.
    assert_eq!(pacer_delay(100, 30), 70);
}

#[test]
fn never_sleeps_negative() {
    // Work overran the interval: proceed immediately, no negative wait.
    assert_eq!(pacer_delay(100, 150), 0);
    assert_eq!(pacer_delay(100, 100), 0);
    assert_eq!(pacer_delay(0, 0), 0);
}

#[test]
fn idle_iteration_sleeps_the_whole_interval() {
    assert_eq!(pacer_delay(100, 0), 100);
    assert_eq!(pacer_delay(u32::MAX, 0), u32::MAX as u64);
}

#[test]
fn long_overrun_saturates() {
    assert_eq!(pacer_delay(100, u64::MAX), 0);
}
