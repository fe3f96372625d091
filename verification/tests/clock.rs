use keter_reactor::clock::{Clock, Duration, Instant};

#[test]
fn durations_count_nanoseconds() {
    assert_eq!(Duration::from_nanos(17).as_nanos(), 17);
    assert_eq!(Duration::from_millis(500).as_nanos(), 500_000_000);
    assert_eq!(Duration::from_secs(2).as_nanos(), 2_000_000_000);
    assert_eq!(Duration::from_secs(0).as_nanos(), 0);
    assert_eq!(Duration::from_secs(1), Duration::from_millis(1000));
}

#[test]
fn durations_stop_at_the_end_of_the_range() {
    assert_eq!(Duration::from_secs(18_446_744_073).as_nanos(), 18_446_744_073_000_000_000);
    assert_eq!(Duration::from_secs(18_446_744_074).as_nanos(), u64::MAX);
    assert_eq!(Duration::from_secs(u64::MAX).as_nanos(), u64::MAX);
    assert_eq!(
        Duration::from_millis(18_446_744_073_709).as_nanos(),
        18_446_744_073_709_000_000
    );
    assert_eq!(Duration::from_millis(18_446_744_073_710).as_nanos(), u64::MAX);
}

#[test]
fn instants_add_within_the_range() {
    let start = Instant::from_nanos(1_000);
    assert_eq!(start.as_nanos(), 1_000);
    assert_eq!(
        start.checked_add(Duration::from_secs(1)),
        Some(Instant::from_nanos(1_000_001_000))
    );
    assert_eq!(start.checked_add(Duration::from_nanos(0)), Some(start));
    assert_eq!(
        Instant::from_nanos(i64::MAX - 5).checked_add(Duration::from_nanos(5)),
        Some(Instant::from_nanos(i64::MAX))
    );
}

#[test]
fn instants_before_the_origin_add_across_it() {
    let early = Instant::from_nanos(-500);
    assert_eq!(early.as_nanos(), -500);
    assert_eq!(early.checked_add(Duration::from_nanos(200)), Some(Instant::from_nanos(-300)));
    assert_eq!(early.checked_add(Duration::from_nanos(500)), Some(Instant::from_nanos(0)));
    assert_eq!(early.checked_add(Duration::from_nanos(501)), Some(Instant::from_nanos(1)));
    // From the start of the range, the longest span ends at its end.
    assert_eq!(
        Instant::from_nanos(i64::MIN).checked_add(Duration::from_nanos(u64::MAX)),
        Some(Instant::from_nanos(i64::MAX))
    );
    assert_eq!(Instant::from_nanos(i64::MIN + 1).checked_add(Duration::from_nanos(u64::MAX)), None);
}

#[test]
fn instants_have_no_sum_past_the_range() {
    assert_eq!(Instant::from_nanos(i64::MAX - 5).checked_add(Duration::from_nanos(6)), None);
    assert_eq!(Instant::from_nanos(1).checked_add(Duration::from_secs(u64::MAX)), None);
    assert_eq!(Instant::from_nanos(i64::MAX).checked_add(Duration::from_nanos(1)), None);
    assert_eq!(Instant::from_nanos(0).checked_add(Duration::from_nanos(u64::MAX)), None);
}

#[test]
fn instants_compare_by_distance_from_the_origin() {
    let early = Instant::from_nanos(10);
    let late = Instant::from_nanos(11);
    assert!(late.has_reached(early));
    assert!(late.has_reached(late));
    assert!(!early.has_reached(late));
    let before = Instant::from_nanos(-1);
    assert!(early.has_reached(before));
    assert!(!before.has_reached(Instant::from_nanos(0)));
    assert!(before.has_reached(Instant::from_nanos(i64::MIN)));
}

#[test]
fn wide_spans_are_held_to_the_longest() {
    let span = std::time::Duration::new(3, 250);
    assert_eq!(
        Duration::saturating_from_nanos(span.as_nanos()),
        Duration::from_nanos(3_000_000_250)
    );
    assert_eq!(Duration::saturating_from_nanos(0), Duration::from_nanos(0));
    assert_eq!(
        Duration::saturating_from_nanos(u128::from(u64::MAX)),
        Duration::from_nanos(u64::MAX)
    );
    assert_eq!(
        Duration::saturating_from_nanos(u128::from(u64::MAX) + 1),
        Duration::from_nanos(u64::MAX)
    );
    assert_eq!(
        Duration::saturating_from_nanos(std::time::Duration::MAX.as_nanos()),
        Duration::from_nanos(u64::MAX)
    );
}

#[test]
fn wide_offsets_are_held_to_the_range() {
    assert_eq!(Instant::after_origin(0), Instant::from_nanos(0));
    assert_eq!(Instant::after_origin(77), Instant::from_nanos(77));
    assert_eq!(Instant::after_origin(i64::MAX as u128), Instant::from_nanos(i64::MAX));
    assert_eq!(Instant::after_origin(i64::MAX as u128 + 1), Instant::from_nanos(i64::MAX));
    assert_eq!(Instant::after_origin(u128::MAX), Instant::from_nanos(i64::MAX));

    assert_eq!(Instant::before_origin(0), Instant::from_nanos(0));
    assert_eq!(Instant::before_origin(77), Instant::from_nanos(-77));
    assert_eq!(Instant::before_origin(i64::MAX as u128), Instant::from_nanos(-i64::MAX));
    assert_eq!(Instant::before_origin(i64::MAX as u128 + 1), Instant::from_nanos(i64::MIN));
    assert_eq!(Instant::before_origin(u128::MAX), Instant::from_nanos(i64::MIN));
}

#[test]
fn clock_does_not_run_backwards() {
    let clock = Clock::start();
    let mut last = clock.now();
    for _ in 0..1000 {
        let now = clock.now();
        assert!(now.has_reached(last));
        last = now;
    }
}

#[test]
fn clock_follows_the_system_clock() {
    let clock = Clock::start();
    let before = clock.origin().elapsed();
    let now = clock.now();
    let after = clock.origin().elapsed();
    assert!(now.as_nanos() >= 0);
    assert!(now.as_nanos() as u128 >= before.as_nanos());
    assert!(now.as_nanos() as u128 <= after.as_nanos());
}
