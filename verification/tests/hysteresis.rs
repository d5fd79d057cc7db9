use uncanny::hysteresis::Hysteresis;

/// Milliseconds as the nanoseconds the filter counts in.
fn ms(n: u64) -> u64 {
    n * 1_000_000
}

#[test]
fn same_value_returns_committed() {
    let mut h = Hysteresis::new(0i32, ms(300));
    let epoch = ms(1_000);
    assert_eq!(h.update(0, epoch), 0);
}

#[test]
fn new_value_held_back_before_min_hold() {
    let mut h = Hysteresis::new(0i32, ms(300));
    let epoch = ms(1_000);
    assert_eq!(h.update(1, epoch + ms(100)), 0);
    assert_eq!(h.update(1, epoch + ms(200)), 0);
}

#[test]
fn new_value_committed_after_min_hold() {
    let mut h = Hysteresis::new(0i32, ms(300));
    let epoch = ms(1_000);
    h.update(1, epoch);
    let out = h.update(1, epoch + ms(300));
    assert_eq!(out, 1);
}

#[test]
fn flicker_resets_timer() {
    let mut h = Hysteresis::new(0i32, ms(300));
    let epoch = ms(1_000);
    h.update(1, epoch);
    h.update(0, epoch + ms(200));
    let out = h.update(1, epoch + ms(250));
    assert_eq!(out, 0, "should still be committed to 0 since timer reset");
}

#[test]
fn committed_reports_current_value() {
    let mut h = Hysteresis::new(5i32, ms(300));
    assert_eq!(*h.committed(), 5);
    h.update(7, 0);
    assert_eq!(*h.committed(), 5);
    h.update(7, ms(299));
    assert_eq!(*h.committed(), 5);
    h.update(7, ms(300));
    assert_eq!(*h.committed(), 7);
}

#[test]
fn first_sighting_never_commits_even_with_zero_hold() {
    let mut h = Hysteresis::new(0i32, 0);
    assert_eq!(h.update(1, 10), 0);
    assert_eq!(h.update(1, 10), 1);
    assert_eq!(h.update(2, 20), 1);
    assert_eq!(h.update(3, 30), 1);
}

#[test]
fn clock_going_backwards_counts_as_no_time() {
    let mut h = Hysteresis::new(0i32, ms(300));
    h.update(1, ms(1_000));
    assert_eq!(h.update(1, ms(100)), 0);
    assert_eq!(h.update(1, ms(1_300)), 1);
}

#[test]
fn rapid_alternation_never_commits() {
    let mut h = Hysteresis::new(0i32, ms(300));
    for i in 0u64..40 {
        let v = if i % 2 == 0 { 1 } else { 2 };
        assert_eq!(h.update(v, ms(50 * i)), 0);
    }
}

#[test]
fn works_with_vectors_of_values() {
    let mut h = Hysteresis::new(vec![1u8], ms(10));
    h.update(vec![2u8], 0);
    assert_eq!(h.update(vec![2u8], ms(10)), vec![2u8]);
}
