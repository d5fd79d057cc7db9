use uncanny::perception::{semantic_age_ms, TickClock};

fn ms(n: u64) -> u64 {
    n * 1_000_000
}

#[test]
fn semantic_age_is_clock_delta() {
    let epoch = ms(5_000);
    let utterance_at = epoch + ms(200);
    assert_eq!(semantic_age_ms(Some(utterance_at), utterance_at + ms(750)), 750);
}

#[test]
fn semantic_age_saturates_when_no_update() {
    assert_eq!(semantic_age_ms(None, ms(50)), u32::MAX);
}

#[test]
fn semantic_age_truncates_to_whole_milliseconds() {
    assert_eq!(semantic_age_ms(Some(0), 1_999_999), 1);
}

#[test]
fn semantic_age_in_the_future_is_zero() {
    assert_eq!(semantic_age_ms(Some(ms(10)), ms(5)), 0);
}

#[test]
fn semantic_age_caps_at_u32_max() {
    let huge = (u32::MAX as u64 + 5) * 1_000_000;
    assert_eq!(semantic_age_ms(Some(0), huge), u32::MAX);
}

#[test]
fn tick_clock_measures_time_between_ticks() {
    let mut c = TickClock::new();
    assert_eq!(c.advance(ms(100)), 0);
    assert_eq!(c.advance(ms(150)), ms(50));
    assert_eq!(c.advance(ms(120)), 0);
    assert_eq!(c.advance(ms(220)), ms(100));
}
