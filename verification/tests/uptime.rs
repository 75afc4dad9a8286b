use app_core::common::Instant;
use app_core::uptime::{Uptime, MICROS_PER_PERIOD};

#[test]
fn reload_value_makes_the_period_one_second() {
    // A time base of one megahertz counts 10_000 ticks in ten milliseconds.
    let clock = Uptime::new(9_999);
    assert_eq!(clock.reload(), 999_999);
    assert_eq!(clock.reload_count(), 0);
    assert_eq!(Uptime::new(0).reload(), 99);
    assert_eq!(Uptime::new(0x00ff_ffff).reload(), 1_677_721_599);
    assert_eq!(Uptime::new(42_949_671).reload(), 4_294_967_199);
}

#[test]
fn reading_combines_periods_and_countdown() {
    let mut clock = Uptime::new(9_999);
    assert_eq!(clock.get_us(999_999), 0);
    assert_eq!(clock.get_us(999_998), 1);
    assert_eq!(clock.get_us(0), 999_999);
    assert_eq!(clock.tick(), Some(1));
    assert_eq!(clock.get_us(999_999), 1_000_000);
    assert_eq!(clock.get_us(750_000), 1_249_999);
    assert_eq!(clock.tick(), Some(2));
    assert_eq!(clock.tick(), Some(3));
    assert_eq!(clock.reload_count(), 3);
    assert_eq!(clock.get_us(0), 3_999_999);
    assert_eq!(MICROS_PER_PERIOD, 1_000_000);
}

#[test]
fn instant_is_the_reading_in_microseconds() {
    let clock = Uptime::with_count(999_999, 7);
    assert_eq!(clock.get_instant(999_999), Instant::from_ticks(7_000_000));
    assert_eq!(clock.get_instant(499_999).ticks(), 7_500_000);
    assert_eq!(clock.get_instant(499_999).ticks(), clock.get_us(499_999));
}

#[test]
fn largest_reading_fits_an_instant() {
    let clock = Uptime::with_count(u32::MAX, u32::MAX);
    assert_eq!(clock.get_us(0), 4_294_967_295_000_000 + 4_294_967_295);
    assert_eq!(clock.get_us(u32::MAX), 4_294_967_295_000_000);
}

#[test]
fn tick_stops_at_the_largest_count() {
    let mut clock = Uptime::with_count(999_999, u32::MAX - 1);
    assert_eq!(clock.tick(), Some(u32::MAX));
    assert_eq!(clock.reload_count(), u32::MAX);
    assert_eq!(clock.tick(), None);
    assert_eq!(clock.reload_count(), u32::MAX);
    assert_eq!(clock.reload(), 999_999);
    assert_eq!(clock.tick(), None);
    assert_eq!(clock.get_us(999_999), 4_294_967_295_000_000);
}

#[test]
fn readings_never_go_backward() {
    let mut clock = Uptime::new(9_999);
    let mut last = clock.get_us(clock.reload());
    for _ in 0..3 {
        for current in [999_999u32, 999_998, 500_000, 1, 0] {
            let now = clock.get_us(current);
            assert!(last <= now);
            last = now;
        }
        clock.tick().unwrap();
    }
    assert_eq!(last, 2_999_999);
}

#[test]
fn delay_of_zero_ends_at_its_start() {
    for ticks in [0, 1, 123_456_789, u64::MAX] {
        let start = Instant::from_ticks(ticks);
        let end_us = Uptime::delay_us(start, 0).unwrap();
        let end_ms = Uptime::delay_ms(start, 0).unwrap();
        assert_eq!(end_us, start);
        assert_eq!(end_ms, start);
        // The wait would go on while the clock is before the end.
        assert!(!(start < end_us));
        assert!(!(start < end_ms));
    }
}

#[test]
fn delay_ends_after_the_given_time() {
    let start = Instant::from_ticks(1_000);
    assert_eq!(Uptime::delay_us(start, 100), Some(Instant::from_ticks(1_100)));
    assert_eq!(Uptime::delay_ms(start, 200), Some(Instant::from_ticks(201_000)));
    assert_eq!(Uptime::delay_ms(start, 2_000), Some(Instant::from_ticks(2_001_000)));
    assert_eq!(
        Uptime::delay_us(Instant::from_ticks(0), u64::MAX),
        Some(Instant::from_ticks(u64::MAX))
    );
    assert_eq!(
        Uptime::delay_us(Instant::from_ticks(u64::MAX - 5), 5),
        Some(Instant::from_ticks(u64::MAX))
    );
    assert_eq!(
        Uptime::delay_ms(Instant::from_ticks(615), 18_446_744_073_709_551),
        Some(Instant::from_ticks(u64::MAX))
    );
}

#[test]
fn delay_beyond_the_last_instant_has_no_end() {
    assert_eq!(Uptime::delay_us(Instant::from_ticks(u64::MAX), 1), None);
    assert_eq!(Uptime::delay_us(Instant::from_ticks(u64::MAX - 5), 6), None);
    assert_eq!(Uptime::delay_us(Instant::from_ticks(1), u64::MAX), None);
    assert_eq!(Uptime::delay_us(Instant::from_ticks(u64::MAX), u64::MAX), None);
    // The sum wraps past zero.
    assert_eq!(Uptime::delay_ms(Instant::from_ticks(u64::MAX - 999), 1), None);
    assert_eq!(
        Uptime::delay_ms(Instant::from_ticks(616), 18_446_744_073_709_551),
        None
    );
    // The milliseconds do not even fit in microseconds.
    assert_eq!(
        Uptime::delay_ms(Instant::from_ticks(0), 18_446_744_073_709_552),
        None
    );
    assert_eq!(Uptime::delay_ms(Instant::from_ticks(0), u64::MAX), None);
}

#[test]
fn delay_far_ahead_is_still_waited_for() {
    // More than half the range of an instant ahead: the start is before the end.
    let start = Instant::from_ticks(10);
    let end = Uptime::delay_us(start, u64::MAX - 10).unwrap();
    assert_eq!(end.ticks(), u64::MAX);
    assert!(start < end);
    assert!(!(end < start));
}

#[test]
fn instants_are_ordered_by_their_ticks() {
    let a = Instant::from_ticks(5);
    let b = Instant::from_ticks(6);
    assert!(a < b);
    assert!(a <= b);
    assert!(b > a);
    assert!(b >= a);
    assert!(a <= a);
    assert!(a >= a);
    assert!(!(a < a));
    assert_eq!(a.partial_cmp(&b), Some(std::cmp::Ordering::Less));
    assert_eq!(b.partial_cmp(&a), Some(std::cmp::Ordering::Greater));
    assert_eq!(a.partial_cmp(&a), Some(std::cmp::Ordering::Equal));
    assert!(Instant::from_ticks(0) < Instant::from_ticks(u64::MAX));
    assert_eq!(a, Instant::from_ticks(5));
    assert_ne!(a, b);
    assert_eq!(b.ticks(), 6);
}

#[test]
fn waiting_for_a_delay_comes_to_an_end() {
    let mut clock = Uptime::new(9_999);
    let mut current = clock.reload();
    let start = clock.get_instant(current);
    let end = Uptime::delay_us(start, 2_500_000).unwrap();
    let mut samples = 0u32;
    while clock.get_instant(current) < end {
        // The countdown moves on by a quarter of a second.
        if current >= 250_000 {
            current -= 250_000;
        } else {
            current = clock.reload();
            clock.tick().unwrap();
        }
        samples += 1;
    }
    assert!(clock.get_instant(current) >= end);
    assert_eq!(clock.get_us(current), 2_500_000);
    assert_eq!(samples, 10);
}
