use device_scheduler::execute_time::{ExecuteTime, TimeOfDay, NANOS_PER_DAY, NANOS_PER_SEC};

fn at(secs: u32, nano: u32) -> TimeOfDay {
    TimeOfDay::from_num_seconds_from_midnight_opt(secs, nano).unwrap()
}

#[test]
fn time_of_day_bounds() {
    assert!(TimeOfDay::from_num_seconds_from_midnight_opt(86_399, 999_999_999).is_some());
    assert!(TimeOfDay::from_num_seconds_from_midnight_opt(86_400, 0).is_none());
    assert!(TimeOfDay::from_num_seconds_from_midnight_opt(0, 2_000_000_000).is_none());
    assert!(TimeOfDay::from_num_seconds_from_midnight_opt(59, 1_500_000_000).is_some());
    assert!(TimeOfDay::from_num_seconds_from_midnight_opt(58, 1_500_000_000).is_none());
    let t = at(3723, 17);
    assert_eq!((t.num_seconds_from_midnight(), t.nanosecond()), (3723, 17));
}

#[test]
fn delay_until_later_today() {
    let e = ExecuteTime::from(at(10 * 3600, 0));
    assert_eq!(e.duration_from(at(9 * 3600, 500)), 3600 * NANOS_PER_SEC - 500);
    assert_eq!(e.time().num_seconds_from_midnight(), 36_000);
}

#[test]
fn delay_until_tomorrow() {
    let e = ExecuteTime::from(at(8 * 3600, 0));
    assert_eq!(e.duration_from(at(9 * 3600, 0)), NANOS_PER_DAY - 3600 * NANOS_PER_SEC);
    let e = ExecuteTime::from(at(0, 0));
    assert_eq!(e.duration_from(at(86_399, 999_999_999)), 1);
}

#[test]
fn delay_at_the_very_time_is_zero() {
    let e = ExecuteTime::from(at(12 * 3600, 250));
    assert_eq!(e.duration_from(at(12 * 3600, 250)), 0);
}

#[test]
fn delay_to_a_leap_second() {
    // 00:00:59 plus 1.5 s (a leap second), seen from 00:00:10
    let e = ExecuteTime::from(at(59, 1_500_000_000));
    assert_eq!(e.duration_from(at(10, 0)), 50_500_000_000);
    // seen from 00:01:00: the leap second counts once, so it was 1.5 s ago
    assert_eq!(e.duration_from(at(60, 0)), NANOS_PER_DAY - 500_000_000);
}

#[test]
fn delay_from_the_clock_is_within_a_day() {
    let e = ExecuteTime::from(at(4 * 3600, 0));
    let d = e.duration();
    assert!(d < NANOS_PER_DAY);
}
