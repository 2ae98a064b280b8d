use solar_system::time::Time;

fn advance(time: &mut Time, seconds: u64) {
    let mut left = seconds;
    while left > 0 {
        let chunk = if left > 60_000 { 60_000 } else { left };
        assert!(time.can_add_seconds(chunk as u16));
        time.add_seconds(chunk as u16);
        left -= chunk;
    }
}

#[test]
fn clock_starts_on_the_first_of_january() {
    let time = Time::new();
    assert_eq!(time.to_string(), "01.01.0001 00:00:00");
    assert_eq!(time.year(), 1);
    assert_eq!(time.month(), 1);
    assert_eq!(time.day(), 1);
    assert_eq!(time.hour(), 0);
    assert_eq!(time.minute(), 0);
    assert_eq!(time.second(), 0);
}

#[test]
fn seconds_below_a_minute_touch_the_seconds_only() {
    let mut time = Time::new();
    time.add_seconds(59);
    assert_eq!(time.to_string(), "01.01.0001 00:00:59");
}

#[test]
fn seconds_carry_into_minutes() {
    let mut time = Time::new();
    time.add_seconds(61);
    assert_eq!(time.to_string(), "01.01.0001 00:01:01");
}

#[test]
fn minutes_carry_into_hours() {
    let mut time = Time::new();
    time.add_seconds(3_600);
    assert_eq!(time.to_string(), "01.01.0001 01:00:00");
    time.add_seconds(7_201);
    assert_eq!(time.to_string(), "01.01.0001 03:00:01");
}

#[test]
fn the_most_seconds_of_one_call() {
    let mut time = Time::new();
    time.add_seconds(65_535);
    assert_eq!(time.to_string(), "01.01.0001 18:12:15");
}

#[test]
fn a_full_count_of_seconds_does_not_overflow() {
    let mut time = Time::new();
    time.add_seconds(59);
    time.add_seconds(65_535);
    assert_eq!(time.to_string(), "01.01.0001 18:13:14");
}

#[test]
fn hours_carry_into_days() {
    let mut time = Time::new();
    advance(&mut time, 86_400);
    assert_eq!(time.to_string(), "02.01.0001 00:00:00");
}

#[test]
fn the_last_second_of_january() {
    let mut time = Time::new();
    advance(&mut time, 30 * 86_400 + 86_399);
    assert_eq!(time.to_string(), "31.01.0001 23:59:59");
}

#[test]
fn the_day_after_a_month_is_numbered_zero() {
    let mut time = Time::new();
    advance(&mut time, 30 * 86_400 + 86_399);
    time.add_seconds(1);
    assert_eq!(time.to_string(), "00.02.0001 00:00:00");
    assert_eq!(time.month(), 2);
    assert_eq!(time.day(), 0);
    advance(&mut time, 86_400);
    assert_eq!(time.to_string(), "01.02.0001 00:00:00");
}

#[test]
fn four_hundred_days_later() {
    let mut time = Time::new();
    advance(&mut time, 400 * 86_400);
    assert_eq!(time.to_string(), "24.01.0002 00:00:00");
}

#[test]
fn december_ends_the_year() {
    let mut time = Time::new();
    advance(&mut time, 376 * 86_400);
    assert_eq!(time.to_string(), "00.01.0002 00:00:00");
    assert_eq!(time.year(), 2);
}

#[test]
fn leap_years_follow_the_calendar() {
    let mut time = Time::new();
    assert!(!time.is_year_leap());
    while time.year() < 4 {
        advance(&mut time, 86_400);
    }
    assert!(time.is_year_leap());
    assert_eq!(time.days_in_month(), 31);
}

#[test]
fn february_of_a_leap_year_has_a_twenty_ninth() {
    let mut time = Time::new();
    while !(time.year() == 4 && time.month() == 2 && time.day() == 28) {
        advance(&mut time, 86_400);
    }
    assert_eq!(time.days_in_month(), 29);
    advance(&mut time, 86_400);
    assert_eq!(time.to_string(), "29.02.0004 00:00:00");
    advance(&mut time, 86_400);
    assert_eq!(time.to_string(), "00.03.0004 00:00:00");
}

#[test]
fn february_of_a_common_year_has_twenty_eight_days() {
    let mut time = Time::new();
    while time.month() < 2 {
        advance(&mut time, 86_400);
    }
    assert_eq!(time.days_in_month(), 28);
}

#[test]
fn months_have_their_lengths() {
    let mut time = Time::new();
    let mut lengths = Vec::new();
    let mut month = 0;
    while time.year() == 1 {
        if time.month() != month {
            month = time.month();
            lengths.push(time.days_in_month());
        }
        advance(&mut time, 86_400);
    }
    assert_eq!(lengths, vec![31, 28, 31, 30, 31, 30, 31, 31, 30, 31, 30, 31]);
}

#[test]
fn restart_goes_back_to_the_start() {
    let mut time = Time::new();
    advance(&mut time, 1_234_567);
    time.restart();
    assert_eq!(time.to_string(), "01.01.0001 00:00:00");
}

#[test]
fn a_fresh_clock_can_always_go_on() {
    let time = Time::new();
    assert!(time.can_add_seconds(0));
    assert!(time.can_add_seconds(65_535));
}
