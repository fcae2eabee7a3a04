use dc34_virtual_pet_core::time::{
    awake_ms, game_time, is_asleep, GameTime, TimeOfDay, UPTIME_MS_PER_GAME_DAY, WAKE_HOUR,
};

const HOUR: u64 = 60 * 60 * 1000;
const MIN: u64 = 60 * 1000;

#[test]
fn a_newborn_wakes_at_eight() {
    assert_eq!(game_time(0), GameTime { day: 1, hour: 8, minute: 0 });
    assert!(!is_asleep(0));
}

#[test]
fn the_calendar_advances_with_uptime() {
    // A quarter of an in-game day is six hours.
    assert_eq!(game_time(UPTIME_MS_PER_GAME_DAY / 4), GameTime { day: 1, hour: 14, minute: 0 });
    // 08:00 + 16 h rolls over to day 2.
    assert_eq!(game_time(UPTIME_MS_PER_GAME_DAY * 2 / 3), GameTime { day: 2, hour: 0, minute: 0 });
    assert_eq!(game_time(UPTIME_MS_PER_GAME_DAY), GameTime { day: 2, hour: 8, minute: 0 });
}

#[test]
fn nights_are_the_first_sixth_of_each_day() {
    let midnight = UPTIME_MS_PER_GAME_DAY * 2 / 3;
    let night = UPTIME_MS_PER_GAME_DAY * WAKE_HOUR / 24;
    assert!(!is_asleep(midnight - 1));
    assert!(is_asleep(midnight));
    assert!(is_asleep(midnight + night - 1));
    // 04:00 -- awake again.
    assert!(!is_asleep(midnight + night));
}

#[test]
fn awake_time_stalls_overnight() {
    let midnight = UPTIME_MS_PER_GAME_DAY * 2 / 3; // 80 min of uptime
    assert_eq!(awake_ms(0), 0);
    assert_eq!(awake_ms(10 * MIN), 10 * MIN);
    assert_eq!(awake_ms(midnight), midnight);
    // Half the night passes, and the awake clock has not moved.
    assert_eq!(awake_ms(midnight + 10 * MIN), midnight);
    // 04:00: it starts again from where it stopped.
    assert_eq!(awake_ms(midnight + 20 * MIN), midnight);
    assert_eq!(awake_ms(midnight + 30 * MIN), midnight + 10 * MIN);
}

#[test]
fn awake_time_loses_a_sixth_of_every_day() {
    // Over a full day of 24 h of uptime, 4 h of in-game night per 2 h of uptime
    // -- 20 minutes a day, 10 per hour of uptime.
    assert_eq!(awake_ms(24 * HOUR), 24 * HOUR * 5 / 6);
}

#[test]
fn awake_time_never_goes_backwards() {
    let mut prev = 0;
    for age in (0..26 * HOUR).step_by(MIN as usize) {
        let now = awake_ms(age);
        assert!(now >= prev, "awake_ms went backwards at {age}");
        prev = now;
    }
}

#[test]
fn the_day_is_divided_into_four() {
    assert_eq!(TimeOfDay::at(8), TimeOfDay::Morning);
    assert_eq!(TimeOfDay::at(12), TimeOfDay::Noon);
    assert_eq!(TimeOfDay::at(18), TimeOfDay::Evening);
    // Night has to cover both sides of midnight, including the hours the pet
    // is actually asleep.
    assert_eq!(TimeOfDay::at(22), TimeOfDay::Night);
    assert_eq!(TimeOfDay::at(2), TimeOfDay::Night);
    assert_eq!(TimeOfDay::at(5), TimeOfDay::Night);
    // The pet wakes at 04:00, so morning starts a little after it is up.
    assert_eq!(TimeOfDay::at(WAKE_HOUR), TimeOfDay::Night);
}

#[test]
fn the_top_of_the_range_does_not_panic() {
    let t = game_time(u64::MAX);
    assert!(t.hour < 24 && t.minute < 60);
    awake_ms(u64::MAX);
}

#[test]
fn the_day_parts_have_exact_edges() {
    assert_eq!(TimeOfDay::at(5), TimeOfDay::Night);
    assert_eq!(TimeOfDay::at(6), TimeOfDay::Morning);
    assert_eq!(TimeOfDay::at(10), TimeOfDay::Morning);
    assert_eq!(TimeOfDay::at(11), TimeOfDay::Noon);
    assert_eq!(TimeOfDay::at(16), TimeOfDay::Noon);
    assert_eq!(TimeOfDay::at(17), TimeOfDay::Evening);
    assert_eq!(TimeOfDay::at(20), TimeOfDay::Evening);
    assert_eq!(TimeOfDay::at(21), TimeOfDay::Night);
    assert_eq!(TimeOfDay::at(u64::MAX), TimeOfDay::Night);
}

#[test]
fn awake_time_runs_no_faster_than_uptime() {
    for age in (0..48 * HOUR).step_by((7 * MIN) as usize) {
        assert!(awake_ms(age) <= age);
        assert!(awake_ms(age + MIN) - awake_ms(age) <= MIN);
    }
    // One whole in-game day later, exactly one day's waking hours have passed.
    assert_eq!(awake_ms(3 * HOUR + UPTIME_MS_PER_GAME_DAY) - awake_ms(3 * HOUR), 100 * MIN);
}

#[test]
fn a_clock_reading_in_the_middle_of_the_night() {
    // 30 min of uptime after midnight is 06:00 of day 2.
    assert_eq!(game_time(110 * MIN), GameTime { day: 2, hour: 6, minute: 0 });
    assert!(!is_asleep(110 * MIN));
    // 02:00 of day 2.
    assert_eq!(game_time(90 * MIN), GameTime { day: 2, hour: 2, minute: 0 });
    assert!(is_asleep(90 * MIN));
}
