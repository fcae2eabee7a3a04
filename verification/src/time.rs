//! The two clocks the game runs on.
//!
//! * **uptime** -- cumulative milliseconds the badge has been powered. Never wall
//!   clock time.
//! * **awake time** -- uptime with the pet's nights subtracted. Needs (hunger,
//!   mood, poop) run on this one, so leaving the badge on overnight does not
//!   starve the pet while it sleeps.
//!
//! Both are pure functions of uptime. Nothing here accumulates, which is what
//! keeps the simulation independent of how often `tick()` happens to be called.

use vstd::prelude::*;

verus! {

/// Uptime that makes one in-game day: a cumulative two hours.
pub const UPTIME_MS_PER_GAME_DAY: u64 = 2 * 60 * 60 * 1000;

/// The pet sleeps from in-game 00:00 until this hour. Four in-game hours is ten
/// minutes of uptime per hour: enough for the night to be a thing that happens,
/// short enough not to eat a noticeable share of a lifespan.
pub const WAKE_HOUR: u64 = 4;

/// In-game time at which an egg is laid. Starting the day at midnight would put
/// a newborn straight into the sleep screen; 08:00 gives it a full day first.
pub const START_HOUR: u64 = 8;

pub const MS_PER_GAME_HOUR: u64 = UPTIME_MS_PER_GAME_DAY / 24;
pub const SLEEP_MS: u64 = WAKE_HOUR * MS_PER_GAME_HOUR;
pub const AWAKE_MS_PER_DAY: u64 = UPTIME_MS_PER_GAME_DAY - SLEEP_MS;
pub const START_OFFSET_MS: u64 = START_HOUR * MS_PER_GAME_HOUR;

/// A point on the in-game calendar. Days count from 1, and reset with each
/// generation -- `day` is the pet's age, not a running total.
#[derive(Debug, Clone, Copy, PartialEq, Eq, Structural)]
pub struct GameTime {
    pub day: u64,
    pub hour: u64,
    pub minute: u64,
}

/// Roughly where in the day the pet is. `Night` is the warning that sleep is
/// coming.
#[derive(Debug, Clone, Copy, PartialEq, Eq, Structural)]
pub enum TimeOfDay {
    Morning,
    Noon,
    Evening,
    Night,
}

/// `a + b`, held at `u64::MAX`.
pub open spec fn sat_add(a: int, b: int) -> int {
    if a + b > u64::MAX {
        u64::MAX as int
    } else {
        a + b
    }
}

/// `a - b`, held at zero.
pub open spec fn sat_sub(a: int, b: int) -> int {
    if a < b {
        0
    } else {
        a - b
    }
}

/// Uptime since in-game midnight of day 1 (which is eight in-game hours before
/// birth), capped at `u64::MAX`.
pub open spec fn since_day_one_midnight(age_ms: u64) -> int {
    sat_add(age_ms as int, START_OFFSET_MS as int)
}

/// The part of the day an hour falls in.
pub open spec fn spec_time_of_day(hour: u64) -> TimeOfDay {
    if 6 <= hour <= 10 {
        TimeOfDay::Morning
    } else if 11 <= hour <= 16 {
        TimeOfDay::Noon
    } else if 17 <= hour <= 20 {
        TimeOfDay::Evening
    } else {
        TimeOfDay::Night
    }
}

impl TimeOfDay {
    pub fn at(hour: u64) -> (r: Self)
        ensures
            r == spec_time_of_day(hour),
    {
        if 6 <= hour && hour <= 10 {
            TimeOfDay::Morning
        } else if 11 <= hour && hour <= 16 {
            TimeOfDay::Noon
        } else if 17 <= hour && hour <= 20 {
            TimeOfDay::Evening
        } else {
            // 21:00 onwards, through the small hours until the pet wakes.
            TimeOfDay::Night
        }
    }
}

/// The in-game calendar reading at a given age.
pub open spec fn spec_game_time(age_ms: u64) -> GameTime {
    let t = since_day_one_midnight(age_ms);
    let into_day = t % (UPTIME_MS_PER_GAME_DAY as int);
    let minutes = into_day * 24 * 60 / (UPTIME_MS_PER_GAME_DAY as int);
    GameTime {
        day: (t / (UPTIME_MS_PER_GAME_DAY as int) + 1) as u64,
        hour: (minutes / 60) as u64,
        minute: (minutes % 60) as u64,
    }
}

/// In-game time at a given age. Every age gives a valid clock reading: the
/// hour is below 24 and the minute below 60.
pub fn game_time(age_ms: u64) -> (r: GameTime)
    ensures
        r == spec_game_time(age_ms),
        r.hour < 24,
        r.minute < 60,
        r.day >= 1,
{
    let t = age_ms.saturating_add(START_OFFSET_MS);
    assert(t / 7_200_000 < t || t == 0) by (nonlinear_arith);
    let day = t / UPTIME_MS_PER_GAME_DAY + 1;
    let into_day = t % UPTIME_MS_PER_GAME_DAY;
    assert(into_day * 24 * 60 / 7_200_000 < 1440) by (nonlinear_arith)
        requires
            into_day < 7_200_000,
    ;
    let minutes = into_day * 24 * 60 / UPTIME_MS_PER_GAME_DAY;
    GameTime { day, hour: minutes / 60, minute: minutes % 60 }
}

/// Whether the pet sleeps at a given age: the first `WAKE_HOUR` in-game hours
/// of every day.
pub open spec fn spec_is_asleep(age_ms: u64) -> bool {
    since_day_one_midnight(age_ms) % (UPTIME_MS_PER_GAME_DAY as int) < SLEEP_MS as int
}

/// Whether the pet is asleep at a given age.
pub fn is_asleep(age_ms: u64) -> (r: bool)
    ensures
        r == spec_is_asleep(age_ms),
{
    age_ms.saturating_add(START_OFFSET_MS) % UPTIME_MS_PER_GAME_DAY < SLEEP_MS
}

/// Awake time since in-game midnight of day 1, at `t` milliseconds of uptime
/// after that midnight: every whole day counts its waking hours, and the day in
/// progress counts whatever of it lies past the wake-up hour.
pub open spec fn awake_since_midnight(t: int) -> int {
    (t / (UPTIME_MS_PER_GAME_DAY as int)) * (AWAKE_MS_PER_DAY as int) + sat_sub(
        t % (UPTIME_MS_PER_GAME_DAY as int),
        SLEEP_MS as int,
    )
}

/// Awake milliseconds between birth and `age_ms`.
pub open spec fn spec_awake_ms(age_ms: u64) -> int {
    awake_since_midnight(since_day_one_midnight(age_ms)) - awake_since_midnight(
        START_OFFSET_MS as int,
    )
}

/// The awake clock since midnight never runs backwards, and never runs faster
/// than uptime.
proof fn lemma_awake_since_midnight_monotone(t1: int, t2: int)
    requires
        0 <= t1 <= t2,
    ensures
        awake_since_midnight(t1) <= awake_since_midnight(t2),
        awake_since_midnight(t2) - awake_since_midnight(t1) <= t2 - t1,
{
    let d = UPTIME_MS_PER_GAME_DAY as int;
    let q1 = t1 / d;
    let q2 = t2 / d;
    let r1 = t1 % d;
    let r2 = t2 % d;
    assert(t1 == q1 * d + r1 && 0 <= r1 < d);
    assert(t2 == q2 * d + r2 && 0 <= r2 < d);
    assert(q1 <= q2) by {
        vstd::arithmetic::div_mod::lemma_div_is_ordered(t1, t2, d);
    }
    if q1 == q2 {
        assert(r1 <= r2);
    } else {
        assert(q1 + 1 <= q2);
        assert(q2 * (AWAKE_MS_PER_DAY as int) >= (q1 + 1) * (AWAKE_MS_PER_DAY as int)) by (
        nonlinear_arith)
            requires
                q1 + 1 <= q2,
        ;
        assert(q2 * d - q1 * d >= d) by (nonlinear_arith)
            requires
                q1 + 1 <= q2,
                d > 0,
        ;
        assert((q2 - q1) * (AWAKE_MS_PER_DAY as int) <= (q2 - q1) * d) by (nonlinear_arith)
            requires
                q1 <= q2,
                d == 7_200_000,
        ;
        assert((q2 - q1) * (AWAKE_MS_PER_DAY as int) == q2 * (AWAKE_MS_PER_DAY as int) - q1 * (
        AWAKE_MS_PER_DAY as int)) by (nonlinear_arith);
        assert((q2 - q1) * d == q2 * d - q1 * d) by (nonlinear_arith);
    }
}

/// Awake time never goes backwards as the pet ages, never runs faster than
/// uptime, starts at zero at birth, and never exceeds the age itself.
pub proof fn lemma_awake_ms_monotone(a: u64, b: u64)
    requires
        a <= b,
    ensures
        0 <= spec_awake_ms(a) <= spec_awake_ms(b),
        spec_awake_ms(b) - spec_awake_ms(a) <= b - a,
        spec_awake_ms(b) <= b,
        spec_awake_ms(0) == 0,
{
    let o = START_OFFSET_MS as int;
    lemma_awake_since_midnight_monotone(o, since_day_one_midnight(a));
    lemma_awake_since_midnight_monotone(since_day_one_midnight(a), since_day_one_midnight(b));
    lemma_awake_since_midnight_monotone(o, since_day_one_midnight(b));
    assert(2_400_000int / 7_200_000int == 0) by (nonlinear_arith);
    assert(2_400_000int % 7_200_000int == 2_400_000) by (nonlinear_arith);
    assert(awake_since_midnight(o) == 1_200_000);
}

/// Awake time stands still for every millisecond the pet sleeps, and keeps
/// pace with uptime for every millisecond it is awake (short of the very top
/// of the range, where uptime itself saturates).
pub proof fn lemma_awake_ms_step(age_ms: u64)
    requires
        age_ms + START_OFFSET_MS < u64::MAX,
    ensures
        spec_is_asleep(age_ms) ==> spec_awake_ms((age_ms + 1) as u64) == spec_awake_ms(age_ms),
        !spec_is_asleep(age_ms) ==> spec_awake_ms((age_ms + 1) as u64) == spec_awake_ms(age_ms)
            + 1,
{
    let d = UPTIME_MS_PER_GAME_DAY as int;
    let t = age_ms + START_OFFSET_MS;
    let q = t / d;
    let r = t % d;
    vstd::arithmetic::div_mod::lemma_fundamental_div_mod(t, d);
    assert(t == d * q + r && 0 <= r < d);
    assert(t == q * d + r) by (nonlinear_arith)
        requires
            t == d * q + r,
    ;
    if r + 1 < d {
        vstd::arithmetic::div_mod::lemma_fundamental_div_mod_converse(t + 1, d, q, r + 1);
    } else {
        assert(t + 1 == (q + 1) * d + 0) by (nonlinear_arith)
            requires
                t == q * d + r,
                r + 1 == d,
        ;
        vstd::arithmetic::div_mod::lemma_fundamental_div_mod_converse(t + 1, d, q + 1, 0);
        assert((q + 1) * (AWAKE_MS_PER_DAY as int) == q * (AWAKE_MS_PER_DAY as int)
            + AWAKE_MS_PER_DAY) by (nonlinear_arith);
    }
}

/// The pet sleeps exactly through the first `WAKE_HOUR` hours of each in-game
/// day, as the clock shows them, and those hours read as night.
pub proof fn lemma_asleep_in_the_small_hours(age_ms: u64)
    ensures
        spec_is_asleep(age_ms) == (spec_game_time(age_ms).hour < WAKE_HOUR),
        spec_is_asleep(age_ms) ==> spec_time_of_day(spec_game_time(age_ms).hour)
            == TimeOfDay::Night,
{
    let t = since_day_one_midnight(age_ms);
    let x = t % 7_200_000;
    assert(0 <= x < 7_200_000);
    assert(x * 24 * 60 / 7_200_000 == x / 5000) by (nonlinear_arith)
        requires
            0 <= x,
    {
        vstd::arithmetic::div_mod::lemma_div_denominator(x * 1440, 1440, 5000);
    }
    vstd::arithmetic::div_mod::lemma_div_denominator(x, 5000, 60);
    assert((x < 1_200_000) == (x / 300_000 < 4)) by (nonlinear_arith)
        requires
            0 <= x,
    ;
}

fn awake_since_midnight_exec(t: u64) -> (r: u64)
    ensures
        r == awake_since_midnight(t as int),
        r <= t,
{
    let days = t / UPTIME_MS_PER_GAME_DAY;
    let into_day = t % UPTIME_MS_PER_GAME_DAY;
    assert(days * AWAKE_MS_PER_DAY + into_day <= t) by (nonlinear_arith)
        requires
            days == t / 7_200_000,
            into_day == t % 7_200_000,
            AWAKE_MS_PER_DAY == 6_000_000,
    {
        assert(t == days * 7_200_000 + into_day);
    }
    days * AWAKE_MS_PER_DAY + into_day.saturating_sub(SLEEP_MS)
}

/// Awake milliseconds between birth and `age_ms`.
pub fn awake_ms(age_ms: u64) -> (r: u64)
    ensures
        r == spec_awake_ms(age_ms),
        r <= age_ms,
{
    proof {
        lemma_awake_ms_monotone(age_ms, age_ms);
        lemma_awake_ms_monotone(0, age_ms);
        lemma_awake_since_midnight_monotone(
            START_OFFSET_MS as int,
            since_day_one_midnight(age_ms),
        );
    }
    let start = awake_since_midnight_exec(START_OFFSET_MS);
    awake_since_midnight_exec(age_ms.saturating_add(START_OFFSET_MS)) - start
}

} // verus!
