use dc34_virtual_pet_core::{game_time, GameState, GameTime, REAL_MS_PER_GAME_DAY, TIME_SCALE};

/// Real milliseconds that produce `game_minutes` of in-game time. Only exact
/// for multiples of 3 at the current scale, so the callers below stick to those.
fn real_ms(game_minutes: u64) -> u64 {
    game_minutes * REAL_MS_PER_GAME_DAY / (24 * 60) / TIME_SCALE
}

#[test]
fn starts_at_day_one_midnight() {
    assert_eq!(game_time(0), GameTime { day: 1, hour: 0, minute: 0 });
}

#[test]
fn minutes_advance() {
    assert_eq!(game_time(real_ms(3)), GameTime { day: 1, hour: 0, minute: 3 });
    assert_eq!(game_time(real_ms(90)), GameTime { day: 1, hour: 1, minute: 30 });
    assert_eq!(game_time(real_ms(1_437)), GameTime { day: 1, hour: 23, minute: 57 });
}

#[test]
fn day_rolls_over() {
    let one_day = REAL_MS_PER_GAME_DAY / TIME_SCALE;
    assert_eq!(game_time(one_day - 1), GameTime { day: 1, hour: 23, minute: 59 });
    assert_eq!(game_time(one_day), GameTime { day: 2, hour: 0, minute: 0 });
    assert_eq!(game_time(3 * one_day + one_day / 2), GameTime { day: 4, hour: 12, minute: 0 });
}

#[test]
fn no_overflow_at_the_top_of_the_range() {
    // Saturating keeps this from overflowing.
    let t = game_time(u64::MAX);
    assert!(t.hour < 24 && t.minute < 60);
}

#[test]
fn state_is_relative_to_start() {
    let one_day = REAL_MS_PER_GAME_DAY / TIME_SCALE;
    let mut state = GameState::new();
    state.start(1_000_000);
    assert_eq!(state.elapsed_ms(), 0);
    assert_eq!(state.game_time(), GameTime { day: 1, hour: 0, minute: 0 });

    state.tick(1_000_000 + one_day);
    assert_eq!(state.game_time(), GameTime { day: 2, hour: 0, minute: 0 });
}

#[test]
fn state_clamps_readings_before_start() {
    let mut state = GameState::new();
    state.start(500);
    state.tick(100);
    assert_eq!(state.elapsed_ms(), 0);
}

#[test]
fn the_top_of_the_scaled_range_saturates() {
    // u64::MAX scaled saturates at u64::MAX: 2562047788015 whole days pass.
    let t = game_time(u64::MAX);
    assert_eq!(t.day, u64::MAX / REAL_MS_PER_GAME_DAY + 1);
    let u = game_time(u64::MAX / TIME_SCALE + 1);
    assert_eq!(t, u);
}

#[test]
fn a_default_state_matches_a_new_one() {
    let a = GameState::default();
    let b = GameState::new();
    assert_eq!(a.elapsed_ms(), b.elapsed_ms());
    assert_eq!(a.game_time(), GameTime { day: 1, hour: 0, minute: 0 });
}

#[test]
fn elapsed_time_follows_ticks() {
    let mut state = GameState::new();
    state.start(10);
    state.tick(2_010);
    assert_eq!(state.elapsed_ms(), 2_000);
    // 2 s of real time at 60x is 24 in-game minutes.
    assert_eq!(state.game_time(), GameTime { day: 1, hour: 0, minute: 24 });
}
