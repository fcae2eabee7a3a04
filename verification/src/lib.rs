//! Game state and time arithmetic for a virtual pet that lives on a badge,
//! with nothing device-shaped in it.
//!
//! Drawing, input and storage live one level up, in the application. Keeping
//! them out of here is what makes the logic checkable on its own.

pub mod badge;
pub mod look;
pub mod minigame;
pub mod pet;
pub mod pet_laws;
pub mod save;
pub mod time;

use vstd::prelude::*;

use crate::pet::{spec_new_pet, Pet, PetModel};

verus! {

/// Real time that maps to one in-game day.
pub const REAL_MS_PER_GAME_DAY: u64 = 2 * 60 * 60 * 1000;

/// Accelerator for the clock. At 1 the clock runs in real time; at 60 a full
/// in-game day passes in two minutes.
pub const TIME_SCALE: u64 = 60;

/// A point on the in-game calendar. Days count from 1.
#[derive(Debug, Clone, Copy, PartialEq, Eq, Structural)]
pub struct GameTime {
    pub day: u64,
    pub hour: u64,
    pub minute: u64,
}

/// The calendar reading after `elapsed_ms` of real time, with the clock sped
/// up by `TIME_SCALE` (held at `u64::MAX` rather than overflowing).
pub open spec fn spec_game_time(elapsed_ms: u64) -> GameTime {
    let scaled = if elapsed_ms * TIME_SCALE > u64::MAX {
        u64::MAX as int
    } else {
        elapsed_ms * TIME_SCALE
    };
    let into_day = scaled % (REAL_MS_PER_GAME_DAY as int);
    let minutes = into_day * 24 * 60 / (REAL_MS_PER_GAME_DAY as int);
    GameTime {
        day: (scaled / (REAL_MS_PER_GAME_DAY as int) + 1) as u64,
        hour: (minutes / 60) as u64,
        minute: (minutes % 60) as u64,
    }
}

/// Convert elapsed milliseconds into in-game time. Every input gives a valid
/// reading: the hour is below 24 and the minute below 60.
pub fn game_time(elapsed_ms: u64) -> (r: GameTime)
    ensures
        r == spec_game_time(elapsed_ms),
        r.hour < 24,
        r.minute < 60,
        r.day >= 1,
{
    let scaled = match elapsed_ms.checked_mul(TIME_SCALE) {
        Some(v) => v,
        None => u64::MAX,
    };
    assert(scaled / 7_200_000 < scaled || scaled == 0) by (nonlinear_arith);
    let day = scaled / REAL_MS_PER_GAME_DAY + 1;
    let into_day = scaled % REAL_MS_PER_GAME_DAY;
    assert(into_day * 24 * 60 / 7_200_000 < 1440) by (nonlinear_arith)
        requires
            into_day < 7_200_000,
    ;
    let minutes = into_day * 24 * 60 / REAL_MS_PER_GAME_DAY;
    GameTime { day, hour: minutes / 60, minute: minutes % 60 }
}

/// What a [`GameState`] holds: the clock reading when the game was entered,
/// and the latest one.
pub struct GameStateModel {
    pub start_ms: u64,
    pub now_ms: u64,
}

/// Everything the game remembers between frames. Today that is only the clock.
#[derive(Debug, Clone, Copy)]
pub struct GameState {
    /// Host clock reading at the moment the game was entered.
    start_ms: u64,
    /// Most recent host clock reading handed to us.
    now_ms: u64,
}

impl View for GameState {
    type V = GameStateModel;

    closed spec fn view(&self) -> GameStateModel {
        GameStateModel { start_ms: self.start_ms, now_ms: self.now_ms }
    }
}

impl GameStateModel {
    /// Milliseconds since the game was entered.
    pub open spec fn elapsed(self) -> int {
        if self.now_ms < self.start_ms {
            0
        } else {
            self.now_ms - self.start_ms
        }
    }
}

impl Default for GameState {
    fn default() -> (r: Self)
        ensures
            r@ == (GameStateModel { start_ms: 0, now_ms: 0 }),
    {
        GameState { start_ms: 0, now_ms: 0 }
    }
}

impl GameState {
    pub fn new() -> (r: Self)
        ensures
            r@ == (GameStateModel { start_ms: 0, now_ms: 0 }),
    {
        GameState { start_ms: 0, now_ms: 0 }
    }

    /// Take the time reference. Called every time the game is entered, so the
    /// clock restarts at day 1, 00:00.
    pub fn start(&mut self, now_ms: u64)
        ensures
            final(self)@ == (GameStateModel { start_ms: now_ms, now_ms: now_ms }),
            final(self)@.elapsed() == 0,
    {
        self.start_ms = now_ms;
        self.now_ms = now_ms;
    }

    /// Advance to a new host clock reading. The clock is monotonic from the
    /// caller's point of view, so a reading older than the start is clamped.
    pub fn tick(&mut self, now_ms: u64)
        ensures
            final(self)@.start_ms == old(self)@.start_ms,
            final(self)@.now_ms == (if now_ms < old(self)@.start_ms {
                old(self)@.start_ms
            } else {
                now_ms
            }),
            final(self)@.now_ms >= final(self)@.start_ms,
    {
        self.now_ms = if now_ms < self.start_ms {
            self.start_ms
        } else {
            now_ms
        };
    }

    /// Milliseconds since the game was entered.
    pub fn elapsed_ms(&self) -> (r: u64)
        ensures
            r == self@.elapsed(),
    {
        self.now_ms.saturating_sub(self.start_ms)
    }

    /// Current in-game time.
    pub fn game_time(&self) -> (r: GameTime)
        ensures
            r == spec_game_time(self@.elapsed() as u64),
    {
        game_time(self.elapsed_ms())
    }
}

/// What a [`Game`] holds: the badge's cumulative uptime, the uptime at which
/// the current generation began, which generation it is, the discipline it
/// inherited, and the pet.
pub struct GameModel {
    pub uptime_ms: u64,
    pub gen_start_ms: u64,
    pub generation: u32,
    pub inherited: u8,
    pub pet: PetModel,
}

impl GameModel {
    /// The pet keeps its bounds, and its decay periods are the ones its
    /// inherited discipline gives.
    pub open spec fn wf(self) -> bool {
        &&& self.pet.wf()
        &&& self.pet.hunger_period_ms == spec_new_pet(self.inherited).hunger_period_ms
        &&& self.pet.mood_period_ms == spec_new_pet(self.inherited).mood_period_ms
    }
}

/// A lineage of pets on one badge.
pub struct Game {
    uptime_ms: u64,
    gen_start_ms: u64,
    generation: u32,
    inherited: u8,
    pet: Pet,
}

impl View for Game {
    type V = GameModel;

    closed spec fn view(&self) -> GameModel {
        GameModel {
            uptime_ms: self.uptime_ms,
            gen_start_ms: self.gen_start_ms,
            generation: self.generation,
            inherited: self.inherited,
            pet: self.pet@,
        }
    }
}

impl Game {
    /// Put a game back together from its parts.
    pub fn restore(uptime_ms: u64, gen_start_ms: u64, generation: u32, inherited: u8, pet: Pet) -> (r:
        Self)
        ensures
            r@ == (GameModel { uptime_ms, gen_start_ms, generation, inherited, pet: pet@ }),
    {
        Game { uptime_ms, gen_start_ms, generation, inherited, pet }
    }

    pub fn uptime_ms(&self) -> (r: u64)
        ensures
            r == self@.uptime_ms,
    {
        self.uptime_ms
    }

    pub fn gen_start_ms(&self) -> (r: u64)
        ensures
            r == self@.gen_start_ms,
    {
        self.gen_start_ms
    }

    pub fn generation(&self) -> (r: u32)
        ensures
            r == self@.generation,
    {
        self.generation
    }

    pub fn inherited(&self) -> (r: u8)
        ensures
            r == self@.inherited,
    {
        self.inherited
    }

    pub fn pet(&self) -> (r: &Pet)
        ensures
            r@ == self@.pet,
    {
        &self.pet
    }
}

} // verus!
