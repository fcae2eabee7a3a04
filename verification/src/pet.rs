//! One creature's life: needs, mess, illness and how it ends.
//!
//! Every derived value is a function of the pet's age plus a handful of anchors
//! recorded when the player last acted. Nothing is integrated tick by tick, so
//! feeding at 08:00 and checking back after a five-hour blackout gives the same
//! result as watching the whole time. That property is the reason the badge can
//! sleep, lose power and resume without the simulation drifting.

use vstd::prelude::*;

use crate::save::PetState;
use crate::time::{
    awake_ms, is_asleep, lemma_awake_ms_monotone, sat_sub, spec_awake_ms, spec_is_asleep,
};

verus! {

// -- Lifetime -----------------------------------------------------------------

/// A generation lasts this much cumulative uptime.
pub const LIFESPAN_MS: u64 = 20 * 60 * 60 * 1000;

pub const STAGE_BABY_MS: u64 = 10 * 60 * 1000;
pub const STAGE_CHILD_MS: u64 = 2 * 60 * 60 * 1000;
pub const STAGE_TEEN_MS: u64 = 8 * 60 * 60 * 1000;
pub const STAGE_ADULT_MS: u64 = 14 * 60 * 60 * 1000;

#[derive(Debug, Clone, Copy, PartialEq, Eq, Structural)]
pub enum Stage {
    Egg,
    Baby,
    Child,
    Teen,
    Adult,
}

/// The stage a pet of a given age is in.
pub open spec fn spec_stage_at(age_ms: u64) -> Stage {
    if age_ms < STAGE_BABY_MS {
        Stage::Egg
    } else if age_ms < STAGE_CHILD_MS {
        Stage::Baby
    } else if age_ms < STAGE_TEEN_MS {
        Stage::Child
    } else if age_ms < STAGE_ADULT_MS {
        Stage::Teen
    } else {
        Stage::Adult
    }
}

/// The age at which a stage begins.
pub open spec fn spec_stage_start(s: Stage) -> u64 {
    match s {
        Stage::Egg => 0,
        Stage::Baby => STAGE_BABY_MS,
        Stage::Child => STAGE_CHILD_MS,
        Stage::Teen => STAGE_TEEN_MS,
        Stage::Adult => STAGE_ADULT_MS,
    }
}

impl Stage {
    /// The stage a pet of this age is in.
    pub fn at(age_ms: u64) -> (r: Self)
        ensures
            r == spec_stage_at(age_ms),
    {
        if age_ms < STAGE_BABY_MS {
            Stage::Egg
        } else if age_ms < STAGE_CHILD_MS {
            Stage::Baby
        } else if age_ms < STAGE_TEEN_MS {
            Stage::Child
        } else if age_ms < STAGE_ADULT_MS {
            Stage::Teen
        } else {
            Stage::Adult
        }
    }

    /// Age at which this stage begins. Used to place the evolution animation.
    pub fn starts_at(self) -> (r: u64)
        ensures
            r == spec_stage_start(self),
    {
        match self {
            Stage::Egg => 0,
            Stage::Baby => STAGE_BABY_MS,
            Stage::Child => STAGE_CHILD_MS,
            Stage::Teen => STAGE_TEEN_MS,
            Stage::Adult => STAGE_ADULT_MS,
        }
    }
}

/// A stage begins where it says it does, and every age lies at or after the
/// start of the stage it is in: the two functions agree with each other.
pub proof fn lemma_stage_start_round_trip(s: Stage, age_ms: u64)
    ensures
        spec_stage_at(spec_stage_start(s)) == s,
        spec_stage_start(spec_stage_at(age_ms)) <= age_ms,
{
}

/// The stages follow each other in order and split a life between them: an
/// egg hatches at ten minutes, a baby becomes a child at two hours, a child a
/// teen at eight and a teen an adult at fourteen; every age lies in exactly
/// the stage whose span holds it, and a later age is never in an earlier
/// stage.
pub proof fn lemma_stages_in_order(a: u64, b: u64)
    ensures
        spec_stage_start(Stage::Egg) == 0,
        spec_stage_start(Stage::Baby) == 10 * 60 * 1000,
        spec_stage_start(Stage::Child) == 2 * 60 * 60 * 1000,
        spec_stage_start(Stage::Teen) == 8 * 60 * 60 * 1000,
        spec_stage_start(Stage::Adult) == 14 * 60 * 60 * 1000,
        a < spec_stage_start(Stage::Baby) ==> spec_stage_at(a) == Stage::Egg,
        spec_stage_start(Stage::Baby) <= a < spec_stage_start(Stage::Child) ==> spec_stage_at(a)
            == Stage::Baby,
        spec_stage_start(Stage::Child) <= a < spec_stage_start(Stage::Teen) ==> spec_stage_at(a)
            == Stage::Child,
        spec_stage_start(Stage::Teen) <= a < spec_stage_start(Stage::Adult) ==> spec_stage_at(a)
            == Stage::Teen,
        spec_stage_start(Stage::Adult) <= a ==> spec_stage_at(a) == Stage::Adult,
        a <= b ==> spec_stage_start(spec_stage_at(a)) <= spec_stage_start(spec_stage_at(b)),
{
}

// -- Needs --------------------------------------------------------------------

/// Both meters run 0..=4, as four pips on the status bar.
pub const METER_MAX: u8 = 4;

/// Awake time per pip lost. Mood is the slower of the two so that a pet left
/// alone gets hungry before it gets sad.
pub const HUNGER_PERIOD_MS: u64 = 30 * 60 * 1000;
pub const MOOD_PERIOD_MS: u64 = 45 * 60 * 1000;

/// Each point of inherited discipline slows both meters by this much.
pub const INHERIT_BONUS_MS: u64 = 3 * 60 * 1000;

/// Awake time per dropping, at adult speed.
pub const POOP_PERIOD_MS: u64 = 60 * 60 * 1000;

/// The screen has room for this many. Beyond it they stop piling up.
pub const POOP_MAX: u8 = 4;

/// Living in this much of its own mess makes a pet ill.
pub const SICK_POOP: u8 = 3;

/// How long the pet calls before an unanswered call becomes a care miss.
pub const ALERT_GRACE_MS: u64 = 25 * 60 * 1000;

/// Care misses that kill. Reaching this is a game over, not a generation change.
pub const CARE_MISS_LIMIT: u8 = 5;

pub const WEIGHT_START: u16 = 5;
pub const WEIGHT_MIN: u16 = 5;
pub const WEIGHT_MAX: u16 = 99;

pub const DISCIPLINE_MAX: u8 = 4;

/// How a generation ended.
#[derive(Debug, Clone, Copy, PartialEq, Eq, Structural)]
pub enum Outcome {
    /// Lived the full span. The next generation inherits.
    Lifespan,
    /// Died of neglect. The lineage resets.
    CareFailure,
}

/// Why the pet ignored a menu choice. The wording is the host's business; this
/// only says which of them applies.
#[derive(Debug, Clone, Copy, PartialEq, Eq, Structural)]
pub enum Refusal {
    /// Still an egg.
    Unhatched,
    /// Asleep, and not to be woken.
    Asleep,
    /// The meter is already full.
    Full,
    /// Nothing wrong with it.
    Healthy,
    /// Nothing to do -- no mess, nobody calling.
    Nothing,
}

pub type ActionResult = Result<(), Refusal>;

// -- Arithmetic helpers ----------------------------------------------------------

pub open spec fn min_int(a: int, b: int) -> int {
    if a <= b {
        a
    } else {
        b
    }
}

pub open spec fn max_int(a: int, b: int) -> int {
    if a >= b {
        a
    } else {
        b
    }
}

/// A meter's level: one pip lost per elapsed period, floored at zero.
pub open spec fn spec_meter(at_anchor: int, elapsed_ms: int, period_ms: int) -> int {
    sat_sub(at_anchor, min_int(elapsed_ms / period_ms, METER_MAX as int))
}

/// Grace periods elapsed since `since_ms`, counted up to 255.
pub open spec fn spec_overdue(awake_ms: int, since_ms: int) -> int {
    min_int(sat_sub(awake_ms, since_ms) / (ALERT_GRACE_MS as int), 255)
}

/// The poop clock's contribution of one stage span: awake time inside the
/// span up to `age_ms`, weighted by how fast the pet produces there.
pub open spec fn span_clock(age_ms: u64, start: u64, end: u64, speed: int) -> int {
    let upto = if age_ms < end {
        age_ms
    } else {
        end
    };
    speed * (spec_awake_ms(upto) - spec_awake_ms(start))
}

/// Poop-clock milliseconds at a given age: awake time, weighted by how fast the
/// pet was producing at each stage. Young pets make a mess twice as fast as
/// grown ones; eggs make none.
pub open spec fn spec_poop_clock(age_ms: u64) -> int {
    if age_ms <= STAGE_BABY_MS {
        0
    } else if age_ms <= STAGE_TEEN_MS {
        span_clock(age_ms, STAGE_BABY_MS, STAGE_TEEN_MS, 2)
    } else if age_ms <= STAGE_ADULT_MS {
        span_clock(age_ms, STAGE_BABY_MS, STAGE_TEEN_MS, 2) + span_clock(
            age_ms,
            STAGE_TEEN_MS,
            STAGE_ADULT_MS,
            1,
        )
    } else {
        span_clock(age_ms, STAGE_BABY_MS, STAGE_TEEN_MS, 2) + span_clock(
            age_ms,
            STAGE_TEEN_MS,
            STAGE_ADULT_MS,
            1,
        ) + span_clock(age_ms, STAGE_ADULT_MS, LIFESPAN_MS, 1)
    }
}

/// `p` holds at `a` and at no earlier age.
pub open spec fn is_first(p: spec_fn(u64) -> bool, a: u64) -> bool {
    p(a) && forall|b: u64| b < a ==> !#[trigger] p(b)
}

/// The earliest age, no later than `hi`, at which `p` holds.
pub open spec fn first_age(hi: u64, p: spec_fn(u64) -> bool) -> u64 {
    choose|a: u64| a <= hi && is_first(p, a)
}

/// The poop clock has reached `target`, at an age no earlier than `from`.
pub open spec fn poop_reached_from(from: u64, target: int) -> spec_fn(u64) -> bool {
    |age_ms: u64| from <= age_ms && spec_poop_clock(age_ms) >= target
}

// -- The pet, as a value ---------------------------------------------------------

/// What a [`Pet`] holds, field for field.
pub struct PetModel {
    pub age_ms: u64,
    pub hunger_at_anchor: u8,
    pub hunger_anchor_ms: u64,
    pub hunger_misses: u8,
    pub mood_at_anchor: u8,
    pub mood_anchor_ms: u64,
    pub mood_misses: u8,
    pub poop_cleaned_ms: u64,
    pub sick_since_ms: Option<u64>,
    pub sick_misses: u8,
    pub scolded_this_alert: bool,
    pub care_miss: u8,
    pub weight: u16,
    pub discipline: u8,
    pub hunger_period_ms: u64,
    pub mood_period_ms: u64,
    pub outcome: Option<Outcome>,
}

/// Decay periods for a pet whose parent reached `inherited` discipline.
pub open spec fn bonus_for(inherited: u8) -> int {
    min_int(inherited as int, DISCIPLINE_MAX as int) * INHERIT_BONUS_MS
}

/// A fresh egg. `inherited` is the previous generation's discipline.
pub open spec fn spec_new_pet(inherited: u8) -> PetModel {
    let hatch = spec_awake_ms(STAGE_BABY_MS) as u64;
    PetModel {
        age_ms: 0,
        hunger_at_anchor: METER_MAX,
        hunger_anchor_ms: hatch,
        hunger_misses: 0,
        mood_at_anchor: METER_MAX,
        mood_anchor_ms: hatch,
        mood_misses: 0,
        poop_cleaned_ms: 0,
        sick_since_ms: None,
        sick_misses: 0,
        scolded_this_alert: false,
        care_miss: 0,
        weight: WEIGHT_START,
        discipline: 0,
        hunger_period_ms: (HUNGER_PERIOD_MS + bonus_for(inherited)) as u64,
        mood_period_ms: (MOOD_PERIOD_MS + bonus_for(inherited)) as u64,
        outcome: None,
    }
}

impl PetModel {
    /// The bounds every pet keeps: an age within its lifespan, meters and
    /// discipline within their scales, and decay periods as the constructor
    /// sets them for some inherited discipline.
    pub open spec fn wf(self) -> bool {
        &&& self.age_ms <= LIFESPAN_MS
        &&& self.hunger_at_anchor <= METER_MAX
        &&& self.mood_at_anchor <= METER_MAX
        &&& self.discipline <= DISCIPLINE_MAX
        &&& HUNGER_PERIOD_MS <= self.hunger_period_ms <= HUNGER_PERIOD_MS + 4 * INHERIT_BONUS_MS
        &&& self.mood_period_ms == self.hunger_period_ms + (MOOD_PERIOD_MS - HUNGER_PERIOD_MS)
    }

    /// The non-derived part, as written to a save file.
    pub open spec fn state(self) -> PetState {
        PetState {
            age_ms: self.age_ms,
            hunger_at_anchor: self.hunger_at_anchor,
            hunger_anchor_ms: self.hunger_anchor_ms,
            hunger_misses: self.hunger_misses,
            mood_at_anchor: self.mood_at_anchor,
            mood_anchor_ms: self.mood_anchor_ms,
            mood_misses: self.mood_misses,
            poop_cleaned_ms: self.poop_cleaned_ms,
            sick_since_ms: self.sick_since_ms,
            sick_misses: self.sick_misses,
            scolded_this_alert: self.scolded_this_alert,
            care_miss: self.care_miss,
            weight: self.weight,
            discipline: self.discipline,
            outcome: self.outcome,
        }
    }

    /// This pet with a saved state put back: the decay periods stay, the rest
    /// comes from `s`, with age, meters and discipline held to their ranges.
    pub open spec fn restored(self, s: PetState) -> PetModel {
        PetModel {
            age_ms: min_int(s.age_ms as int, LIFESPAN_MS as int) as u64,
            hunger_at_anchor: min_int(s.hunger_at_anchor as int, METER_MAX as int) as u8,
            hunger_anchor_ms: s.hunger_anchor_ms,
            hunger_misses: s.hunger_misses,
            mood_at_anchor: min_int(s.mood_at_anchor as int, METER_MAX as int) as u8,
            mood_anchor_ms: s.mood_anchor_ms,
            mood_misses: s.mood_misses,
            poop_cleaned_ms: s.poop_cleaned_ms,
            sick_since_ms: s.sick_since_ms,
            sick_misses: s.sick_misses,
            scolded_this_alert: s.scolded_this_alert,
            care_miss: s.care_miss,
            weight: s.weight,
            discipline: min_int(s.discipline as int, DISCIPLINE_MAX as int) as u8,
            hunger_period_ms: self.hunger_period_ms,
            mood_period_ms: self.mood_period_ms,
            outcome: s.outcome,
        }
    }

    pub open spec fn stage(self) -> Stage {
        spec_stage_at(self.age_ms)
    }

    pub open spec fn asleep(self) -> bool {
        spec_is_asleep(self.age_ms)
    }

    pub open spec fn sick(self) -> bool {
        self.sick_since_ms is Some
    }

    /// Awake time between birth and the pet's current age.
    pub open spec fn awake(self) -> int {
        spec_awake_ms(self.age_ms)
    }

    pub open spec fn hunger(self) -> int {
        spec_meter(
            self.hunger_at_anchor as int,
            sat_sub(self.awake(), self.hunger_anchor_ms as int),
            self.hunger_period_ms as int,
        )
    }

    pub open spec fn mood(self) -> int {
        spec_meter(
            self.mood_at_anchor as int,
            sat_sub(self.awake(), self.mood_anchor_ms as int),
            self.mood_period_ms as int,
        )
    }

    /// Whole droppings produced since the last sweep, up to what the screen
    /// holds.
    pub open spec fn poop(self) -> int {
        min_int(
            sat_sub(spec_poop_clock(self.age_ms), self.poop_cleaned_ms as int) / (
            POOP_PERIOD_MS as int),
            POOP_MAX as int,
        )
    }

    /// The pet is calling for help: a meter has bottomed out, or it is ill.
    pub open spec fn alert(self) -> bool {
        !self.asleep() && (self.hunger() == 0 || self.mood() == 0 || self.sick())
    }

    /// Awake time at which each meter bottoms out, given the current anchors.
    pub open spec fn hunger_zero(self) -> int {
        self.hunger_anchor_ms + self.hunger_at_anchor * self.hunger_period_ms
    }

    pub open spec fn mood_zero(self) -> int {
        self.mood_anchor_ms + self.mood_at_anchor * self.mood_period_ms
    }

    /// How the generation stands agrees with the count of care misses and the
    /// age: a pet still alive has fewer than the fatal count and is short of
    /// its lifespan; one dead of neglect has reached the fatal count; one that
    /// lived out its span is exactly at it, with the count below the limit.
    pub open spec fn outcome_consistent(self) -> bool {
        match self.outcome {
            None => self.care_miss < CARE_MISS_LIMIT && self.age_ms < LIFESPAN_MS,
            Some(Outcome::CareFailure) => self.care_miss >= CARE_MISS_LIMIT,
            Some(Outcome::Lifespan) => self.care_miss < CARE_MISS_LIMIT && self.age_ms
                == LIFESPAN_MS,
        }
    }

    /// Care misses the illness has run up by awake time `awake`.
    pub open spec fn sick_overdue(self, awake: int) -> int {
        match self.sick_since_ms {
            None => 0,
            Some(since) => spec_overdue(awake, since as int),
        }
    }

    /// Total care misses the pet would have at `age_ms`, counting the ones
    /// not yet charged, up to 255.
    pub open spec fn total_misses_at(self, age_ms: u64) -> int {
        let aw = spec_awake_ms(age_ms);
        let hunger = sat_sub(spec_overdue(aw, self.hunger_zero()), self.hunger_misses as int);
        let mood = sat_sub(spec_overdue(aw, self.mood_zero()), self.mood_misses as int);
        let sick = sat_sub(self.sick_overdue(aw), self.sick_misses as int);
        min_int(self.care_miss + hunger + mood + sick, 255)
    }

    /// The care-miss count has reached the fatal limit at this age, which is no
    /// earlier than `from`.
    pub open spec fn fatal_from(self, from: u64) -> spec_fn(u64) -> bool {
        |age_ms: u64| from <= age_ms && self.total_misses_at(age_ms) >= CARE_MISS_LIMIT
    }

    /// Moving the age on, never back, and never past the lifespan.
    pub open spec fn aged_to(self, age_ms: u64) -> PetModel {
        PetModel {
            age_ms: min_int(max_int(age_ms as int, self.age_ms as int), LIFESPAN_MS as int) as u64,
            ..self
        }
    }

    /// An unswept pen of `SICK_POOP` droppings makes the pet ill, dated from
    /// the dropping that did it, but no earlier than `from`, the age the pet
    /// had already been advanced to: what lies before it has been charged.
    pub open spec fn with_illness(self, from: u64) -> PetModel {
        if self.sick_since_ms is None && self.poop() >= SICK_POOP {
            let target = self.poop_cleaned_ms + SICK_POOP * POOP_PERIOD_MS;
            let onset = first_age(self.age_ms, poop_reached_from(from, target));
            PetModel {
                sick_since_ms: Some(spec_awake_ms(onset) as u64),
                sick_misses: 0,
                ..self
            }
        } else {
            self
        }
    }

    /// A pet that has run out of care dies at the age the fatal miss landed,
    /// or at `from`, the age it had already been advanced to, if that is later.
    /// An illness dated after its death never happened.
    pub open spec fn with_death(self, from: u64) -> PetModel {
        if self.total_misses_at(self.age_ms) >= CARE_MISS_LIMIT {
            let at = first_age(self.age_ms, self.fatal_from(from));
            let dead = PetModel { age_ms: at, outcome: Some(Outcome::CareFailure), ..self };
            match dead.sick_since_ms {
                Some(since) => if since > spec_awake_ms(at) {
                    PetModel { sick_since_ms: None, ..dead }
                } else {
                    dead
                },
                None => dead,
            }
        } else {
            self
        }
    }

    /// Every unanswered call charged: the care-miss count brought up to date,
    /// and each source remembering how much it has been charged for. A
    /// scolding is forgotten once the pet stops calling.
    pub open spec fn settled(self) -> PetModel {
        let aw = self.awake();
        let m = PetModel {
            care_miss: self.total_misses_at(self.age_ms) as u8,
            hunger_misses: spec_overdue(aw, self.hunger_zero()) as u8,
            mood_misses: spec_overdue(aw, self.mood_zero()) as u8,
            sick_misses: self.sick_overdue(aw) as u8,
            ..self
        };
        if !m.alert() {
            PetModel { scolded_this_alert: false, ..m }
        } else {
            m
        }
    }

    /// The pet advanced to `age_ms`: nothing happens once the generation has
    /// ended; otherwise it ages, may fall ill, may die, is charged for its
    /// misses, and reaching the lifespan ends the generation. Nothing is dated
    /// before the age the pet had already reached.
    pub open spec fn advanced(self, age_ms: u64) -> PetModel {
        if self.outcome is Some {
            self
        } else {
            let from = self.age_ms;
            let m = self.aged_to(age_ms).with_illness(from).with_death(from).settled();
            if m.outcome is None && m.age_ms >= LIFESPAN_MS {
                PetModel { outcome: Some(Outcome::Lifespan), ..m }
            } else {
                m
            }
        }
    }

    /// No source of misses has been charged for more than it has run up by
    /// now. Every pet that is up to date is; a restored one need not be.
    pub open spec fn charged_within_owed(self) -> bool {
        &&& self.hunger_misses <= spec_overdue(self.awake(), self.hunger_zero())
        &&& self.mood_misses <= spec_overdue(self.awake(), self.mood_zero())
        &&& self.sick_misses <= self.sick_overdue(self.awake())
    }

    /// Every miss so far has been charged: each source remembers exactly the
    /// misses it has run up by now, the count is below the fatal limit, and
    /// the lifespan is not yet reached. A generation in progress is in this
    /// state after every advance, and after every action.
    pub open spec fn up_to_date(self) -> bool {
        &&& self.hunger_misses == spec_overdue(self.awake(), self.hunger_zero())
        &&& self.mood_misses == spec_overdue(self.awake(), self.mood_zero())
        &&& self.sick_misses == self.sick_overdue(self.awake())
        &&& self.care_miss < CARE_MISS_LIMIT
        &&& self.age_ms < LIFESPAN_MS
    }

    // -- Actions --------------------------------------------------------------

    /// Why any action would be refused right now, if it would.
    pub open spec fn refusal(self) -> Option<Refusal> {
        if self.stage() == Stage::Egg {
            Some(Refusal::Unhatched)
        } else if self.asleep() {
            Some(Refusal::Asleep)
        } else {
            None
        }
    }

    /// The hunger meter re-anchored at `level` now.
    pub open spec fn with_hunger(self, level: int) -> PetModel {
        PetModel {
            hunger_at_anchor: min_int(level, METER_MAX as int) as u8,
            hunger_anchor_ms: self.awake() as u64,
            hunger_misses: 0,
            ..self
        }
    }

    /// The mood meter re-anchored at `level` now.
    pub open spec fn with_mood(self, level: int) -> PetModel {
        PetModel {
            mood_at_anchor: min_int(level, METER_MAX as int) as u8,
            mood_anchor_ms: self.awake() as u64,
            mood_misses: 0,
            ..self
        }
    }

    /// Heavier by `grams`, up to `WEIGHT_MAX`.
    pub open spec fn heavier(self, grams: int) -> PetModel {
        PetModel { weight: min_int(self.weight + grams, WEIGHT_MAX as int) as u16, ..self }
    }

    /// A meal: one pip of hunger, one gram.
    pub open spec fn after_meal(self) -> (ActionResult, PetModel) {
        match self.refusal() {
            Some(r) => (Err(r), self),
            None => if self.hunger() >= METER_MAX {
                (Err(Refusal::Full), self)
            } else {
                (Ok(()), self.with_hunger(self.hunger() + 1).heavier(1))
            },
        }
    }

    /// A snack: one pip of mood, two grams.
    pub open spec fn after_snack(self) -> (ActionResult, PetModel) {
        match self.refusal() {
            Some(r) => (Err(r), self),
            None => if self.mood() >= METER_MAX {
                (Err(Refusal::Full), self)
            } else {
                (Ok(()), self.with_mood(self.mood() + 1).heavier(2))
            },
        }
    }

    /// A sweep: whole droppings go, the fraction of the next one stays.
    pub open spec fn after_clean(self) -> (ActionResult, PetModel) {
        match self.refusal() {
            Some(r) => (Err(r), self),
            None => if self.poop() == 0 {
                (Err(Refusal::Nothing), self)
            } else {
                let produced = spec_poop_clock(self.age_ms) - self.poop_cleaned_ms;
                (
                    Ok(()),
                    PetModel {
                        poop_cleaned_ms: (self.poop_cleaned_ms + produced / (POOP_PERIOD_MS as int)
                            * POOP_PERIOD_MS) as u64,
                        ..self
                    },
                )
            },
        }
    }

    /// Medicine cures an ill pet.
    pub open spec fn after_medicine(self) -> (ActionResult, PetModel) {
        match self.refusal() {
            Some(r) => (Err(r), self),
            None => if self.sick_since_ms is None {
                (Err(Refusal::Healthy), self)
            } else {
                (Ok(()), PetModel { sick_since_ms: None, sick_misses: 0, ..self })
            },
        }
    }

    /// A scolding lands only while the pet is calling, once per call.
    pub open spec fn after_scold(self) -> (ActionResult, PetModel) {
        match self.refusal() {
            Some(r) => (Err(r), self),
            None => if !self.alert() || self.scolded_this_alert {
                (Err(Refusal::Nothing), self)
            } else {
                (
                    Ok(()),
                    PetModel {
                        scolded_this_alert: true,
                        discipline: min_int(self.discipline + 1, DISCIPLINE_MAX as int) as u8,
                        ..self
                    },
                )
            },
        }
    }

    /// A round of the guessing game: winning cheers the pet up more, and
    /// either way it burns a gram, down to `WEIGHT_MIN`.
    pub open spec fn after_play(self, won: bool) -> (ActionResult, PetModel) {
        match self.refusal() {
            Some(r) => (Err(r), self),
            None => {
                let m = self.with_mood(self.mood() + if won {
                    2int
                } else {
                    1int
                });
                (
                    Ok(()),
                    PetModel {
                        weight: max_int(sat_sub(m.weight as int, 1), WEIGHT_MIN as int) as u16,
                        ..m
                    },
                )
            },
        }
    }
}

// -- Facts about the clocks and counts ---------------------------------------------

/// When `p` holds at `n`, some age no later than `n` is the first at which it
/// holds.
proof fn lemma_first_exists(n: u64, p: spec_fn(u64) -> bool)
    requires
        p(n),
    ensures
        exists|a: u64| a <= n && is_first(p, a),
    decreases n,
{
    if exists|b: u64| b < n && #[trigger] p(b) {
        let b = choose|b: u64| b < n && #[trigger] p(b);
        lemma_first_exists(b, p);
    } else {
        assert(is_first(p, n));
    }
}

/// `first_age` picks the first age at which `p` holds, and that age is the
/// only one with that property.
pub proof fn lemma_first_age(hi: u64, p: spec_fn(u64) -> bool, a: u64)
    requires
        p(hi),
    ensures
        first_age(hi, p) <= hi,
        is_first(p, first_age(hi, p)),
        is_first(p, a) ==> a == first_age(hi, p),
{
    lemma_first_exists(hi, p);
    let f = first_age(hi, p);
    if is_first(p, a) && a != f {
        if a < f {
            assert(!p(a));
        } else {
            assert(!p(f));
        }
    }
}

/// More awake time never means fewer grace periods overdue.
pub(crate) proof fn lemma_overdue_monotone(w1: int, w2: int, since: int)
    requires
        w1 <= w2,
    ensures
        spec_overdue(w1, since) <= spec_overdue(w2, since),
{
    vstd::arithmetic::div_mod::lemma_div_is_ordered(
        sat_sub(w1, since),
        sat_sub(w2, since),
        ALERT_GRACE_MS as int,
    );
}

/// The care-miss count a pet would have is monotonic in age: at a later age it
/// is never lower. This is what lets the fatal age be found by bisection.
pub proof fn lemma_total_misses_monotone(m: PetModel, a: u64, b: u64)
    requires
        a <= b,
    ensures
        m.total_misses_at(a) <= m.total_misses_at(b),
{
    lemma_awake_ms_monotone(a, b);
    let wa = spec_awake_ms(a);
    let wb = spec_awake_ms(b);
    lemma_overdue_monotone(wa, wb, m.hunger_zero());
    lemma_overdue_monotone(wa, wb, m.mood_zero());
    match m.sick_since_ms {
        Some(since) => lemma_overdue_monotone(wa, wb, since as int),
        None => {},
    }
}

proof fn lemma_span_monotone(a: u64, b: u64, start: u64, end: u64, speed: int)
    requires
        a <= b,
        start <= a,
        start < end,
        0 <= speed,
    ensures
        0 <= span_clock(a, start, end, speed) <= span_clock(b, start, end, speed),
{
    let ua = if a < end {
        a
    } else {
        end
    };
    let ub = if b < end {
        b
    } else {
        end
    };
    lemma_awake_ms_monotone(start, ua);
    lemma_awake_ms_monotone(ua, ub);
    assert(speed * (spec_awake_ms(ua) - spec_awake_ms(start)) <= speed * (spec_awake_ms(ub)
        - spec_awake_ms(start))) by (nonlinear_arith)
        requires
            0 <= speed,
            spec_awake_ms(ua) <= spec_awake_ms(ub),
    ;
    assert(0 <= speed * (spec_awake_ms(ua) - spec_awake_ms(start))) by (nonlinear_arith)
        requires
            0 <= speed,
            spec_awake_ms(start) <= spec_awake_ms(ua),
    ;
}

/// The poop clock never runs backwards, and stays within three lifespans.
pub proof fn lemma_poop_clock_monotone(a: u64, b: u64)
    requires
        a <= b,
    ensures
        0 <= spec_poop_clock(a) <= spec_poop_clock(b),
        spec_poop_clock(b) <= 3 * LIFESPAN_MS,
{
    let bb = STAGE_BABY_MS;
    let tt = STAGE_TEEN_MS;
    let aa = STAGE_ADULT_MS;
    let ll = LIFESPAN_MS;
    if a > bb {
        lemma_span_monotone(a, b, bb, tt, 2);
    }
    if a > tt {
        lemma_span_monotone(a, b, tt, aa, 1);
    }
    if a > aa {
        lemma_span_monotone(a, b, aa, ll, 1);
    }
    if b > bb {
        lemma_span_monotone(bb, b, bb, tt, 2);
        lemma_span_monotone(b, u64::MAX, bb, tt, 2);
    }
    if b > tt {
        lemma_span_monotone(tt, b, tt, aa, 1);
        lemma_span_monotone(b, u64::MAX, tt, aa, 1);
    }
    if b > aa {
        lemma_span_monotone(aa, b, aa, ll, 1);
        lemma_span_monotone(b, u64::MAX, aa, ll, 1);
    }
    if a <= bb < b {
        lemma_span_monotone(bb, b, bb, tt, 2);
    }
    if a <= tt < b {
        lemma_span_monotone(tt, b, tt, aa, 1);
    }
    if a <= aa < b {
        lemma_span_monotone(aa, b, aa, ll, 1);
    }
    lemma_awake_ms_monotone(bb, tt);
    lemma_awake_ms_monotone(tt, aa);
    lemma_awake_ms_monotone(aa, ll);
}

/// Advancing only ever moves a pet forward: it ends no younger than it was and
/// no older than the age asked for (held to the lifespan); and unless it died
/// of neglect on the way, exactly at that age. A pet whose generation has
/// ended stays where it is.
pub proof fn lemma_advance_moves_forward(m: PetModel, age_ms: u64)
    requires
        m.wf(),
    ensures
        m.age_ms <= m.advanced(age_ms).age_ms <= m.aged_to(age_ms).age_ms,
        m.advanced(age_ms).outcome != Some(Outcome::CareFailure) ==> m.advanced(age_ms).age_ms == (
        if m.outcome is None {
            m.aged_to(age_ms).age_ms
        } else {
            m.age_ms
        }),
{
    if m.outcome is None {
        let ill = m.aged_to(age_ms).with_illness(m.age_ms);
        if ill.total_misses_at(ill.age_ms) >= CARE_MISS_LIMIT {
            lemma_first_age(ill.age_ms, ill.fatal_from(m.age_ms), 0);
        }
    }
}

// -- The pet ---------------------------------------------------------------------

#[derive(Debug, Clone)]
pub struct Pet {
    /// Age this pet has been advanced to, capped at its lifespan.
    age_ms: u64,
    /// Meters are stored as "level at anchor" plus the awake time the anchor was
    /// taken, and decay is worked out on read. `*_misses` counts the care misses
    /// already credited against the current anchor, so re-reading is idempotent.
    hunger_at_anchor: u8,
    hunger_anchor_ms: u64,
    hunger_misses: u8,
    mood_at_anchor: u8,
    mood_anchor_ms: u64,
    mood_misses: u8,
    /// Droppings produced before the last sweep, in poop-clock milliseconds.
    poop_cleaned_ms: u64,
    /// Awake time at which the pet fell ill, if it is ill.
    sick_since_ms: Option<u64>,
    sick_misses: u8,
    /// A scolding only lands once per call, so it cannot be spammed for points.
    scolded_this_alert: bool,
    care_miss: u8,
    weight: u16,
    discipline: u8,
    /// Widened by inherited discipline.
    hunger_period_ms: u64,
    mood_period_ms: u64,
    outcome: Option<Outcome>,
}

impl View for Pet {
    type V = PetModel;

    closed spec fn view(&self) -> PetModel {
        PetModel {
            age_ms: self.age_ms,
            hunger_at_anchor: self.hunger_at_anchor,
            hunger_anchor_ms: self.hunger_anchor_ms,
            hunger_misses: self.hunger_misses,
            mood_at_anchor: self.mood_at_anchor,
            mood_anchor_ms: self.mood_anchor_ms,
            mood_misses: self.mood_misses,
            poop_cleaned_ms: self.poop_cleaned_ms,
            sick_since_ms: self.sick_since_ms,
            sick_misses: self.sick_misses,
            scolded_this_alert: self.scolded_this_alert,
            care_miss: self.care_miss,
            weight: self.weight,
            discipline: self.discipline,
            hunger_period_ms: self.hunger_period_ms,
            mood_period_ms: self.mood_period_ms,
            outcome: self.outcome,
        }
    }
}

/// A meter's current level: one pip per elapsed period, floored at zero.
fn meter(at_anchor: u8, elapsed_ms: u64, period_ms: u64) -> (r: u8)
    requires
        period_ms > 0,
    ensures
        r == spec_meter(at_anchor as int, elapsed_ms as int, period_ms as int),
{
    let q = elapsed_ms / period_ms;
    let lost: u8 = if q < METER_MAX as u64 {
        q as u8
    } else {
        METER_MAX
    };
    at_anchor.saturating_sub(lost)
}

/// Grace periods elapsed since `since_ms`. Zero until the first one is up.
fn overdue(awake_ms: u64, since_ms: u64) -> (r: u8)
    ensures
        r == spec_overdue(awake_ms as int, since_ms as int),
{
    let q = awake_ms.saturating_sub(since_ms) / ALERT_GRACE_MS;
    if q < 255 {
        q as u8
    } else {
        255
    }
}

impl Pet {
    /// A fresh egg. `inherited` is the previous generation's discipline.
    pub fn new(inherited: u8) -> (r: Self)
        ensures
            r@ == spec_new_pet(inherited),
            r@.wf(),
            r@.outcome_consistent(),
    {
        // Needs only start running once the egg hatches.
        let hatch = awake_ms(STAGE_BABY_MS);
        let capped: u8 = if inherited < DISCIPLINE_MAX {
            inherited
        } else {
            DISCIPLINE_MAX
        };
        assert(capped as u64 * INHERIT_BONUS_MS <= 4 * 180_000) by (nonlinear_arith)
            requires
                capped <= 4,
                INHERIT_BONUS_MS == 180_000,
        ;
        let bonus = capped as u64 * INHERIT_BONUS_MS;
        proof {
            crate::pet_laws::lemma_new_pet_up_to_date(inherited);
        }
        Pet {
            age_ms: 0,
            hunger_at_anchor: METER_MAX,
            hunger_anchor_ms: hatch,
            hunger_misses: 0,
            mood_at_anchor: METER_MAX,
            mood_anchor_ms: hatch,
            mood_misses: 0,
            poop_cleaned_ms: 0,
            sick_since_ms: None,
            sick_misses: 0,
            scolded_this_alert: false,
            care_miss: 0,
            weight: WEIGHT_START,
            discipline: 0,
            hunger_period_ms: HUNGER_PERIOD_MS + bonus,
            mood_period_ms: MOOD_PERIOD_MS + bonus,
            outcome: None,
        }
    }

    // -- Persistence ----------------------------------------------------------

    /// Everything this pet keeps that is not derived. The decay periods are
    /// left out on purpose: they follow from the inherited discipline the
    /// constructor is given, so storing them again would let the two disagree.
    pub fn save_state(&self) -> (r: PetState)
        ensures
            r == self@.state(),
    {
        PetState {
            age_ms: self.age_ms,
            hunger_at_anchor: self.hunger_at_anchor,
            hunger_anchor_ms: self.hunger_anchor_ms,
            hunger_misses: self.hunger_misses,
            mood_at_anchor: self.mood_at_anchor,
            mood_anchor_ms: self.mood_anchor_ms,
            mood_misses: self.mood_misses,
            poop_cleaned_ms: self.poop_cleaned_ms,
            sick_since_ms: self.sick_since_ms,
            sick_misses: self.sick_misses,
            scolded_this_alert: self.scolded_this_alert,
            care_miss: self.care_miss,
            weight: self.weight,
            discipline: self.discipline,
            outcome: self.outcome,
        }
    }

    /// Put a saved pet back. Call on a pet built with the matching `inherited`.
    pub fn restore(&mut self, s: &PetState)
        requires
            old(self)@.wf(),
        ensures
            final(self)@ == old(self)@.restored(*s),
            final(self)@.wf(),
    {
        self.age_ms = if s.age_ms < LIFESPAN_MS {
            s.age_ms
        } else {
            LIFESPAN_MS
        };
        self.hunger_at_anchor = if s.hunger_at_anchor < METER_MAX {
            s.hunger_at_anchor
        } else {
            METER_MAX
        };
        self.hunger_anchor_ms = s.hunger_anchor_ms;
        self.hunger_misses = s.hunger_misses;
        self.mood_at_anchor = if s.mood_at_anchor < METER_MAX {
            s.mood_at_anchor
        } else {
            METER_MAX
        };
        self.mood_anchor_ms = s.mood_anchor_ms;
        self.mood_misses = s.mood_misses;
        self.poop_cleaned_ms = s.poop_cleaned_ms;
        self.sick_since_ms = s.sick_since_ms;
        self.sick_misses = s.sick_misses;
        self.scolded_this_alert = s.scolded_this_alert;
        self.care_miss = s.care_miss;
        self.weight = s.weight;
        self.discipline = if s.discipline < DISCIPLINE_MAX {
            s.discipline
        } else {
            DISCIPLINE_MAX
        };
        self.outcome = s.outcome;
    }

    // -- Derived state --------------------------------------------------------

    pub fn age_ms(&self) -> (r: u64)
        ensures
            r == self@.age_ms,
    {
        self.age_ms
    }

    pub fn stage(&self) -> (r: Stage)
        ensures
            r == self@.stage(),
    {
        Stage::at(self.age_ms)
    }

    pub fn asleep(&self) -> (r: bool)
        ensures
            r == self@.asleep(),
    {
        is_asleep(self.age_ms)
    }

    pub fn weight(&self) -> (r: u16)
        ensures
            r == self@.weight,
    {
        self.weight
    }

    pub fn discipline(&self) -> (r: u8)
        ensures
            r == self@.discipline,
            self@.wf() ==> r <= DISCIPLINE_MAX,
    {
        self.discipline
    }

    pub fn care_miss(&self) -> (r: u8)
        ensures
            r == self@.care_miss,
    {
        self.care_miss
    }

    pub fn sick(&self) -> (r: bool)
        ensures
            r == self@.sick(),
    {
        self.sick_since_ms.is_some()
    }

    pub fn outcome(&self) -> (r: Option<Outcome>)
        ensures
            r == self@.outcome,
    {
        self.outcome
    }

    pub fn hunger(&self) -> (r: u8)
        requires
            self@.wf(),
        ensures
            r == self@.hunger(),
            r <= METER_MAX,
    {
        // The anchor sits at the hatch, which is ahead of an egg's awake clock;
        // saturating keeps the meter full until then instead of underflowing.
        let elapsed = self.awake().saturating_sub(self.hunger_anchor_ms);
        meter(self.hunger_at_anchor, elapsed, self.hunger_period_ms)
    }

    pub fn mood(&self) -> (r: u8)
        requires
            self@.wf(),
        ensures
            r == self@.mood(),
            r <= METER_MAX,
    {
        let elapsed = self.awake().saturating_sub(self.mood_anchor_ms);
        meter(self.mood_at_anchor, elapsed, self.mood_period_ms)
    }

    pub fn poop(&self) -> (r: u8)
        ensures
            r == self@.poop(),
            r <= POOP_MAX,
    {
        let produced = self.poop_clock(self.age_ms).saturating_sub(self.poop_cleaned_ms);
        let q = produced / POOP_PERIOD_MS;
        if q < POOP_MAX as u64 {
            q as u8
        } else {
            POOP_MAX
        }
    }

    /// The pet is calling for help: a meter has bottomed out, or it is ill.
    /// Answering within `ALERT_GRACE_MS` avoids a care miss.
    pub fn alert(&self) -> (r: bool)
        requires
            self@.wf(),
        ensures
            r == self@.alert(),
    {
        !self.asleep() && (self.hunger() == 0 || self.mood() == 0 || self.sick())
    }

    /// Awake time inside one stage span, up to `age_ms`, weighted by `speed`.
    fn span_clock(age_ms: u64, start: u64, end: u64, speed: u64) -> (r: u64)
        requires
            start < age_ms,
            start < end <= LIFESPAN_MS,
            speed <= 2,
        ensures
            r == span_clock(age_ms, start, end, speed as int),
            r <= 2 * LIFESPAN_MS,
    {
        let upto = if age_ms < end {
            age_ms
        } else {
            end
        };
        proof {
            lemma_awake_ms_monotone(start, upto);
        }
        let d = awake_ms(upto) - awake_ms(start);
        assert(speed * d <= 2 * LIFESPAN_MS) by (nonlinear_arith)
            requires
                speed <= 2,
                d <= LIFESPAN_MS,
        ;
        speed * d
    }

    /// Poop-clock milliseconds at a given age: awake time, weighted by how fast
    /// the pet was producing at each stage.
    fn poop_clock(&self, age_ms: u64) -> (r: u64)
        ensures
            r == spec_poop_clock(age_ms),
    {
        if age_ms <= STAGE_BABY_MS {
            return 0;
        }
        let young = Self::span_clock(age_ms, STAGE_BABY_MS, STAGE_TEEN_MS, 2);
        if age_ms <= STAGE_TEEN_MS {
            return young;
        }
        proof {
            lemma_awake_ms_monotone(STAGE_BABY_MS, STAGE_TEEN_MS);
            lemma_awake_ms_monotone(STAGE_TEEN_MS, STAGE_ADULT_MS);
            lemma_awake_ms_monotone(STAGE_ADULT_MS, LIFESPAN_MS);
        }
        let teen = Self::span_clock(age_ms, STAGE_TEEN_MS, STAGE_ADULT_MS, 1);
        if age_ms <= STAGE_ADULT_MS {
            return young + teen;
        }
        young + teen + Self::span_clock(age_ms, STAGE_ADULT_MS, LIFESPAN_MS, 1)
    }

    /// The age at which the poop clock first reached `target`, looking no
    /// earlier than `from`. Inverting the clock by bisection beats deriving a
    /// closed form: it is piecewise linear in both stage and night, and this
    /// is called at most once per illness.
    fn age_at_poop_clock(&self, from: u64, target: u64) -> (r: u64)
        requires
            from <= self@.age_ms,
            spec_poop_clock(self@.age_ms) >= target,
        ensures
            r == first_age(self@.age_ms, poop_reached_from(from, target as int)),
    {
        let ghost p = poop_reached_from(from, target as int);
        let mut lo: u64 = from;
        let mut hi: u64 = self.age_ms;
        while lo < hi
            invariant
                from <= lo <= hi <= self@.age_ms,
                spec_poop_clock(hi) >= target,
                forall|b: u64| from <= b < lo ==> #[trigger] spec_poop_clock(b) < target,
            decreases hi - lo,
        {
            let mid = lo + (hi - lo) / 2;
            if self.poop_clock(mid) >= target {
                hi = mid;
            } else {
                assert forall|b: u64| from <= b < mid + 1 implies #[trigger] spec_poop_clock(b)
                    < target by {
                    lemma_poop_clock_monotone(b, mid);
                }
                lo = mid + 1;
            }
        }
        proof {
            assert(is_first(p, lo));
            lemma_first_age(self@.age_ms, p, lo);
        }
        lo
    }

    /// Grace periods overdue at awake time `awake` for a meter anchored at
    /// `level` at awake time `anchor`, which bottoms out `level` periods later.
    /// A meter whose zero point lies beyond the clock's range never bottoms
    /// out, so nothing is overdue for it.
    fn meter_overdue(awake: u64, anchor: u64, level: u8, period_ms: u64) -> (r: u8)
        requires
            level <= METER_MAX,
            period_ms <= 3_420_000,
        ensures
            r == spec_overdue(awake as int, anchor + level * period_ms),
    {
        assert(level as u64 * period_ms <= 4 * 3_420_000) by (nonlinear_arith)
            requires
                level <= 4,
                period_ms <= 3_420_000,
        ;
        let span = level as u64 * period_ms;
        if anchor > u64::MAX - span {
            assert(sat_sub(awake as int, anchor + level * period_ms) == 0);
            0
        } else {
            overdue(awake, anchor + span)
        }
    }

    /// Total care misses the pet would have at `age_ms`, counting the ones not
    /// yet charged. Monotonic in age, which is what makes the bisection below
    /// legitimate.
    fn total_misses_at(&self, age_ms: u64) -> (r: u8)
        requires
            self@.wf(),
        ensures
            r == self@.total_misses_at(age_ms),
    {
        let awake = awake_ms(age_ms);
        let hunger = Self::meter_overdue(
            awake,
            self.hunger_anchor_ms,
            self.hunger_at_anchor,
            self.hunger_period_ms,
        ).saturating_sub(self.hunger_misses);
        let mood = Self::meter_overdue(
            awake,
            self.mood_anchor_ms,
            self.mood_at_anchor,
            self.mood_period_ms,
        ).saturating_sub(self.mood_misses);
        let sick_overdue = match self.sick_since_ms {
            None => 0,
            Some(since) => overdue(awake, since),
        };
        let sick = sick_overdue.saturating_sub(self.sick_misses);
        self.care_miss.saturating_add(hunger).saturating_add(mood).saturating_add(sick)
    }

    /// Earliest age, no earlier than `from`, at which the care-miss count
    /// reaches the fatal limit.
    fn age_of_fatal_miss(&self, from: u64) -> (r: u64)
        requires
            self@.wf(),
            from <= self@.age_ms,
            self@.total_misses_at(self@.age_ms) >= CARE_MISS_LIMIT,
        ensures
            r == first_age(self@.age_ms, self@.fatal_from(from)),
    {
        let ghost p = self@.fatal_from(from);
        let mut lo: u64 = from;
        let mut hi: u64 = self.age_ms;
        while lo < hi
            invariant
                self@.wf(),
                from <= lo <= hi <= self@.age_ms,
                self@.total_misses_at(hi) >= CARE_MISS_LIMIT,
                forall|b: u64|
                    from <= b < lo ==> #[trigger] self@.total_misses_at(b) < CARE_MISS_LIMIT,
            decreases hi - lo,
        {
            let mid = lo + (hi - lo) / 2;
            if self.total_misses_at(mid) >= CARE_MISS_LIMIT {
                hi = mid;
            } else {
                assert forall|b: u64| from <= b < mid + 1 implies #[trigger] self@.total_misses_at(
                    b,
                ) < CARE_MISS_LIMIT by {
                    lemma_total_misses_monotone(self@, b, mid);
                }
                lo = mid + 1;
            }
        }
        proof {
            assert(is_first(p, lo));
            lemma_first_age(self@.age_ms, p, lo);
        }
        lo
    }

    /// Charge one care miss per grace period each call has gone unanswered.
    ///
    /// Each source counts from its own start, and remembers how many it has
    /// already been charged for, so calling this twice charges nothing twice.
    fn settle_care_misses(&mut self)
        requires
            old(self)@.wf(),
        ensures
            final(self)@ == old(self)@.settled(),
            final(self)@.wf(),
    {
        let awake = self.awake();
        self.care_miss = self.total_misses_at(self.age_ms);
        self.hunger_misses = Self::meter_overdue(
            awake,
            self.hunger_anchor_ms,
            self.hunger_at_anchor,
            self.hunger_period_ms,
        );
        self.mood_misses = Self::meter_overdue(
            awake,
            self.mood_anchor_ms,
            self.mood_at_anchor,
            self.mood_period_ms,
        );
        self.sick_misses = match self.sick_since_ms {
            None => 0,
            Some(since) => overdue(awake, since),
        };
        if !self.alert() {
            self.scolded_this_alert = false;
        }
    }

    // -- Time -----------------------------------------------------------------

    /// Advance to `age_ms` and settle anything that fell due on the way: illness
    /// from an unswept pen, care misses from unanswered calls, and death.
    ///
    /// Only ever moves forward, and does nothing once the generation has ended.
    /// An illness or a death is dated when it happened, but never before the
    /// age the pet had already reached: the misses before it have been charged.
    #[verifier::rlimit(30)]
    pub fn advance_to(&mut self, age_ms: u64)
        requires
            old(self)@.wf(),
        ensures
            final(self)@ == old(self)@.advanced(age_ms),
            final(self)@.wf(),
            old(self)@.outcome is Some ==> final(self)@ == old(self)@,
            old(self)@.age_ms <= final(self)@.age_ms <= old(self)@.aged_to(age_ms).age_ms,
            old(self)@.outcome is None && final(self)@.outcome != Some(Outcome::CareFailure)
                ==> final(self)@.age_ms == old(self)@.aged_to(age_ms).age_ms,
    {
        proof {
            lemma_advance_moves_forward(self@, age_ms);
        }
        if self.outcome.is_some() {
            return;
        }
        let reached = self.age_ms;
        let bigger = if age_ms < self.age_ms {
            self.age_ms
        } else {
            age_ms
        };
        self.age_ms = if bigger < LIFESPAN_MS {
            bigger
        } else {
            LIFESPAN_MS
        };
        let ghost aged = self@;

        if self.sick_since_ms.is_none() && self.poop() >= SICK_POOP {
            // Date the illness from the dropping that caused it, not from
            // whenever we happened to look, so a long blackout still charges the
            // player for the neglect that happened during it.
            proof {
                lemma_poop_clock_monotone(self.age_ms, self.age_ms);
                let x = sat_sub(spec_poop_clock(self.age_ms), self.poop_cleaned_ms as int);
                assert(x >= 3 * 3_600_000) by (nonlinear_arith)
                    requires
                        x / 3_600_000 >= 3,
                ;
            }
            assert(SICK_POOP as u64 * POOP_PERIOD_MS == 10_800_000);
            let target = self.poop_cleaned_ms + SICK_POOP as u64 * POOP_PERIOD_MS;
            let onset = self.age_at_poop_clock(reached, target);
            proof {
                lemma_first_age(self.age_ms, poop_reached_from(reached, target as int), onset);
                lemma_awake_ms_monotone(onset, onset);
            }
            self.sick_since_ms = Some(awake_ms(onset));
            self.sick_misses = 0;
        }
        assert(self@ == aged.with_illness(reached));

        // A pet that ran out of care during this step died back when the last
        // miss landed, not at whatever age we happened to look.
        if self.total_misses_at(self.age_ms) >= CARE_MISS_LIMIT {
            let at = self.age_of_fatal_miss(reached);
            proof {
                lemma_first_age(self.age_ms, self@.fatal_from(reached), at);
            }
            self.age_ms = at;
            self.outcome = Some(Outcome::CareFailure);
            let awake = self.awake();
            match self.sick_since_ms {
                Some(since) => {
                    if since > awake {
                        self.sick_since_ms = None;  // it died before falling ill
                    }
                },
                None => {},
            }
        }
        assert(self@ == aged.with_illness(reached).with_death(reached));

        self.settle_care_misses();

        if self.outcome.is_none() && self.age_ms >= LIFESPAN_MS {
            self.outcome = Some(Outcome::Lifespan);
        }
    }

    // -- Actions --------------------------------------------------------------

    /// Actions the player takes are refused wholesale while the pet is an egg or
    /// asleep, so each one only has to state its own reason for saying no.
    fn available(&self) -> (r: ActionResult)
        ensures
            r == (match self@.refusal() {
                Some(why) => Err(why),
                None => Ok(()),
            }),
    {
        match self.stage() {
            Stage::Egg => Err(Refusal::Unhatched),
            _ => if self.asleep() {
                Err(Refusal::Asleep)
            } else {
                Ok(())
            },
        }
    }

    /// A meal: one pip of hunger, one gram.
    pub fn feed_meal(&mut self) -> (r: ActionResult)
        requires
            old(self)@.wf(),
        ensures
            (r, final(self)@) == old(self)@.after_meal(),
            final(self)@.wf(),
    {
        self.available()?;
        if self.hunger() >= METER_MAX {
            return Err(Refusal::Full);
        }
        let level = self.hunger() + 1;
        self.set_hunger(level);
        self.add_weight(1);
        Ok(())
    }

    /// A snack: one pip of mood, two grams. The lazy way to cheer a pet up, and
    /// priced accordingly.
    pub fn feed_snack(&mut self) -> (r: ActionResult)
        requires
            old(self)@.wf(),
        ensures
            (r, final(self)@) == old(self)@.after_snack(),
            final(self)@.wf(),
    {
        self.available()?;
        if self.mood() >= METER_MAX {
            return Err(Refusal::Full);
        }
        let level = self.mood() + 1;
        self.set_mood(level);
        self.add_weight(2);
        Ok(())
    }

    /// Sweep away whole droppings only. Carrying the fraction over means a tidy
    /// player cannot delay the next one by sweeping early.
    pub fn clean(&mut self) -> (r: ActionResult)
        requires
            old(self)@.wf(),
        ensures
            (r, final(self)@) == old(self)@.after_clean(),
            final(self)@.wf(),
            r is Ok ==> final(self)@.poop() == 0,
    {
        self.available()?;
        if self.poop() == 0 {
            return Err(Refusal::Nothing);
        }
        let clock = self.poop_clock(self.age_ms);
        proof {
            let x = sat_sub(clock as int, self.poop_cleaned_ms as int);
            assert(x >= 3_600_000) by (nonlinear_arith)
                requires
                    x / 3_600_000 >= 1,
            ;
        }
        let produced = clock - self.poop_cleaned_ms;
        assert(produced / POOP_PERIOD_MS * POOP_PERIOD_MS <= produced) by (nonlinear_arith)
            requires
                POOP_PERIOD_MS == 3_600_000,
        ;
        assert(produced - produced / POOP_PERIOD_MS * POOP_PERIOD_MS < POOP_PERIOD_MS) by (
        nonlinear_arith)
            requires
                POOP_PERIOD_MS == 3_600_000,
        ;
        self.poop_cleaned_ms = self.poop_cleaned_ms + produced / POOP_PERIOD_MS * POOP_PERIOD_MS;
        Ok(())
    }

    pub fn medicate(&mut self) -> (r: ActionResult)
        requires
            old(self)@.wf(),
        ensures
            (r, final(self)@) == old(self)@.after_medicine(),
            final(self)@.wf(),
    {
        self.available()?;
        if self.sick_since_ms.is_none() {
            return Err(Refusal::Healthy);
        }
        self.sick_since_ms = None;
        self.sick_misses = 0;
        Ok(())
    }

    /// Scolding only means anything while the pet is calling, and only counts
    /// once per call.
    pub fn scold(&mut self) -> (r: ActionResult)
        requires
            old(self)@.wf(),
        ensures
            (r, final(self)@) == old(self)@.after_scold(),
            final(self)@.wf(),
    {
        self.available()?;
        if !self.alert() || self.scolded_this_alert {
            return Err(Refusal::Nothing);
        }
        self.scolded_this_alert = true;
        self.discipline = if self.discipline + 1 < DISCIPLINE_MAX {
            self.discipline + 1
        } else {
            DISCIPLINE_MAX
        };
        Ok(())
    }

    /// Result of a round of the guessing game: winning cheers the pet up more,
    /// and either way it burns a gram.
    pub fn play_result(&mut self, won: bool) -> (r: ActionResult)
        requires
            old(self)@.wf(),
        ensures
            (r, final(self)@) == old(self)@.after_play(won),
            final(self)@.wf(),
    {
        self.available()?;
        let level = self.mood() + if won {
            2
        } else {
            1
        };
        self.set_mood(level);
        let lighter = self.weight.saturating_sub(1);
        self.weight = if lighter < WEIGHT_MIN {
            WEIGHT_MIN
        } else {
            lighter
        };
        Ok(())
    }

    /// Re-anchor a meter at `level`. Clearing the credited miss count is what
    /// makes answering a call stop the bleeding.
    fn set_hunger(&mut self, level: u8)
        requires
            old(self)@.wf(),
        ensures
            final(self)@ == old(self)@.with_hunger(level as int),
            final(self)@.wf(),
    {
        self.hunger_at_anchor = if level < METER_MAX {
            level
        } else {
            METER_MAX
        };
        self.hunger_anchor_ms = self.awake();
        self.hunger_misses = 0;
    }

    fn set_mood(&mut self, level: u8)
        requires
            old(self)@.wf(),
        ensures
            final(self)@ == old(self)@.with_mood(level as int),
            final(self)@.wf(),
    {
        self.mood_at_anchor = if level < METER_MAX {
            level
        } else {
            METER_MAX
        };
        self.mood_anchor_ms = self.awake();
        self.mood_misses = 0;
    }

    /// Heavier by `grams`, up to `WEIGHT_MAX`.
    fn add_weight(&mut self, grams: u16)
        ensures
            final(self)@ == old(self)@.heavier(grams as int),
    {
        self.weight = if grams >= WEIGHT_MAX || self.weight >= WEIGHT_MAX - grams {
            WEIGHT_MAX
        } else {
            self.weight + grams
        };
    }

    fn awake(&self) -> (r: u64)
        ensures
            r == self@.awake(),
            r <= self@.age_ms,
    {
        awake_ms(self.age_ms)
    }
}

} // verus!
