use dc34_virtual_pet_core::pet::{Outcome, Pet, Refusal, Stage, LIFESPAN_MS};
use dc34_virtual_pet_core::save::PetState;

const MIN: u64 = 60 * 1000;

fn same_state(a: &PetState, b: &PetState) -> bool {
    a.age_ms == b.age_ms
        && a.hunger_at_anchor == b.hunger_at_anchor
        && a.hunger_anchor_ms == b.hunger_anchor_ms
        && a.hunger_misses == b.hunger_misses
        && a.mood_at_anchor == b.mood_at_anchor
        && a.mood_anchor_ms == b.mood_anchor_ms
        && a.mood_misses == b.mood_misses
        && a.poop_cleaned_ms == b.poop_cleaned_ms
        && a.sick_since_ms == b.sick_since_ms
        && a.sick_misses == b.sick_misses
        && a.scolded_this_alert == b.scolded_this_alert
        && a.care_miss == b.care_miss
        && a.weight == b.weight
        && a.discipline == b.discipline
        && a.outcome == b.outcome
}

#[test]
fn stages_follow_age() {
    assert_eq!(Stage::at(0), Stage::Egg);
    assert_eq!(Stage::at(10 * MIN - 1), Stage::Egg);
    assert_eq!(Stage::at(10 * MIN), Stage::Baby);
    assert_eq!(Stage::at(120 * MIN), Stage::Child);
    assert_eq!(Stage::at(480 * MIN), Stage::Teen);
    assert_eq!(Stage::at(840 * MIN), Stage::Adult);
    assert_eq!(Stage::at(u64::MAX), Stage::Adult);
    for s in [Stage::Egg, Stage::Baby, Stage::Child, Stage::Teen, Stage::Adult] {
        assert_eq!(Stage::at(s.starts_at()), s);
    }
    assert_eq!(Stage::Teen.starts_at(), 480 * MIN);
}

#[test]
fn an_egg_refuses_everything() {
    let mut p = Pet::new(0);
    assert_eq!(p.stage(), Stage::Egg);
    assert_eq!(p.feed_meal(), Err(Refusal::Unhatched));
    assert_eq!(p.feed_snack(), Err(Refusal::Unhatched));
    assert_eq!(p.clean(), Err(Refusal::Unhatched));
    assert_eq!(p.medicate(), Err(Refusal::Unhatched));
    assert_eq!(p.scold(), Err(Refusal::Unhatched));
    assert_eq!(p.play_result(true), Err(Refusal::Unhatched));
    assert_eq!(p.hunger(), 4);
    assert_eq!(p.mood(), 4);
    assert_eq!(p.weight(), 5);
    assert_eq!(p.outcome(), None);
}

#[test]
fn hunger_drops_a_pip_per_half_hour_awake_and_meals_refill_it() {
    let mut p = Pet::new(0);
    p.advance_to(10 * MIN);
    assert_eq!(p.stage(), Stage::Baby);
    assert_eq!(p.feed_meal(), Err(Refusal::Full));
    p.advance_to(40 * MIN);
    assert_eq!(p.hunger(), 3);
    assert_eq!(p.feed_meal(), Ok(()));
    assert_eq!(p.hunger(), 4);
    assert_eq!(p.weight(), 6);
}

#[test]
fn a_sleeping_pet_refuses() {
    let mut p = Pet::new(0);
    p.advance_to(5_000_000);
    assert!(p.asleep());
    assert_eq!(p.feed_meal(), Err(Refusal::Asleep));
    assert_eq!(p.play_result(false), Err(Refusal::Asleep));
}

#[test]
fn a_neglected_pet_dies_when_the_fifth_miss_lands() {
    let mut p = Pet::new(0);
    p.advance_to(LIFESPAN_MS);
    assert_eq!(p.outcome(), Some(Outcome::CareFailure));
    // Rewound to the moment of death: midnight of day 2.
    assert_eq!(p.age_ms(), 12_000_000);
    assert_eq!(p.care_miss(), 5);
    assert!(p.sick());
    assert_eq!(p.stage(), Stage::Child);
    // Nothing moves once the generation is over.
    p.advance_to(LIFESPAN_MS);
    assert_eq!(p.age_ms(), 12_000_000);
}

#[test]
fn an_unswept_pen_makes_the_pet_ill_and_medicine_cures_it() {
    let mut p = Pet::new(0);
    p.advance_to(7_300_000);
    assert!(p.sick());
    assert_eq!(p.poop(), 3);
    assert!(p.alert());
    assert_eq!(p.hunger(), 1);
    assert_eq!(p.mood(), 2);
    assert_eq!(p.scold(), Ok(()));
    assert_eq!(p.discipline(), 1);
    // Once per call.
    assert_eq!(p.scold(), Err(Refusal::Nothing));
    assert_eq!(p.clean(), Ok(()));
    assert_eq!(p.poop(), 0);
    assert_eq!(p.clean(), Err(Refusal::Nothing));
    assert_eq!(p.medicate(), Ok(()));
    assert!(!p.sick());
    assert_eq!(p.medicate(), Err(Refusal::Healthy));
    let s = p.save_state();
    assert_eq!(s.poop_cleaned_ms, 10_800_000);
    assert_eq!(s.sick_since_ms, None);
}

#[test]
fn inherited_discipline_slows_the_meters_and_play_cheers() {
    let mut p = Pet::new(2);
    p.advance_to(10 * MIN);
    assert_eq!(p.play_result(true), Ok(()));
    assert_eq!(p.mood(), 4);
    assert_eq!(p.weight(), 5);
    p.advance_to(10 * MIN + 36 * MIN);
    // 36 min is one widened period of 36 min.
    assert_eq!(p.hunger(), 3);
    p.advance_to(10 * MIN + 51 * MIN);
    assert_eq!(p.mood(), 3);
    assert_eq!(p.feed_snack(), Ok(()));
    assert_eq!(p.mood(), 4);
    assert_eq!(p.weight(), 7);
    assert_eq!(p.feed_snack(), Err(Refusal::Full));
}

#[test]
fn a_well_kept_pet_lives_its_full_span() {
    let mut p = Pet::new(1);
    let mut age = 0;
    while p.outcome().is_none() && age < LIFESPAN_MS {
        age += 10 * MIN;
        p.advance_to(age);
        if p.stage() != Stage::Egg && !p.asleep() {
            while p.feed_meal().is_ok() {}
            while p.feed_snack().is_ok() {}
            let _ = p.clean();
            let _ = p.medicate();
        }
    }
    assert_eq!(p.outcome(), Some(Outcome::Lifespan));
    assert_eq!(p.age_ms(), LIFESPAN_MS);
    assert_eq!(p.care_miss(), 0);
    assert_eq!(p.weight(), 67);
}

#[test]
fn a_blackout_changes_nothing() {
    let mut watched = Pet::new(0);
    watched.advance_to(50 * MIN);
    assert_eq!(watched.feed_meal(), Ok(()));
    let mut dark = Pet::new(0);
    dark.advance_to(50 * MIN);
    assert_eq!(dark.feed_meal(), Ok(()));
    let mut age = 50 * MIN;
    while age < 6_500_000 {
        age += 50_000;
        watched.advance_to(age);
    }
    dark.advance_to(6_500_000);
    assert!(same_state(&watched.save_state(), &dark.save_state()));
    assert_eq!(dark.hunger(), 3);
    assert_eq!(dark.mood(), 3);
    assert_eq!(dark.poop(), 2);
    // And into the night and out, to a death.
    watched.advance_to(9_000_000);
    watched.advance_to(20_000_000);
    dark.advance_to(20_000_000);
    assert!(same_state(&watched.save_state(), &dark.save_state()));
    assert_eq!(dark.outcome(), Some(Outcome::CareFailure));
    assert_eq!(dark.age_ms(), 14_400_000);
}

#[test]
fn advancing_twice_to_one_age_charges_nothing_twice() {
    let mut p = Pet::new(0);
    p.advance_to(11_000_000);
    let first = p.save_state();
    p.advance_to(11_000_000);
    assert!(same_state(&first, &p.save_state()));
    // Nor does an older reading move it back.
    p.advance_to(1_000);
    assert!(same_state(&first, &p.save_state()));
}

#[test]
fn restore_holds_saved_values_to_their_ranges() {
    let mut p = Pet::new(0);
    let mut s = p.save_state();
    s.age_ms = u64::MAX;
    s.hunger_at_anchor = 200;
    s.mood_at_anchor = 9;
    s.discipline = 7;
    s.weight = 42;
    p.restore(&s);
    assert_eq!(p.age_ms(), LIFESPAN_MS);
    assert!(p.hunger() <= 4);
    assert!(p.mood() <= 4);
    assert_eq!(p.discipline(), 4);
    assert_eq!(p.weight(), 42);
    let back = p.save_state();
    assert_eq!(back.hunger_at_anchor, 4);
    assert_eq!(back.mood_at_anchor, 4);
}

#[test]
fn weight_stays_within_its_bounds() {
    let mut p = Pet::new(0);
    let mut s = p.save_state();
    s.age_ms = 30 * MIN;
    s.weight = 98;
    s.hunger_at_anchor = 0;
    p.restore(&s);
    assert_eq!(p.hunger(), 0);
    assert_eq!(p.feed_meal(), Ok(()));
    assert_eq!(p.weight(), 99);
    assert_eq!(p.feed_meal(), Ok(()));
    assert_eq!(p.weight(), 99);
    assert_eq!(p.play_result(false), Ok(()));
    assert_eq!(p.weight(), 98);
    let mut q = Pet::new(0);
    q.advance_to(10 * MIN);
    assert_eq!(q.play_result(false), Ok(()));
    assert_eq!(q.weight(), 5);
}

#[test]
fn medicine_without_a_sweep_brings_the_illness_straight_back() {
    let mut p = Pet::new(0);
    p.advance_to(10_500_000);
    assert!(p.sick());
    assert_eq!(p.care_miss(), 3);
    assert_eq!(p.feed_meal(), Ok(()));
    assert_eq!(p.feed_snack(), Ok(()));
    assert_eq!(p.medicate(), Ok(()));
    assert_eq!(p.poop(), 4);
    // The pen is still dirty: the illness comes straight back, dated from the
    // age already reached, and nothing before it is charged again.
    p.advance_to(10_560_000);
    assert_eq!(p.outcome(), None);
    assert_eq!(p.age_ms(), 10_560_000);
    assert_eq!(p.care_miss(), 3);
    assert_eq!(p.save_state().sick_since_ms, Some(9_300_000));
    p.advance_to(12_000_000);
    assert_eq!(p.care_miss(), 4);
}

#[test]
fn medicine_then_the_same_age_charges_nothing_twice() {
    let mut p = Pet::new(0);
    p.advance_to(9_000_000);
    assert!(p.sick());
    assert_eq!(p.care_miss(), 1);
    assert_eq!(p.poop(), 4);
    assert_eq!(p.medicate(), Ok(()));
    p.advance_to(9_000_000);
    assert_eq!(p.care_miss(), 1);
    assert_eq!(p.outcome(), None);
    assert!(p.sick());
    assert_eq!(p.save_state().sick_since_ms, Some(7_800_000));
}

#[test]
fn a_restored_pet_out_of_care_dies_where_it_stands() {
    let mut p = Pet::new(0);
    let mut s = p.save_state();
    s.age_ms = 1_000_000;
    s.care_miss = 5;
    p.restore(&s);
    p.advance_to(1_000_000);
    assert_eq!(p.outcome(), Some(Outcome::CareFailure));
    assert_eq!(p.age_ms(), 1_000_000);
    assert_eq!(p.care_miss(), 5);
}

#[test]
fn advancing_never_moves_back() {
    let mut p = Pet::new(0);
    p.advance_to(3_000_000);
    p.advance_to(2_000_000);
    assert_eq!(p.age_ms(), 3_000_000);
    p.advance_to(u64::MAX);
    assert!(p.age_ms() >= 3_000_000);
    assert!(p.age_ms() <= LIFESPAN_MS);
}

#[test]
fn meters_only_fall_while_nobody_acts() {
    let mut p = Pet::new(0);
    p.advance_to(40 * MIN);
    assert_eq!((p.hunger(), p.mood()), (3, 4));
    p.advance_to(2 * 60 * MIN);
    assert_eq!((p.hunger(), p.mood()), (1, 2));
    assert_eq!(p.outcome(), None);
}

#[test]
fn droppings_pile_up_and_eggs_make_none() {
    let mut p = Pet::new(0);
    let mut seen = Vec::new();
    for age in [0, 500_000, 600_000, 3_600_000, 7_000_000, 7_300_000, 9_000_000] {
        p.advance_to(age);
        seen.push(p.poop());
    }
    assert_eq!(seen, vec![0, 0, 0, 1, 2, 3, 4]);
}

#[test]
fn death_is_dated_at_the_earliest_fatal_age() {
    let mut p = Pet::new(0);
    p.advance_to(11_999_999);
    assert_eq!(p.outcome(), None);
    assert_eq!(p.care_miss(), 4);
    let mut q = Pet::new(0);
    q.advance_to(12_000_000);
    assert_eq!(q.outcome(), Some(Outcome::CareFailure));
    assert_eq!(q.age_ms(), 12_000_000);
    assert_eq!(q.care_miss(), 5);
}

#[test]
fn sweeping_early_never_delays_the_next_dropping() {
    let mut unswept = Pet::new(0);
    unswept.advance_to(4_000_000);
    assert_eq!(unswept.poop(), 1);
    let mut swept = unswept.clone();
    assert_eq!(swept.clean(), Ok(()));
    assert_eq!(swept.poop(), 0);
    assert_eq!(swept.save_state().poop_cleaned_ms, 3_600_000);
    unswept.advance_to(4_400_000);
    swept.advance_to(4_400_000);
    assert_eq!(unswept.poop(), 2);
    assert_eq!(swept.poop(), 1);
}

#[test]
fn the_outcome_always_matches_the_count() {
    let mut p = Pet::new(3);
    let mut age = 0;
    while age < 30_000_000 {
        p.advance_to(age);
        let _ = p.feed_meal();
        let _ = p.play_result(true);
        match p.outcome() {
            None => assert!(p.care_miss() < 5 && p.age_ms() < LIFESPAN_MS),
            Some(Outcome::CareFailure) => assert!(p.care_miss() >= 5),
            Some(Outcome::Lifespan) => assert_eq!(p.age_ms(), LIFESPAN_MS),
        }
        age += 1_700_000;
    }
    assert_eq!(p.outcome(), Some(Outcome::CareFailure));
    assert_eq!(p.care_miss(), 5);
    assert_eq!(p.age_ms(), 15_900_000);
}

#[test]
fn any_restored_weight_is_fed_and_played_within_its_scale() {
    let mut p = Pet::new(0);
    let mut s = p.save_state();
    s.age_ms = 30 * MIN;
    s.hunger_at_anchor = 0;
    s.mood_at_anchor = 0;
    s.weight = u16::MAX;
    p.restore(&s);
    assert_eq!(p.feed_meal(), Ok(()));
    assert_eq!(p.weight(), 99);
    s.weight = u16::MAX - 1;
    p.restore(&s);
    assert_eq!(p.feed_snack(), Ok(()));
    assert_eq!(p.weight(), 99);
    s.weight = 0;
    p.restore(&s);
    assert_eq!(p.play_result(true), Ok(()));
    assert_eq!(p.weight(), 5);
}

#[test]
fn a_meter_that_bottoms_out_beyond_the_clock_never_does() {
    let mut p = Pet::new(0);
    let mut s = p.save_state();
    s.hunger_anchor_ms = u64::MAX - 1;
    s.mood_anchor_ms = u64::MAX - 1;
    p.restore(&s);
    p.advance_to(6_000_000);
    assert_eq!(p.outcome(), None);
    assert_eq!((p.hunger(), p.mood()), (4, 4));
    assert_eq!(p.care_miss(), 0);
    // Only the unswept pen's illness is left to kill it.
    p.advance_to(LIFESPAN_MS);
    assert_eq!(p.outcome(), Some(Outcome::CareFailure));
    assert_eq!(p.age_ms(), 15_900_000);
    assert_eq!(p.hunger(), 4);
}

#[test]
fn a_pet_charged_more_than_it_owes_counts_two_steps_differently() {
    // Outside what a blackout promises: a restored pet whose hunger has been
    // charged three misses it has not run up.
    let mut p = Pet::new(0);
    p.advance_to(600_000);
    let mut s = p.save_state();
    s.hunger_misses = 3;
    p.restore(&s);
    let mut q = p.clone();
    p.advance_to(9_000_000);
    p.advance_to(10_500_000);
    q.advance_to(10_500_000);
    assert_eq!(p.care_miss(), 3);
    assert_eq!(q.care_miss(), 2);
}
