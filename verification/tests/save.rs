use dc34_virtual_pet_core::pet::{Outcome, Pet};
use dc34_virtual_pet_core::save::{from_bytes, to_bytes, PetState, SAVE_LEN, VERSION};
use dc34_virtual_pet_core::Game;

fn same_state(a: &PetState, b: &PetState) -> bool {
    a.age_ms == b.age_ms
        && a.hunger_at_anchor == b.hunger_at_anchor
        && a.hunger_anchor_ms == b.hunger_anchor_ms
        && a.hunger_misses == b.hunger_misses
        && a.mood_at_anchor == b.mood_at_anchor
        && a.mood_anchor_ms == b.mood_anchor_ms
        && a.mood_misses == b.mood_misses
        && a.poop_cleaned_ms == b.poop_cleaned_ms
        && a.sick_since_ms == b.sick_since_ms
        && a.sick_misses == b.sick_misses
        && a.scolded_this_alert == b.scolded_this_alert
        && a.care_miss == b.care_miss
        && a.weight == b.weight
        && a.discipline == b.discipline
        && a.outcome == b.outcome
}

fn sample_game() -> Game {
    let mut pet = Pet::new(3);
    pet.advance_to(7_300_000);
    assert_eq!(pet.scold(), Ok(()));
    Game::restore(0x0102_0304_0506_0708, 1_000, 7, 3, pet)
}

#[test]
fn a_saved_game_reads_back_the_same() {
    let g = sample_game();
    let bytes = to_bytes(&g);
    assert_eq!(bytes.len(), SAVE_LEN);
    let back = from_bytes(&bytes).expect("a fresh save parses");
    assert_eq!(back.uptime_ms(), g.uptime_ms());
    assert_eq!(back.gen_start_ms(), g.gen_start_ms());
    assert_eq!(back.generation(), 7);
    assert_eq!(back.inherited(), 3);
    assert!(same_state(&back.pet().save_state(), &g.pet().save_state()));
    // The decay periods come back from the inherited discipline: the same
    // meters, now and later.
    let mut a = Pet::new(3);
    a.restore(&g.pet().save_state());
    let mut b = Pet::new(3);
    b.restore(&back.pet().save_state());
    a.advance_to(9_000_000);
    b.advance_to(9_000_000);
    assert_eq!(a.hunger(), b.hunger());
    assert_eq!(a.mood(), b.mood());
    assert_eq!(to_bytes(&back), bytes);
}

#[test]
fn the_layout_is_little_endian_field_by_field() {
    let g = sample_game();
    let s = g.pet().save_state();
    let b = to_bytes(&g);
    assert_eq!(b[0], VERSION);
    assert_eq!(b[1..9], [0x08, 0x07, 0x06, 0x05, 0x04, 0x03, 0x02, 0x01]);
    assert_eq!(b[9..17], 1_000u64.to_le_bytes());
    assert_eq!(b[17..21], 7u32.to_le_bytes());
    assert_eq!(b[21], 3);
    assert_eq!(b[22..30], s.age_ms.to_le_bytes());
    assert_eq!(b[58..66], s.sick_since_ms.unwrap().to_le_bytes());
    assert_eq!(b[67], 1); // scolded
    assert_eq!(b[69..71], s.weight.to_le_bytes());
    assert_eq!(b[72], 0); // still alive
}

#[test]
fn outcomes_and_health_are_encoded() {
    let mut pet = Pet::new(0);
    pet.advance_to(72_000_000);
    assert_eq!(pet.outcome(), Some(Outcome::CareFailure));
    let g = Game::restore(80_000_000, 0, 1, 0, pet);
    let b = to_bytes(&g);
    assert_eq!(b[72], 2);
    let back = from_bytes(&b).unwrap();
    assert_eq!(back.pet().outcome(), Some(Outcome::CareFailure));

    let fresh = Game::restore(5, 5, 1, 0, Pet::new(0));
    let b = to_bytes(&fresh);
    assert_eq!(b[58..66], u64::MAX.to_le_bytes());
    assert_eq!(b[72], 0);
    assert!(!from_bytes(&b).unwrap().pet().sick());
}

#[test]
fn short_blobs_are_no_save() {
    let b = to_bytes(&sample_game());
    assert!(from_bytes(&b[..SAVE_LEN - 1]).is_none());
    assert!(from_bytes(&[]).is_none());
    // Extra bytes past the blob are ignored.
    let mut long = b.to_vec();
    long.push(0xAA);
    assert!(from_bytes(&long).is_some());
}

#[test]
fn other_versions_are_no_save() {
    let mut b = to_bytes(&sample_game());
    b[0] = VERSION + 1;
    assert!(from_bytes(&b).is_none());
}

#[test]
fn a_lineage_younger_than_its_pet_is_no_save() {
    let g = Game::restore(10, 11, 1, 0, Pet::new(0));
    assert!(from_bytes(&to_bytes(&g)).is_none());
    let ok = Game::restore(11, 11, 1, 0, Pet::new(0));
    assert!(from_bytes(&to_bytes(&ok)).is_some());
}

#[test]
fn generation_zero_reads_as_one() {
    let g = Game::restore(10, 0, 0, 0, Pet::new(0));
    assert_eq!(from_bytes(&to_bytes(&g)).unwrap().generation(), 1);
}

#[test]
fn saved_values_out_of_range_are_held_to_it() {
    let mut b = to_bytes(&sample_game());
    b[30] = 200; // hunger at anchor
    b[71] = 9; // discipline
    b[22..30].copy_from_slice(&u64::MAX.to_le_bytes());
    b[72] = 7; // unknown outcome
    let back = from_bytes(&b).unwrap();
    let s = back.pet().save_state();
    assert_eq!(s.hunger_at_anchor, 4);
    assert_eq!(s.discipline, 4);
    assert_eq!(s.age_ms, 72_000_000);
    assert_eq!(s.outcome, None);
}

#[test]
fn a_weight_off_its_scale_still_loads() {
    let mut b = to_bytes(&sample_game());
    b[69] = 0xFF;
    b[70] = 0xFF;
    assert_eq!(from_bytes(&b).unwrap().pet().weight(), u16::MAX);
    b[69] = 0;
    b[70] = 0;
    let mut pet = from_bytes(&b).unwrap().pet().clone();
    assert_eq!(pet.weight(), 0);
    // A restored pet of any weight reads back as itself.
    let g = Game::restore(5, 5, 1, 3, pet.clone());
    assert_eq!(from_bytes(&to_bytes(&g)).unwrap().pet().weight(), 0);
    pet.advance_to(7_400_000);
    assert_eq!(pet.feed_meal(), Ok(()));
    assert_eq!(pet.weight(), 1);
}

#[test]
fn meter_anchors_at_the_top_of_the_clock_still_load_and_advance() {
    let mut b = to_bytes(&sample_game());
    b[31..39].copy_from_slice(&(u64::MAX - 5).to_le_bytes());
    b[41..49].copy_from_slice(&(u64::MAX - 5).to_le_bytes());
    let mut pet = from_bytes(&b).unwrap().pet().clone();
    pet.advance_to(9_000_000);
    assert_eq!(pet.hunger(), 4);
    assert_eq!(pet.mood(), 4);
}

#[test]
fn trailing_bytes_are_ignored() {
    let b = to_bytes(&sample_game());
    let mut longer = b.to_vec();
    longer.extend_from_slice(&[0xAB; 9]);
    assert_eq!(to_bytes(&from_bytes(&longer).unwrap()), b);
}
