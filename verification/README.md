# dc34-virtual-pet-core

A pet-raising game for a conference badge. The pet ages with the badge's
cumulative uptime, sleeps through in-game nights, gets hungry, bored, dirty and
ill, and dies of neglect or of old age. Power is expected to drop at any time,
so nothing is integrated tick by tick: every derived value is a function of the
pet's age and a few anchors, and the whole game saves to a fixed 73-byte blob.

## Layout

- `src/` -- the library, verified with Verus.
  - `time.rs` -- uptime, the in-game calendar, nights, and the awake clock.
  - `pet.rs` -- the pet: its model (`PetModel`), stages, meters, mess,
    illness, care misses, death, and the player's actions.
  - `pet_laws.rs` -- what holds across calls: advancing in two steps ends where
    one step does (for every pet not charged for more misses than it has run
    up, which includes every pet the game itself makes), advancing twice to one age charges nothing twice, meters
    only fall and droppings only pile up with time, a death is dated at the
    earliest fatal miss, sweeping early never delays the next dropping, and
    the outcome always agrees with the count of misses.
  - `save.rs` -- the save blob: its byte layout, writing, reading, and the
    proof that reading back what was written gives the same game.
  - `lib.rs` -- the real-time clock used by the menu screen, and `Game`, a
    lineage of pets as the save file holds it.
  - `badge.rs`, `minigame.rs`, `look.rs` -- the decisions behind the screens:
    the menu's response to each button, the guessing game, and the circles
    and lines the creature is drawn with.
- `tests/` -- the tests, run against the compiled library.
- `app/` -- what runs on the badge around the library: the `BadgeGame` trait
  the firmware drives, drawing, and storage in the PDDB.
