use dc34_virtual_pet_core::minigame::{MiniGame, ROUNDS};

fn xorshift(mut x: u32) -> u32 {
    x ^= x << 13;
    x ^= x >> 17;
    x ^= x << 5;
    x
}

#[test]
fn five_rounds_make_a_series() {
    let mut g = MiniGame::new(12_345);
    let mut rng = 12_345u32 | 1;
    let mut wins = 0;
    for round in 0..ROUNDS {
        assert_eq!(g.round(), round);
        rng = xorshift(rng);
        let answer = rng & 1;
        let r = g.answer(0);
        let right = answer == 0;
        if right {
            wins += 1;
        }
        assert_eq!(g.last(), Some((answer, right)));
        if round + 1 < ROUNDS {
            assert_eq!(r, None);
        } else {
            assert_eq!(r, Some(wins));
        }
    }
    assert_eq!(g.round(), ROUNDS);
}

#[test]
fn a_fresh_game_has_no_last_round() {
    let g = MiniGame::new(0);
    assert_eq!(g.round(), 0);
    assert_eq!(g.last(), None);
}

#[test]
fn the_first_turn_from_a_known_seed() {
    // Seed 1: xorshift(1) = 0x42021, whose low bit is 1 -- a right turn.
    let mut g = MiniGame::new(0);
    assert_eq!(g.answer(3), None);
    assert_eq!(g.last(), Some((1, true)));
    let mut h = MiniGame::new(1 << 32);
    assert_eq!(h.answer(0), None);
    assert_eq!(h.last(), Some((1, false)));
}

#[test]
fn the_pet_leans_the_way_it_turned() {
    let mut g = MiniGame::new(12_345);
    assert_eq!(g.lean(), 0);
    g.answer(0);
    let expected = match g.last() {
        Some((0, _)) => -14,
        _ => 14,
    };
    assert_eq!(g.lean(), expected);
    let mut seen = [false, false];
    let mut h = MiniGame::new(7);
    for _ in 0..ROUNDS {
        h.answer(1);
        let (side, _) = h.last().unwrap();
        assert_eq!(h.lean(), if side == 0 { -14 } else { 14 });
        seen[side as usize] = true;
    }
    assert!(seen[0] || seen[1]);
}

#[test]
fn the_header_counts_rounds_from_one_and_stops_at_the_last() {
    let mut g = MiniGame::new(99);
    assert_eq!(g.round_shown(), 1);
    g.answer(0);
    assert_eq!(g.round_shown(), 2);
    for _ in 1..ROUNDS {
        g.answer(1);
    }
    assert_eq!(g.round(), ROUNDS);
    assert_eq!(g.round_shown(), ROUNDS);
}
